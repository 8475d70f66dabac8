use minerva::attribute_store::{
    AddAttributeStore, AddAttributeStoreAttributes, Attribute, AttributeStore, AttributeStoreRef, ChangeAttribute,
    EntityIdType, RemoveAttributes,
};
use minerva::attribute_store_sql::{
    no_such_attribute_message, CHANGE_DATA_TYPE_STATEMENT, CREATE_ATTRIBUTE_STATEMENT, DROP_ATTRIBUTE_STATEMENT,
};
use minerva::error::{postgres_error_to_string, DatabaseError};
use minerva::sql::{SqlParam, SqlStep};
use serde_json::Value;

fn store() -> AttributeStoreRef {
    AttributeStoreRef { data_source: "hub".to_string(), entity_type: "node".to_string() }
}

fn texts(step: &SqlStep) -> Vec<String> {
    step.params
        .iter()
        .map(|p| match p {
            SqlParam::Text(s) => s.clone(),
            _ => "?".to_string(),
        })
        .collect()
}

#[test]
fn attribute_change_statements() {
    let add = AddAttributeStoreAttributes {
        attribute_store: store(),
        attributes: vec![
            Attribute { name: "a".to_string(), data_type: "text".to_string(), description: "d".to_string(), extra_data: Value::Null },
            Attribute { name: "b".to_string(), data_type: "integer".to_string(), description: String::new(), extra_data: Value::Null },
        ],
    };
    let steps = add.apply_steps();
    assert_eq!(steps.len(), 2);
    assert_eq!(steps[0].statement, CREATE_ATTRIBUTE_STATEMENT);
    assert_eq!(texts(&steps[1]), vec!["b", "integer", "", "hub", "node"]);
    assert_eq!(steps[1].failure, "Error adding attributes to attribute store");
    let remove = RemoveAttributes { attribute_store: store(), attributes: vec!["x".to_string()] };
    let step = remove.remove_step(0);
    assert_eq!(step.statement, DROP_ATTRIBUTE_STATEMENT);
    assert_eq!(texts(&step), vec!["x", "hub", "node"]);
    assert_eq!(step.failure, "Error removing attribute 'x' from attribute store");
    let change = ChangeAttribute { attribute_store: store(), attribute_name: "x".to_string(), data_type: "bigint".to_string() };
    let step = change.apply_step();
    assert_eq!(step.statement, CHANGE_DATA_TYPE_STATEMENT);
    assert_eq!(texts(&step), vec!["bigint", "x", "hub", "node"]);
    assert_eq!(no_such_attribute_message("hub", "node", "x"), "No such attribute 'hub_node'.'x'");
    let create = AddAttributeStore {
        attribute_store: AttributeStore {
            data_source: "hub".to_string(),
            entity_type: "node".to_string(),
            attributes: vec![],
            entity_id_type: EntityIdType::I32,
        },
    };
    assert_eq!(create.failure_message("e"), "Error creating attribute store 'AttributeStore(hub, node)': e");
}

#[test]
fn postgres_error_texts() {
    assert_eq!(
        postgres_error_to_string(Some(("duplicate key".to_string(), Some("Key (id)=(1)".to_string()))), "x".to_string()),
        "duplicate key: Key (id)=(1)"
    );
    assert_eq!(postgres_error_to_string(Some(("m".to_string(), None)), "x".to_string()), "m");
    assert_eq!(postgres_error_to_string(None, "connection closed".to_string()), "connection closed");
    match DatabaseError::from_postgres_error("Error changing attribute data type", "boom") {
        DatabaseError::Default(m) => assert_eq!(m, "Error changing attribute data type: boom"),
        _ => panic!("expected a plain database error"),
    }
}
