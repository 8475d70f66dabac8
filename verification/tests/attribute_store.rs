use minerva::attribute_store::{
    entity_id_type_from_name, Attribute, AttributeStore, AttributeStoreDiffOptions,
    AttributeStoreRef, ChangeAttribute, EntityIdType, RemoveAttributes,
};
use minerva::audit_log::AuditLog;
use minerva::change::Change;
use serde_json::Value;

fn equipment_type() -> Attribute {
    Attribute {
        name: "equipment_type".to_string(),
        data_type: "text".to_string(),
        description: "Type name from vendor".to_string(),
        extra_data: Value::Null,
    }
}

fn store(attributes: Vec<Attribute>) -> AttributeStore {
    AttributeStore {
        data_source: "test".to_string(),
        entity_type: "node".to_string(),
        attributes,
        entity_id_type: EntityIdType::I32,
    }
}

fn change_text(change: &Change) -> String {
    match change {
        Change::AddAttributeStoreAttributes(c) => c.to_display_string(),
        Change::RemoveAttributes(c) => c.to_display_string(),
        Change::ChangeAttribute(c) => c.to_display_string(),
        _ => String::new(),
    }
}

#[test]
fn test_diff_added_attributes() {
    let my_attribute_store = store(vec![]);
    let other_attribute_store = store(vec![equipment_type()]);

    let diff_options = AttributeStoreDiffOptions { ignore_deletions: false };

    let changes = my_attribute_store.diff(&other_attribute_store, diff_options);

    assert_eq!(changes.len(), 1);
    let first_change = changes.first().expect("Should have a change");

    assert_eq!(
        change_text(first_change),
        "AddAttributes(AttributeStore(test, node), 1):\n - equipment_type: text\n"
    );
}

#[test]
fn test_diff_removed_attributes() {
    let my_attribute_store = store(vec![equipment_type()]);
    let other_attribute_store = store(vec![]);

    let diff_options = AttributeStoreDiffOptions { ignore_deletions: false };

    let changes = my_attribute_store.diff(&other_attribute_store, diff_options);

    assert_eq!(changes.len(), 1);
    let first_change = changes.first().expect("Should have a change");

    assert_eq!(
        change_text(first_change),
        "RemoveAttributes(AttributeStore(test, node), 1)\n - equipment_type\n"
    );
}

#[test]
fn test_entity_id_type_from_name() {
    assert_eq!(entity_id_type_from_name("int4"), Some(EntityIdType::I32));
    assert_eq!(entity_id_type_from_name("integer"), Some(EntityIdType::I32));
    assert_eq!(entity_id_type_from_name("int8"), Some(EntityIdType::I64));
    assert_eq!(entity_id_type_from_name("bigint"), Some(EntityIdType::I64));
    assert_eq!(entity_id_type_from_name("text"), None);
}

#[test]
fn test_change_existing_object() {
    let change = Change::ChangeAttribute(ChangeAttribute {
        attribute_store: AttributeStoreRef {
            data_source: "hub".to_string(),
            entity_type: "node".to_string(),
        },
        attribute_name: "equipment_type".to_string(),
        data_type: "integer".to_string(),
    });
    match change.existing_object() {
        Some(o) => {
            assert_eq!(o.name(), "hub_node");
            assert_eq!(o.to_display_string(), "AttributeStore(hub_node)");
        }
        None => panic!("no object"),
    }
    let change = Change::RemoveAttributes(RemoveAttributes {
        attribute_store: AttributeStoreRef {
            data_source: "hub".to_string(),
            entity_type: "node".to_string(),
        },
        attributes: vec!["equipment_type".to_string()],
    });
    assert!(change.existing_object().is_none());
}

#[test]
fn test_audit_log_query_succeeds() {
    assert!(AuditLog::log_query().is_ok());
}
