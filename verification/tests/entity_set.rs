use minerva::entity::{entities_in_name_order, Entity};
use minerva::entity_set::{
    created_message, missing_entities_outcome, ChangeEntitySet, CreateEntitySet, EntitySet, NewEntitySet,
};
use minerva::error::{DatabaseError, Error, RuntimeError};

fn new_set(entities: Vec<&str>) -> NewEntitySet {
    NewEntitySet {
        name: "cells".to_string(),
        group: "g".to_string(),
        entity_type: "node".to_string(),
        owner: "alice".to_string(),
        description: String::new(),
        entities: entities.into_iter().map(|e| e.to_string()).collect(),
    }
}

#[test]
fn create_entity_set_decides() {
    let create = CreateEntitySet { entity_set: new_set(vec!["n1", "n2"]) };
    assert_eq!(create.to_display_string(), "CreateEntitySet(alice:cells)");
    match create.decision(true) {
        Err(Error::Database(DatabaseError::UniqueViolation(m))) => {
            assert_eq!(m, "An entity set with name cells and owner alice already exists.")
        }
        _ => panic!("expected a unique violation"),
    }
    match create.decision(false) {
        Ok(q) => assert_eq!(
            q,
            "SELECT relation_directory.create_entity_set_guarded($1, $2, $3, $4, $5, ARRAY['n1', 'n2'])"
        ),
        _ => panic!("expected a query"),
    }
    let empty = CreateEntitySet { entity_set: new_set(vec![]) };
    match empty.decision(false) {
        Err(Error::Runtime(e)) => assert_eq!(e.msg, "Entity sets cannot be empty"),
        _ => panic!("expected a runtime error"),
    }
    assert_eq!(created_message(42), "Entity set number 42 created");
    assert_eq!(
        create.failure_message("checking existence of", "boom"),
        "Error checking existence of entity set 'alice:cells': boom"
    );
}

#[test]
fn missing_entities_are_listed() {
    assert!(missing_entities_outcome(&vec![]).is_ok());
    match missing_entities_outcome(&vec!["n3".to_string(), "n4".to_string()]) {
        Err(Error::Runtime(e)) => assert_eq!(e.msg, "The following entities do not exist: n3, n4"),
        _ => panic!("expected a runtime error"),
    }
}

#[test]
fn change_entity_set_statement() {
    let set = EntitySet {
        id: 7,
        name: "cells".to_string(),
        group: "g".to_string(),
        entity_type: "node".to_string(),
        owner: "alice".to_string(),
        description: String::new(),
        entities: vec![],
    };
    let change = ChangeEntitySet { entity_set: set, entities: vec!["a".to_string(), "b".to_string()] };
    assert_eq!(change.statement(), "SELECT relation_directory.change_set_entities_guarded(7, ARRAY['a', 'b'])");
    assert_eq!(change.to_display_string(), "ChangeEntitySet(alice:cells)");
    assert!(matches!(change.outcome(&vec![]), Ok(ref m) if m == "Entity set updated"));
}

#[test]
fn runtime_error_from_string() {
    let e: RuntimeError = RuntimeError::from("oops".to_string());
    assert_eq!(e.msg, RuntimeError::from_msg("oops".to_string()).msg);
}

#[test]
fn entities_follow_the_order_of_the_names() {
    let found = vec![
        Entity { id: 1, name: "n0001".to_string(), alias: None },
        Entity { id: 3, name: "n0003".to_string(), alias: None },
        Entity { id: 8, name: "n0008".to_string(), alias: None },
        Entity { id: 4, name: "n0004".to_string(), alias: None },
    ];
    let names: Vec<String> = vec!["n0008", "n0004", "n0003", "n0001", "n0008"].into_iter().map(|s| s.to_string()).collect();
    let ids: Vec<i64> = entities_in_name_order(&found, &names).iter().map(|e| e.id).collect();
    assert_eq!(ids, vec![8, 4, 3, 1]);
}
