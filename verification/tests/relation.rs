use minerva::relation::{
    create_relation_statements, materialize_relation_statements, remove_relation_statements,
    unregistration_outcome, AddRelation, MaterializeRelationError, AddedRelation, CreateRelationError, Relation,
    RemoveRelation, RemoveRelationError, UpdateRelation, UpdatedRelation,
};

fn relation() -> Relation {
    Relation {
        name: "node->site".to_string(),
        query: "SELECT 1 AS source_id, 2 AS target_id".to_string(),
    }
}

#[test]
fn relation_display() {
    assert_eq!(relation().to_display_string(), "Relation(node->site)");
    assert_eq!(AddRelation::from(relation()).to_display_string(), "AddRelation(Relation(node->site))");
    assert_eq!(UpdateRelation::from(relation()).to_display_string(), "UpdateRelation(Relation(node->site))");
    let remove = RemoveRelation { relation_name: "node->site".to_string() };
    assert_eq!(remove.to_display_string(), "RemoveRelation(node->site)");
}

#[test]
fn relation_create_statements() {
    let statements = create_relation_statements(&relation());
    assert_eq!(
        statements,
        vec![
            "CREATE TABLE relation.\"node->site\"(source_id integer, target_id integer)".to_string(),
            "CREATE VIEW relation_def.\"node->site\" AS SELECT 1 AS source_id, 2 AS target_id".to_string(),
            "CREATE UNIQUE INDEX ON relation.\"node->site\"(source_id, target_id)".to_string(),
            "CREATE INDEX ON relation.\"node->site\"(target_id)".to_string(),
            "SELECT create_reference_table('relation.\"node->site\"')".to_string(),
        ]
    );
}

#[test]
fn relation_quoted_statements() {
    let update = UpdateRelation::from(Relation { name: "a\"b".to_string(), query: "Q".to_string() });
    assert_eq!(update.update_statement(), "CREATE OR REPLACE VIEW relation_def.\"a\"\"b\" AS Q");
    let (delete, insert) = materialize_relation_statements("x");
    assert_eq!(delete, "DELETE FROM relation.\"x\"");
    assert_eq!(
        insert,
        "INSERT INTO relation.\"x\"(source_id, target_id) SELECT source_id, target_id FROM relation_def.\"x\""
    );
    let (table, view) = remove_relation_statements("x");
    assert_eq!(table, "DROP TABLE IF EXISTS relation.\"x\"");
    assert_eq!(view, "DROP VIEW IF EXISTS relation_def.\"x\"");
}

#[test]
fn relation_outcomes_and_reverts() {
    let added = AddRelation::from(relation()).outcome();
    assert_eq!(added.to_display_string(), "Added relation 'node->site'");
    assert!(added.revert().is_none());
    let updated: UpdatedRelation = UpdateRelation::from(relation()).outcome();
    assert_eq!(updated.to_display_string(), "Updated relation node->site");
    assert!(updated.revert().is_none());
    let removed = RemoveRelation { relation_name: "node->site".to_string() }.outcome(relation());
    assert_eq!(removed.to_display_string(), "Removed relation 'node->site'");
    assert_eq!(removed.relation.query, relation().query);
    assert!(removed.revert().is_none());
    let report = AddedRelation { relation_name: "r".to_string() };
    assert_eq!(report.to_display_string(), "Added relation 'r'");
}

#[test]
fn relation_errors() {
    assert!(matches!(unregistration_outcome(0), Err(RemoveRelationError::NoSuchRegistration)));
    assert!(unregistration_outcome(1).is_ok());
    assert_eq!(RemoveRelationError::NoSuchRegistration.to_display_string(), "No such relation registration");
    assert_eq!(RemoveRelationError::Database("boom".to_string()).to_display_string(), "boom");
    assert_eq!(CreateRelationError::Database("fail".to_string()).to_display_string(), "fail");
}

#[test]
fn relation_materialize_errors() {
    assert_eq!(
        MaterializeRelationError::Delete("locked".to_string()).to_display_string(),
        "Could not delete current relations: locked"
    );
    assert_eq!(
        MaterializeRelationError::Insert("dup".to_string()).to_display_string(),
        "Could not insert new relations: dup"
    );
}

#[test]
fn relation_creation_and_removal_steps() {
    let steps = minerva::relation::relation_creation_steps(&relation());
    assert_eq!(steps.len(), 6);
    assert_eq!(steps[0].failure, "Error creating relation table");
    assert_eq!(steps[4].failure, "Error converting relation table to reference table");
    assert_eq!(steps[5].statement, "SELECT relation_directory.register_type($1)");
    let removal = minerva::relation::relation_removal_steps("a\"b");
    assert_eq!(removal[0].statement, "DROP TABLE IF EXISTS relation.\"a\"\"b\"");
    assert_eq!(removal[2].failure, "Error unregistering relation");
    assert_eq!(minerva::relation::no_such_relation_message("x"), "No such relation 'x'");
    let add = AddRelation::from(relation());
    assert_eq!(add.failure_message("e"), "Could not create relation 'node->site': e");
    let remove = RemoveRelation { relation_name: "r".to_string() };
    assert_eq!(remove.failure_message("e"), "Could not remove relation 'r': e");
    let update = UpdateRelation::from(Relation { name: "n".to_string(), query: "Q".to_string() });
    assert_eq!(update.apply_step().failure, "Error updating relation view");
}
