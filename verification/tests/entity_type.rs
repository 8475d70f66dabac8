use minerva::change::Change;
use minerva::entity_type::{
    AddEntityType, AddPrimaryAlias, ChangePrimaryAlias, CreateEntityTypeError, EntityType,
    RemovePrimaryAlias,
};

fn node(alias: Option<&str>) -> EntityType {
    EntityType { name: "node".to_string(), primary_alias: alias.map(|a| a.to_string()) }
}

#[test]
fn entity_type_diff_cases() {
    assert!(node(None).diff(&node(None)).is_empty());
    let add = node(None).diff(&node(Some("name")));
    assert_eq!(add.len(), 1);
    match &add[0] {
        Change::AddPrimaryAlias(c) => {
            assert_eq!(c.entity_type, "node");
            assert_eq!(c.primary_alias, "name");
        },
        _ => panic!("expected an added alias"),
    }
    let remove = node(Some("name")).diff(&node(None));
    assert!(matches!(&remove[..], [Change::RemovePrimaryAlias(c)] if c.entity_type == "node"));
    let same = node(Some("name")).diff(&node(Some("name")));
    assert!(matches!(&same[..], [Change::ChangePrimaryAlias(c)] if c.primary_alias == "name"));
}

#[test]
fn entity_type_texts() {
    assert_eq!(node(None).to_display_string(), "EntityType(node)");
    let add = AddPrimaryAlias { entity_type: "node".to_string(), primary_alias: "name".to_string() };
    assert_eq!(add.to_display_string(), "AddPrimaryAlias(node, name):\n");
    assert_eq!(
        add.alter_statement(),
        "ALTER TABLE entity.\"node\" ADD COLUMN primary_alias text GENERATED ALWAYS AS (name) STORED"
    );
    assert_eq!(add.outcome_message(), "Added primary alias to entity type 'node'");
    let remove = RemovePrimaryAlias { entity_type: "node".to_string() };
    assert_eq!(remove.to_display_string(), "RemovePrimaryAlias(node):\n");
    assert_eq!(remove.alter_statement(), "ALTER TABLE entity.\"node\" DROP COLUMN primary_alias");
    assert_eq!(remove.outcome_message(), "Removed primary alias from entity type 'node'");
    let change = ChangePrimaryAlias { entity_type: "node".to_string(), primary_alias: "upper(name)".to_string() };
    assert_eq!(change.to_display_string(), "ChangePrimaryAlias(node, upper(name)):\n");
    assert_eq!(
        change.alter_statement(),
        "ALTER TABLE entity.\"node\" ALTER COLUMN primary_alias SET EXPRESSION AS (upper(name))"
    );
    assert_eq!(change.outcome_message(), "Changed primary alias of entity type 'node'");
    let create = AddEntityType::from(node(None));
    assert_eq!(create.to_display_string(), "AddEntityType(EntityType(node))");
    assert_eq!(create.outcome_message(), "Created entity_type 'node'");
    assert_eq!(CreateEntityTypeError::Database("x".to_string()).to_display_string(), "x");
}
