use minerva::virtual_entity::{AddVirtualEntity, RemoveVirtualEntity, VirtualEntity};

fn site() -> VirtualEntity {
    VirtualEntity { name: "site".to_string(), sql: "SELECT name FROM entity.node".to_string() }
}

#[test]
fn virtual_entity_display() {
    assert_eq!(site().to_display_string(), "VirtualEntity(site)");
    let add = AddVirtualEntity::from(site());
    assert_eq!(add.to_display_string(), "AddVirtualEntity(VirtualEntity(site))");
    assert_eq!(
        add.create_statement(),
        "CREATE OR REPLACE VIEW virtual_entity.\"site\" AS SELECT name FROM entity.node"
    );
    let remove = RemoveVirtualEntity { name: "my\"site".to_string() };
    assert_eq!(remove.to_display_string(), "RemoveVirtualEntity(my\"site)");
    assert_eq!(remove.drop_statement(), "DROP VIEW virtual_entity.\"my\"\"site\"");
}

#[test]
fn virtual_entity_reverts() {
    let added = AddVirtualEntity::from(site()).outcome();
    assert_eq!(added.to_display_string(), "Added virtual entity site");
    let undo = added.revert();
    assert_eq!(undo.name, "site");
    let removed = RemoveVirtualEntity { name: "site".to_string() }.outcome(site());
    assert_eq!(removed.to_display_string(), "Removed virtual entity VirtualEntity(site)");
    let again = removed.revert();
    assert_eq!(again.virtual_entity.name, "site");
    assert_eq!(again.virtual_entity.sql, "SELECT name FROM entity.node");
}

#[test]
fn virtual_entity_apply_steps() {
    let add = AddVirtualEntity::from(site());
    let step = add.apply_step();
    assert_eq!(step.statement, "CREATE OR REPLACE VIEW virtual_entity.\"site\" AS SELECT name FROM entity.node");
    assert_eq!(step.failure, "Error creating virtual entity 'site'");
    let remove = RemoveVirtualEntity { name: "site".to_string() };
    assert_eq!(remove.apply_step().failure, "Error removing virtual entity 'site'");
    assert_eq!(minerva::virtual_entity::no_such_virtual_entity_message("v"), "No such virtual entity 'v'");
}
