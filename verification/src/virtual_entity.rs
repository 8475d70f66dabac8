use vstd::prelude::*;

use crate::text::{escape_identifier, quote_ident};

use crate::sql::{bare_step, concat, SqlParamView, SqlStep};

verus! {

/// A virtual entity type: a view, defined by its SQL, that gives entities.
pub struct VirtualEntity {
    pub name: String,
    pub sql: String,
}

impl View for VirtualEntity {
    type V = (Seq<char>, Seq<char>);

    open spec fn view(&self) -> (Seq<char>, Seq<char>) {
        (self.name@, self.sql@)
    }
}

/// How a virtual entity is written: `VirtualEntity(name)`.
pub open spec fn virtual_entity_text(name: Seq<char>) -> Seq<char> {
    "VirtualEntity("@ + name + ")"@
}

impl VirtualEntity {
    /// A virtual entity equal to this one.
    pub fn duplicate(&self) -> (r: VirtualEntity)
        ensures
            r@ == self@,
    {
        VirtualEntity { name: self.name.clone(), sql: self.sql.clone() }
    }

    /// How the virtual entity is written.
    pub fn to_display_string(&self) -> (r: String)
        ensures
            r@ == virtual_entity_text(self.name@),
    {
        let mut s = "VirtualEntity(".to_owned();
        s.append(self.name.as_str());
        s.append(")");
        proof {
            reveal_strlit("VirtualEntity(");
            reveal_strlit(")");
        }
        s
    }
}

/// Creating a virtual entity.
pub struct AddVirtualEntity {
    pub virtual_entity: VirtualEntity,
}

impl AddVirtualEntity {
    /// How the change is written: `AddVirtualEntity(VirtualEntity(name))`.
    pub fn to_display_string(&self) -> (r: String)
        ensures
            r@ == "AddVirtualEntity("@ + virtual_entity_text(self.virtual_entity.name@) + ")"@,
    {
        let mut s = "AddVirtualEntity(".to_owned();
        s.append(self.virtual_entity.to_display_string().as_str());
        s.append(")");
        proof {
            reveal_strlit("AddVirtualEntity(");
            reveal_strlit(")");
        }
        s
    }

    /// The statement that creates the view.
    pub fn create_statement(&self) -> (r: String)
        ensures
            r@ == "CREATE OR REPLACE VIEW virtual_entity."@ + quote_ident(self.virtual_entity.name@)
                + " AS "@ + self.virtual_entity.sql@,
    {
        let mut s = "CREATE OR REPLACE VIEW virtual_entity.".to_owned();
        s.append(escape_identifier(self.virtual_entity.name.as_str()).as_str());
        s.append(" AS ");
        s.append(self.virtual_entity.sql.as_str());
        proof {
            reveal_strlit("CREATE OR REPLACE VIEW virtual_entity.");
            reveal_strlit(" AS ");
        }
        s
    }

    /// What applying the change reports: the name of the virtual entity created.
    pub fn outcome(&self) -> (r: AddedVirtualEntity)
        ensures
            r.virtual_entity@ == self.virtual_entity.name@,
    {
        AddedVirtualEntity { virtual_entity: self.virtual_entity.name.clone() }
    }
}

impl From<VirtualEntity> for AddVirtualEntity {
    fn from(virtual_entity: VirtualEntity) -> (r: AddVirtualEntity) {
        AddVirtualEntity { virtual_entity }
    }
}

impl vstd::std_specs::convert::FromSpecImpl<VirtualEntity> for AddVirtualEntity {
    open spec fn obeys_from_spec() -> bool {
        true
    }

    open spec fn from_spec(virtual_entity: VirtualEntity) -> AddVirtualEntity {
        AddVirtualEntity { virtual_entity }
    }
}

/// The report of a created virtual entity, by name.
pub struct AddedVirtualEntity {
    pub virtual_entity: String,
}

impl AddedVirtualEntity {
    /// How the report is written.
    pub fn to_display_string(&self) -> (r: String)
        ensures
            r@ == "Added virtual entity "@ + self.virtual_entity@,
    {
        let mut s = "Added virtual entity ".to_owned();
        s.append(self.virtual_entity.as_str());
        proof {
            reveal_strlit("Added virtual entity ");
        }
        s
    }

    /// The change that undoes the creation: removing the virtual entity.
    pub fn revert(&self) -> (r: RemoveVirtualEntity)
        ensures
            r.name@ == self.virtual_entity@,
    {
        RemoveVirtualEntity { name: self.virtual_entity.clone() }
    }
}

/// Removing a virtual entity, by name.
pub struct RemoveVirtualEntity {
    pub name: String,
}

impl RemoveVirtualEntity {
    /// How the change is written: `RemoveVirtualEntity(name)`.
    pub fn to_display_string(&self) -> (r: String)
        ensures
            r@ == "RemoveVirtualEntity("@ + self.name@ + ")"@,
    {
        let mut s = "RemoveVirtualEntity(".to_owned();
        s.append(self.name.as_str());
        s.append(")");
        proof {
            reveal_strlit("RemoveVirtualEntity(");
            reveal_strlit(")");
        }
        s
    }

    /// The statement that drops the view.
    pub fn drop_statement(&self) -> (r: String)
        ensures
            r@ == "DROP VIEW virtual_entity."@ + quote_ident(self.name@),
    {
        let mut s = "DROP VIEW virtual_entity.".to_owned();
        s.append(escape_identifier(self.name.as_str()).as_str());
        proof {
            reveal_strlit("DROP VIEW virtual_entity.");
        }
        s
    }

    /// What applying the change reports, given the virtual entity as it was loaded
    /// before its removal.
    pub fn outcome(&self, virtual_entity: VirtualEntity) -> (r: RemovedVirtualEntity)
        ensures
            r.virtual_entity@ == virtual_entity@,
    {
        RemovedVirtualEntity { virtual_entity }
    }
}

/// The report of a removed virtual entity, with its definition.
pub struct RemovedVirtualEntity {
    pub virtual_entity: VirtualEntity,
}

impl RemovedVirtualEntity {
    /// How the report is written.
    pub fn to_display_string(&self) -> (r: String)
        ensures
            r@ == "Removed virtual entity "@ + virtual_entity_text(self.virtual_entity.name@),
    {
        let mut s = "Removed virtual entity ".to_owned();
        s.append(self.virtual_entity.to_display_string().as_str());
        proof {
            reveal_strlit("Removed virtual entity ");
        }
        s
    }

    /// The change that undoes the removal: creating the virtual entity again from its
    /// definition.
    pub fn revert(&self) -> (r: AddVirtualEntity)
        ensures
            r.virtual_entity@ == self.virtual_entity@,
    {
        AddVirtualEntity { virtual_entity: self.virtual_entity.duplicate() }
    }
}

/// The query for the name and view definition of a virtual entity.
pub const VIRTUAL_ENTITY_QUERY: &'static str = "select ev_class::regclass::text as name, pg_get_viewdef(ev_class) as view_def from pg_rewrite r join pg_class c on c.oid = ev_class join pg_namespace nsp on nsp.oid = c.relnamespace where nspname = 'virtual_entity' and relname = $1";

/// The query for the names and view definitions of all virtual entities.
pub const VIRTUAL_ENTITIES_QUERY: &'static str = "select c.relname as name, pg_get_viewdef(ev_class) as view_def from pg_rewrite r join pg_class c on c.oid = ev_class join pg_namespace nsp on nsp.oid = c.relnamespace where nspname = 'virtual_entity'";

/// The message of a virtual entity that does not exist.
pub fn no_such_virtual_entity_message(name: &str) -> (r: String)
    ensures
        r@ == "No such virtual entity '"@ + name@ + "'"@,
{
    let mut s = concat("No such virtual entity '", name);
    s.append("'");
    proof {
        reveal_strlit("No such virtual entity '");
        reveal_strlit("'");
    }
    s
}

impl AddVirtualEntity {
    /// The statement that applies the change.
    pub fn apply_step(&self) -> (r: SqlStep)
        ensures
            r@ == (
                "CREATE OR REPLACE VIEW virtual_entity."@ + quote_ident(self.virtual_entity.name@) + " AS "@
                    + self.virtual_entity.sql@,
                Seq::<SqlParamView>::empty(),
                "Error creating virtual entity '"@ + self.virtual_entity.name@ + "'"@,
            ),
    {
        let mut failure = concat("Error creating virtual entity '", self.virtual_entity.name.as_str());
        failure.append("'");
        proof {
            reveal_strlit("Error creating virtual entity '");
            reveal_strlit("'");
        }
        bare_step(self.create_statement(), failure.as_str())
    }
}

impl RemoveVirtualEntity {
    /// The statement that applies the change; before it runs, the virtual entity is
    /// loaded (with `VIRTUAL_ENTITY_QUERY`) for the report of the change.
    pub fn apply_step(&self) -> (r: SqlStep)
        ensures
            r@ == (
                "DROP VIEW virtual_entity."@ + quote_ident(self.name@),
                Seq::<SqlParamView>::empty(),
                "Error removing virtual entity '"@ + self.name@ + "'"@,
            ),
    {
        let mut failure = concat("Error removing virtual entity '", self.name.as_str());
        failure.append("'");
        proof {
            reveal_strlit("Error removing virtual entity '");
            reveal_strlit("'");
        }
        bare_step(self.drop_statement(), failure.as_str())
    }
}

} // verus!
