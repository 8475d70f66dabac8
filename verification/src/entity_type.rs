use vstd::prelude::*;

use crate::change::{changes_view, push_change, Change, ChangeView};

verus! {

/// A type of entity, with the optional SQL expression of its primary alias.
pub struct EntityType {
    pub name: String,
    pub primary_alias: Option<String>,
}

impl View for EntityType {
    type V = (Seq<char>, Option<Seq<char>>);

    open spec fn view(&self) -> (Seq<char>, Option<Seq<char>>) {
        (
            self.name@,
            match self.primary_alias {
                Some(a) => Some(a@),
                None => None,
            },
        )
    }
}

/// How an entity type is written: `EntityType(name)`.
pub open spec fn entity_type_text(name: Seq<char>) -> Seq<char> {
    "EntityType("@ + name + ")"@
}

/// The changes that give entity type `mine` the primary alias of `other`: adding one
/// where `mine` has none, removing it where `other` has none, and otherwise setting the
/// one of `other`, even when it is the same.
pub open spec fn entity_type_changes(
    mine: (Seq<char>, Option<Seq<char>>),
    other: (Seq<char>, Option<Seq<char>>),
) -> Seq<ChangeView> {
    match (mine.1, other.1) {
        (None, None) => Seq::empty(),
        (None, Some(a)) => seq![ChangeView::AddPrimaryAlias { entity_type: mine.0, primary_alias: a }],
        (Some(_), None) => seq![ChangeView::RemovePrimaryAlias { entity_type: mine.0 }],
        (Some(_), Some(a)) => seq![ChangeView::ChangePrimaryAlias { entity_type: mine.0, primary_alias: a }],
    }
}

impl EntityType {
    /// An entity type equal to this one.
    pub fn duplicate(&self) -> (r: EntityType)
        ensures
            r@ == self@,
    {
        EntityType {
            name: self.name.clone(),
            primary_alias: match &self.primary_alias {
                Some(a) => Some(a.clone()),
                None => None,
            },
        }
    }

    /// How the entity type is written.
    pub fn to_display_string(&self) -> (r: String)
        ensures
            r@ == entity_type_text(self.name@),
    {
        let mut s = "EntityType(".to_owned();
        s.append(self.name.as_str());
        s.append(")");
        proof {
            reveal_strlit("EntityType(");
            reveal_strlit(")");
        }
        s
    }

    /// The change of primary alias that turns this entity type into `other`.
    pub fn diff(&self, other: &EntityType) -> (changes: Vec<Change>)
        ensures
            changes_view(changes@) == entity_type_changes(self@, other@),
    {
        let mut changes: Vec<Change> = Vec::new();
        match (&self.primary_alias, &other.primary_alias) {
            (None, None) => {},
            (None, Some(a)) => push_change(
                &mut changes,
                Change::AddPrimaryAlias(
                    AddPrimaryAlias { entity_type: self.name.clone(), primary_alias: a.clone() },
                ),
            ),
            (Some(_), None) => push_change(
                &mut changes,
                Change::RemovePrimaryAlias(RemovePrimaryAlias { entity_type: self.name.clone() }),
            ),
            (Some(_), Some(a)) => push_change(
                &mut changes,
                Change::ChangePrimaryAlias(
                    ChangePrimaryAlias { entity_type: self.name.clone(), primary_alias: a.clone() },
                ),
            ),
        }
        assert(changes_view(changes@) =~= entity_type_changes(self@, other@));
        changes
    }
}

/// An entity type without a primary alias, compared with itself, gives no change.
pub proof fn lemma_entity_type_diff_self(entity_type: (Seq<char>, Option<Seq<char>>))
    requires
        entity_type.1 is None,
    ensures
        entity_type_changes(entity_type, entity_type) == Seq::<ChangeView>::empty(),
{
}

/// The statement that records the primary alias ($1) of an entity type ($2).
pub const SET_PRIMARY_ALIAS_STATEMENT: &'static str = "UPDATE directory.entity_type SET primary_alias = $1 WHERE name = $2";

/// The statement that clears the primary alias of an entity type ($1).
pub const CLEAR_PRIMARY_ALIAS_STATEMENT: &'static str = "UPDATE directory.entity_type SET primary_alias = NULL WHERE name = $1";

/// The statement that creates an entity type ($1) with its optional primary alias ($2).
pub const CREATE_ENTITY_TYPE_STATEMENT: &'static str = "SELECT directory.create_entity_type($1, $2);";

/// The text that introduces a failure to create an entity type.
pub const CREATE_ENTITY_TYPE_FAILURE: &'static str = "Error creating entity type";

/// The text that introduces a failure to apply the creation of an entity type.
pub const ADD_ENTITY_TYPE_FAILURE: &'static str = "Could not create entity type";

/// Giving an entity type a primary alias.
pub struct AddPrimaryAlias {
    pub entity_type: String,
    pub primary_alias: String,
}

/// The statement that adds a generated primary alias column to an entity table.
pub open spec fn add_alias_statement(entity_type: Seq<char>, alias: Seq<char>) -> Seq<char> {
    "ALTER TABLE entity.\""@ + entity_type + "\" ADD COLUMN primary_alias text GENERATED ALWAYS AS ("@
        + alias + ") STORED"@
}

impl AddPrimaryAlias {
    /// How the change is written: `AddPrimaryAlias(entity_type, alias):` and a line
    /// break.
    pub fn to_display_string(&self) -> (r: String)
        ensures
            r@ == "AddPrimaryAlias("@ + self.entity_type@ + ", "@ + self.primary_alias@ + "):\n"@,
    {
        let mut s = "AddPrimaryAlias(".to_owned();
        s.append(self.entity_type.as_str());
        s.append(", ");
        s.append(self.primary_alias.as_str());
        s.append("):\n");
        proof {
            reveal_strlit("AddPrimaryAlias(");
            reveal_strlit(", ");
            reveal_strlit("):\n");
        }
        s
    }

    /// The statement that adds the alias column.
    pub fn alter_statement(&self) -> (r: String)
        ensures
            r@ == add_alias_statement(self.entity_type@, self.primary_alias@),
    {
        let mut s = "ALTER TABLE entity.\"".to_owned();
        s.append(self.entity_type.as_str());
        s.append("\" ADD COLUMN primary_alias text GENERATED ALWAYS AS (");
        s.append(self.primary_alias.as_str());
        s.append(") STORED");
        proof {
            reveal_strlit("ALTER TABLE entity.\"");
            reveal_strlit("\" ADD COLUMN primary_alias text GENERATED ALWAYS AS (");
            reveal_strlit(") STORED");
        }
        s
    }

    /// What applying the change reports.
    pub fn outcome_message(&self) -> (r: String)
        ensures
            r@ == "Added primary alias to entity type '"@ + self.entity_type@ + "'"@,
    {
        let mut s = "Added primary alias to entity type '".to_owned();
        s.append(self.entity_type.as_str());
        s.append("'");
        proof {
            reveal_strlit("Added primary alias to entity type '");
            reveal_strlit("'");
        }
        s
    }
}

/// Taking the primary alias from an entity type.
pub struct RemovePrimaryAlias {
    pub entity_type: String,
}

impl RemovePrimaryAlias {
    /// How the change is written: `RemovePrimaryAlias(entity_type):` and a line break.
    pub fn to_display_string(&self) -> (r: String)
        ensures
            r@ == "RemovePrimaryAlias("@ + self.entity_type@ + "):\n"@,
    {
        let mut s = "RemovePrimaryAlias(".to_owned();
        s.append(self.entity_type.as_str());
        s.append("):\n");
        proof {
            reveal_strlit("RemovePrimaryAlias(");
            reveal_strlit("):\n");
        }
        s
    }

    /// The statement that drops the alias column.
    pub fn alter_statement(&self) -> (r: String)
        ensures
            r@ == "ALTER TABLE entity.\""@ + self.entity_type@ + "\" DROP COLUMN primary_alias"@,
    {
        let mut s = "ALTER TABLE entity.\"".to_owned();
        s.append(self.entity_type.as_str());
        s.append("\" DROP COLUMN primary_alias");
        proof {
            reveal_strlit("ALTER TABLE entity.\"");
            reveal_strlit("\" DROP COLUMN primary_alias");
        }
        s
    }

    /// What applying the change reports.
    pub fn outcome_message(&self) -> (r: String)
        ensures
            r@ == "Removed primary alias from entity type '"@ + self.entity_type@ + "'"@,
    {
        let mut s = "Removed primary alias from entity type '".to_owned();
        s.append(self.entity_type.as_str());
        s.append("'");
        proof {
            reveal_strlit("Removed primary alias from entity type '");
            reveal_strlit("'");
        }
        s
    }
}

/// Setting another primary alias for an entity type.
pub struct ChangePrimaryAlias {
    pub entity_type: String,
    pub primary_alias: String,
}

impl ChangePrimaryAlias {
    /// How the change is written: `ChangePrimaryAlias(entity_type, alias):` and a line
    /// break.
    pub fn to_display_string(&self) -> (r: String)
        ensures
            r@ == "ChangePrimaryAlias("@ + self.entity_type@ + ", "@ + self.primary_alias@
                + "):\n"@,
    {
        let mut s = "ChangePrimaryAlias(".to_owned();
        s.append(self.entity_type.as_str());
        s.append(", ");
        s.append(self.primary_alias.as_str());
        s.append("):\n");
        proof {
            reveal_strlit("ChangePrimaryAlias(");
            reveal_strlit(", ");
            reveal_strlit("):\n");
        }
        s
    }

    /// The statement that sets the new expression of the alias column.
    pub fn alter_statement(&self) -> (r: String)
        ensures
            r@ == "ALTER TABLE entity.\""@ + self.entity_type@
                + "\" ALTER COLUMN primary_alias SET EXPRESSION AS ("@ + self.primary_alias@
                + ")"@,
    {
        let mut s = "ALTER TABLE entity.\"".to_owned();
        s.append(self.entity_type.as_str());
        s.append("\" ALTER COLUMN primary_alias SET EXPRESSION AS (");
        s.append(self.primary_alias.as_str());
        s.append(")");
        proof {
            reveal_strlit("ALTER TABLE entity.\"");
            reveal_strlit("\" ALTER COLUMN primary_alias SET EXPRESSION AS (");
            reveal_strlit(")");
        }
        s
    }

    /// What applying the change reports.
    pub fn outcome_message(&self) -> (r: String)
        ensures
            r@ == "Changed primary alias of entity type '"@ + self.entity_type@ + "'"@,
    {
        let mut s = "Changed primary alias of entity type '".to_owned();
        s.append(self.entity_type.as_str());
        s.append("'");
        proof {
            reveal_strlit("Changed primary alias of entity type '");
            reveal_strlit("'");
        }
        s
    }
}

/// Creating an entity type.
pub struct AddEntityType {
    pub entity_type: EntityType,
}

impl AddEntityType {
    /// How the change is written: `AddEntityType(EntityType(name))`.
    pub fn to_display_string(&self) -> (r: String)
        ensures
            r@ == "AddEntityType("@ + entity_type_text(self.entity_type.name@) + ")"@,
    {
        let mut s = "AddEntityType(".to_owned();
        s.append(self.entity_type.to_display_string().as_str());
        s.append(")");
        proof {
            reveal_strlit("AddEntityType(");
            reveal_strlit(")");
        }
        s
    }

    /// What applying the change reports.
    pub fn outcome_message(&self) -> (r: String)
        ensures
            r@ == "Created entity_type '"@ + self.entity_type.name@ + "'"@,
    {
        let mut s = "Created entity_type '".to_owned();
        s.append(self.entity_type.name.as_str());
        s.append("'");
        proof {
            reveal_strlit("Created entity_type '");
            reveal_strlit("'");
        }
        s
    }
}

impl From<EntityType> for AddEntityType {
    fn from(entity_type: EntityType) -> (r: AddEntityType) {
        AddEntityType { entity_type }
    }
}

impl vstd::std_specs::convert::FromSpecImpl<EntityType> for AddEntityType {
    open spec fn obeys_from_spec() -> bool {
        true
    }

    open spec fn from_spec(entity_type: EntityType) -> AddEntityType {
        AddEntityType { entity_type }
    }
}

/// Errors in creating an entity type.
pub enum CreateEntityTypeError {
    Database(String),
}

impl CreateEntityTypeError {
    /// The message of the error.
    pub fn to_display_string(&self) -> (r: String)
        ensures
            r@ == match self {
                CreateEntityTypeError::Database(m) => m@,
            },
    {
        match self {
            CreateEntityTypeError::Database(m) => m.clone(),
        }
    }
}

} // verus!
