use vstd::prelude::*;

use crate::attribute_store::duplicate_strings;
use crate::error::{DatabaseError, Error, RuntimeError};
use crate::text::{i64_to_decimal, join, join_seqs, signed_decimal, strings_view};

verus! {

/// An entity set as stored: its id, name, group, entity type, owner, description and
/// the names of its entities.
pub struct EntitySet {
    pub id: i32,
    pub name: String,
    pub group: String,
    pub entity_type: String,
    pub owner: String,
    pub description: String,
    pub entities: Vec<String>,
}

/// An entity set that is still to be created.
pub struct NewEntitySet {
    pub name: String,
    pub group: String,
    pub entity_type: String,
    pub owner: String,
    pub description: String,
    pub entities: Vec<String>,
}

/// How an entity set is named in messages: `EntitySet(owner:name)`.
pub open spec fn entity_set_text(owner: Seq<char>, name: Seq<char>) -> Seq<char> {
    "EntitySet("@ + owner + ":"@ + name + ")"@
}

/// The query that lists the entity sets; the members of each are asked for apart.
pub const ENTITY_SETS_QUERY: &'static str =
    "SELECT name, \"group\", source_entity_type, owner, description, id, first_appearance, modified FROM attribute.minerva_entity_set es";

/// The query that gives the members of the entity set with the given id.
pub const ENTITY_SET_MEMBERS_QUERY: &'static str = "SELECT relation_directory.get_entity_set_members($1)";

/// The query that loads one entity set by owner and name.
pub const ENTITY_SET_QUERY: &'static str =
    "SELECT name, \"group\", source_entity_type, owner, description, entity_set.get_entity_set_members(es.id), first_appearance, modified, id FROM attribute.minerva_entity_set es WHERE es.owner = $1 AND es.name = $2";

/// The query that tells whether an entity set with an owner and name exists.
pub const ENTITY_SET_EXISTS_QUERY: &'static str = "SELECT relation_directory.entity_set_exists($1, $2)";

/// The query that gives the id of an entity set by name and owner.
pub const ENTITY_SET_ID_QUERY: &'static str =
    "SELECT id FROM attribute.minerva_entity_set es WHERE name = $1 AND owner = $2";

/// The message with which an entity set that a change updated is reported.
pub const ENTITY_SET_UPDATED: &'static str = "Entity set updated";

/// The message of an entity set without entities.
pub const EMPTY_ENTITY_SET: &'static str = "Entity sets cannot be empty";

/// The entity names written as the inside of an SQL array of quoted texts:
/// `a', 'b', 'c`.
pub open spec fn entity_list(entities: Seq<Seq<char>>) -> Seq<char> {
    join_seqs(entities, "', '"@)
}

/// The query that creates an entity set with the given entities; its parameters are
/// the name, group, entity type, owner and description.
pub open spec fn create_entity_set_query(entities: Seq<Seq<char>>) -> Seq<char> {
    "SELECT relation_directory.create_entity_set_guarded($1, $2, $3, $4, $5, ARRAY['"@ + entity_list(
        entities,
    ) + "'])"@
}

/// The query that sets the entities of the entity set with id `id`.
pub open spec fn change_entity_set_query(id: int, entities: Seq<Seq<char>>) -> Seq<char> {
    "SELECT relation_directory.change_set_entities_guarded("@ + signed_decimal(id) + ", ARRAY['"@
        + entity_list(entities) + "'])"@
}

/// The message of an entity set that already exists.
pub open spec fn exists_message(owner: Seq<char>, name: Seq<char>) -> Seq<char> {
    "An entity set with name "@ + name + " and owner "@ + owner + " already exists."@
}

/// The message that lists the entities that do not exist.
pub open spec fn missing_message(missing: Seq<Seq<char>>) -> Seq<char> {
    "The following entities do not exist: "@ + join_seqs(missing, ", "@)
}

/// The entity names joined for an SQL array.
fn entity_list_text(entities: &Vec<String>) -> (r: String)
    ensures
        r@ == entity_list(strings_view(entities@)),
{
    join(entities, "', '")
}

/// How an entity set is named: `EntitySet(owner:name)`.
fn entity_set_name_text(owner: &str, name: &str) -> (r: String)
    ensures
        r@ == entity_set_text(owner@, name@),
{
    proof {
        reveal_strlit("EntitySet(");
        reveal_strlit(":");
        reveal_strlit(")");
    }
    let mut s = "EntitySet(".to_owned();
    s.append(owner);
    s.append(":");
    s.append(name);
    s.append(")");
    s
}

impl EntitySet {
    /// How the set is written: `EntitySet(owner:name)`.
    pub fn to_display_string(&self) -> (r: String)
        ensures
            r@ == entity_set_text(self.owner@, self.name@),
    {
        entity_set_name_text(self.owner.as_str(), self.name.as_str())
    }
}

impl NewEntitySet {
    /// How the set is written: `EntitySet(owner:name)`.
    pub fn to_display_string(&self) -> (r: String)
        ensures
            r@ == entity_set_text(self.owner@, self.name@),
    {
        entity_set_name_text(self.owner.as_str(), self.name.as_str())
    }
}

/// The message of an entity set that could not be loaded.
pub fn load_failure_message(owner: &str, name: &str, error: &str) -> (r: String)
    ensures
        r@ == "Could not load entity set "@ + owner@ + ":"@ + name@ + ": "@ + error@,
{
    proof {
        reveal_strlit("Could not load entity set ");
        reveal_strlit(":");
        reveal_strlit(": ");
    }
    let mut s = "Could not load entity set ".to_owned();
    s.append(owner);
    s.append(":");
    s.append(name);
    s.append(": ");
    s.append(error);
    s
}

/// What the lookup of missing entities decides: success where every entity exists,
/// and otherwise a runtime error that lists those that do not.
pub fn missing_entities_outcome(missing: &Vec<String>) -> (r: Result<(), Error>)
    ensures
        missing.len() == 0 ==> r is Ok,
        missing.len() > 0 ==> (r matches Err(Error::Runtime(e)) && e.msg@ == missing_message(
            strings_view(missing@),
        )),
{
    if missing.len() == 0 {
        Ok(())
    } else {
        proof {
            reveal_strlit("The following entities do not exist: ");
        }
        let mut s = "The following entities do not exist: ".to_owned();
        s.append(join(missing, ", ").as_str());
        Err(Error::Runtime(RuntimeError::from_msg(s)))
    }
}

/// Creating an entity set.
pub struct CreateEntitySet {
    pub entity_set: NewEntitySet,
}

impl CreateEntitySet {
    /// How the change is written: `CreateEntitySet(owner:name)`.
    pub fn to_display_string(&self) -> (r: String)
        ensures
            r@ == "CreateEntitySet("@ + self.entity_set.owner@ + ":"@ + self.entity_set.name@ + ")"@,
    {
        proof {
            reveal_strlit("CreateEntitySet(");
            reveal_strlit(":");
            reveal_strlit(")");
        }
        let mut s = "CreateEntitySet(".to_owned();
        s.append(self.entity_set.owner.as_str());
        s.append(":");
        s.append(self.entity_set.name.as_str());
        s.append(")");
        s
    }

    /// What creating the set decides once it is known whether a set of that owner and
    /// name exists: such a set gives a unique-violation error, a set without entities a
    /// runtime error, and otherwise the query that creates it.
    pub fn decision(&self, exists: bool) -> (r: Result<String, Error>)
        ensures
            exists ==> (r matches Err(Error::Database(DatabaseError::UniqueViolation(m))) && m@
                == exists_message(self.entity_set.owner@, self.entity_set.name@)),
            !exists && self.entity_set.entities.len() == 0 ==> (r matches Err(Error::Runtime(e))
                && e.msg@ == EMPTY_ENTITY_SET@),
            !exists && self.entity_set.entities.len() > 0 ==> (r matches Ok(q) && q@
                == create_entity_set_query(strings_view(self.entity_set.entities@))),
    {
        if exists {
            proof {
                reveal_strlit("An entity set with name ");
                reveal_strlit(" and owner ");
                reveal_strlit(" already exists.");
            }
            let mut m = "An entity set with name ".to_owned();
            m.append(self.entity_set.name.as_str());
            m.append(" and owner ");
            m.append(self.entity_set.owner.as_str());
            m.append(" already exists.");
            Err(Error::Database(DatabaseError::UniqueViolation(m)))
        } else if self.entity_set.entities.len() == 0 {
            Err(Error::Runtime(RuntimeError::from_msg(EMPTY_ENTITY_SET.to_owned())))
        } else {
            proof {
                reveal_strlit("SELECT relation_directory.create_entity_set_guarded($1, $2, $3, $4, $5, ARRAY['");
                reveal_strlit("'])");
            }
            let mut q = "SELECT relation_directory.create_entity_set_guarded($1, $2, $3, $4, $5, ARRAY['".to_owned();
            q.append(entity_list_text(&self.entity_set.entities).as_str());
            q.append("'])");
            Ok(q)
        }
    }

    /// The message of a failure while `step` (such as `checking existence of`) the set:
    /// `Error checking existence of entity set 'owner:name': error`.
    pub fn failure_message(&self, step: &str, error: &str) -> (r: String)
        ensures
            r@ == "Error "@ + step@ + " entity set '"@ + self.entity_set.owner@ + ":"@
                + self.entity_set.name@ + "': "@ + error@,
    {
        proof {
            reveal_strlit("Error ");
            reveal_strlit(" entity set '");
            reveal_strlit(":");
            reveal_strlit("': ");
        }
        let mut s = "Error ".to_owned();
        s.append(step);
        s.append(" entity set '");
        s.append(self.entity_set.owner.as_str());
        s.append(":");
        s.append(self.entity_set.name.as_str());
        s.append("': ");
        s.append(error);
        s
    }
}

/// The message of a created entity set: `Entity set number <id> created`.
pub fn created_message(id: i32) -> (r: String)
    ensures
        r@ == "Entity set number "@ + signed_decimal(id as int) + " created"@,
{
    proof {
        reveal_strlit("Entity set number ");
        reveal_strlit(" created");
    }
    let mut s = "Entity set number ".to_owned();
    s.append(i64_to_decimal(id as i64).as_str());
    s.append(" created");
    s
}

/// The message of a created entity set whose id could not be read.
pub fn id_failure_message(error: &str) -> (r: String)
    ensures
        r@ == "Entity set created, but unable to get id: "@ + error@,
{
    proof {
        reveal_strlit("Entity set created, but unable to get id: ");
    }
    let mut s = "Entity set created, but unable to get id: ".to_owned();
    s.append(error);
    s
}

/// Setting the entities of an existing entity set.
pub struct ChangeEntitySet {
    pub entity_set: EntitySet,
    pub entities: Vec<String>,
}

impl ChangeEntitySet {
    /// How the change is written: `ChangeEntitySet(owner:name)`.
    pub fn to_display_string(&self) -> (r: String)
        ensures
            r@ == "ChangeEntitySet("@ + self.entity_set.owner@ + ":"@ + self.entity_set.name@ + ")"@,
    {
        proof {
            reveal_strlit("ChangeEntitySet(");
            reveal_strlit(":");
            reveal_strlit(")");
        }
        let mut s = "ChangeEntitySet(".to_owned();
        s.append(self.entity_set.owner.as_str());
        s.append(":");
        s.append(self.entity_set.name.as_str());
        s.append(")");
        s
    }

    /// The query that sets the entities of the set.
    pub fn statement(&self) -> (r: String)
        ensures
            r@ == change_entity_set_query(self.entity_set.id as int, strings_view(self.entities@)),
    {
        proof {
            reveal_strlit("SELECT relation_directory.change_set_entities_guarded(");
            reveal_strlit(", ARRAY['");
            reveal_strlit("'])");
        }
        let mut s = "SELECT relation_directory.change_set_entities_guarded(".to_owned();
        s.append(i64_to_decimal(self.entity_set.id as i64).as_str());
        s.append(", ARRAY['");
        s.append(entity_list_text(&self.entities).as_str());
        s.append("'])");
        s
    }

    /// The message of a failed change: `Error changing entity set 'owner:name': error`.
    pub fn failure_message(&self, error: &str) -> (r: String)
        ensures
            r@ == "Error changing entity set '"@ + self.entity_set.owner@ + ":"@
                + self.entity_set.name@ + "': "@ + error@,
    {
        proof {
            reveal_strlit("Error changing entity set '");
            reveal_strlit(":");
            reveal_strlit("': ");
        }
        let mut s = "Error changing entity set '".to_owned();
        s.append(self.entity_set.owner.as_str());
        s.append(":");
        s.append(self.entity_set.name.as_str());
        s.append("': ");
        s.append(error);
        s
    }

    /// What the change gives once the missing entities are known: the update message
    /// where there are none, and otherwise the error that lists them.
    pub fn outcome(&self, missing: &Vec<String>) -> (r: Result<String, Error>)
        ensures
            missing.len() == 0 ==> (r matches Ok(m) && m@ == ENTITY_SET_UPDATED@),
            missing.len() > 0 ==> (r matches Err(Error::Runtime(e)) && e.msg@ == missing_message(
                strings_view(missing@),
            )),
    {
        match missing_entities_outcome(missing) {
            Ok(()) => Ok(ENTITY_SET_UPDATED.to_owned()),
            Err(e) => Err(e),
        }
    }
}

impl EntitySet {
    /// A set equal to this one.
    pub fn duplicate(&self) -> (r: EntitySet)
        ensures
            r.id == self.id,
            r.name@ == self.name@,
            r.group@ == self.group@,
            r.entity_type@ == self.entity_type@,
            r.owner@ == self.owner@,
            r.description@ == self.description@,
            strings_view(r.entities@) == strings_view(self.entities@),
    {
        EntitySet {
            id: self.id,
            name: self.name.clone(),
            group: self.group.clone(),
            entity_type: self.entity_type.clone(),
            owner: self.owner.clone(),
            description: self.description.clone(),
            entities: duplicate_strings(&self.entities),
        }
    }
}

} // verus!
