use vstd::prelude::*;

use crate::text::{escape_identifier, quote_ident, strings_view};

verus! {

/// An entity: its id, its name and, where its type has one, its primary alias.
pub struct Entity {
    pub id: i64,
    pub name: String,
    pub alias: Option<String>,
}

impl Entity {
    /// An entity equal to this one.
    pub fn duplicate(&self) -> (r: Entity)
        ensures
            r.id == self.id,
            r.name@ == self.name@,
            r.alias == self.alias,
    {
        Entity {
            id: self.id,
            name: self.name.clone(),
            alias: match &self.alias {
                Some(a) => Some(a.clone()),
                None => None,
            },
        }
    }
}

/// The mapping of entity names to entities that looks each one up in the database.
pub struct DbEntityMapping {}

/// Errors in mapping entity names to entities.
pub enum EntityMappingError {
    DatabaseError(String),
    EntityCreationError(String),
    EntityInsertError,
    UnmappedEntityError,
    CacheError,
}

impl EntityMappingError {
    /// The message of the error.
    pub fn to_display_string(&self) -> (r: String)
        ensures
            r@ == match self {
                EntityMappingError::DatabaseError(m) => "Database error: "@ + m@,
                EntityMappingError::EntityCreationError(m) => "Could not create entity: "@ + m@,
                EntityMappingError::EntityInsertError => "Could not insert entity"@,
                EntityMappingError::UnmappedEntityError => "Could not map entity"@,
                EntityMappingError::CacheError => "Value unexpectedly not found in cache"@,
            },
    {
        proof {
            reveal_strlit("Database error: ");
            reveal_strlit("Could not create entity: ");
            reveal_strlit("Could not insert entity");
            reveal_strlit("Could not map entity");
            reveal_strlit("Value unexpectedly not found in cache");
        }
        match self {
            EntityMappingError::DatabaseError(m) => {
                let mut s = "Database error: ".to_owned();
                s.append(m.as_str());
                s
            },
            EntityMappingError::EntityCreationError(m) => {
                let mut s = "Could not create entity: ".to_owned();
                s.append(m.as_str());
                s
            },
            EntityMappingError::EntityInsertError => "Could not insert entity".to_owned(),
            EntityMappingError::UnmappedEntityError => "Could not map entity".to_owned(),
            EntityMappingError::CacheError => "Value unexpectedly not found in cache".to_owned(),
        }
    }
}

/// The query that looks up the ids of a list of names (its first parameter) in the
/// entity table of `entity_type`.
pub fn entity_ids_query(entity_type: &str) -> (r: String)
    ensures
        r@ == "WITH lookup_list AS (SELECT unnest($1::text[]) AS name) SELECT l.name, e.id FROM lookup_list l LEFT JOIN entity."@
            + quote_ident(entity_type@) + " e ON l.name = e.name "@,
{
    let mut s = "WITH lookup_list AS (SELECT unnest($1::text[]) AS name) SELECT l.name, e.id FROM lookup_list l LEFT JOIN entity.".to_owned();
    s.append(escape_identifier(entity_type).as_str());
    s.append(" e ON l.name = e.name ");
    proof {
        reveal_strlit("WITH lookup_list AS (SELECT unnest($1::text[]) AS name) SELECT l.name, e.id FROM lookup_list l LEFT JOIN entity.");
        reveal_strlit(" e ON l.name = e.name ");
    }
    s
}

/// The statement that creates an entity of `entity_type` by name (its first
/// parameter), or finds it, and returns its id.
pub fn create_entity_statement(entity_type: &str) -> (r: String)
    ensures
        r@ == "INSERT INTO entity."@ + quote_ident(entity_type@)
            + "(name) VALUES($1) ON CONFLICT(name) DO UPDATE SET name=EXCLUDED.name RETURNING id"@,
{
    let mut s = "INSERT INTO entity.".to_owned();
    s.append(escape_identifier(entity_type).as_str());
    s.append("(name) VALUES($1) ON CONFLICT(name) DO UPDATE SET name=EXCLUDED.name RETURNING id");
    proof {
        reveal_strlit("INSERT INTO entity.");
        reveal_strlit("(name) VALUES($1) ON CONFLICT(name) DO UPDATE SET name=EXCLUDED.name RETURNING id");
    }
    s
}

/// The query for whether an entity type ($1) has a primary alias.
pub const USES_ALIAS_QUERY: &'static str = "SELECT primary_alias IS NOT NULL FROM directory.entity_type WHERE name = $1";

/// The query for the primary alias setting of an entity type ($1).
pub const PRIMARY_ALIAS_QUERY: &'static str = "SELECT primary_alias FROM directory.entity_type WHERE name = $1";

/// The query that looks up the entities of a list of names (its first parameter) in the
/// entity table of `entity_type`: name, id and, when the type has a primary alias,
/// the alias.
pub fn entities_query(entity_type: &str, primary_alias: bool) -> (r: String)
    ensures
        r@ == "WITH lookup_list AS (SELECT unnest($1::text[]) AS name) SELECT l.name, "@ + (if primary_alias {
            "e.id, e.primary_alias"@
        } else {
            "e.id AS primary_alias"@
        }) + " FROM lookup_list l LEFT JOIN entity."@ + quote_ident(entity_type@) + " e ON l.name = e.name "@,
{
    let mut s = "WITH lookup_list AS (SELECT unnest($1::text[]) AS name) SELECT l.name, ".to_owned();
    if primary_alias {
        s.append("e.id, e.primary_alias");
    } else {
        s.append("e.id AS primary_alias");
    }
    s.append(" FROM lookup_list l LEFT JOIN entity.");
    s.append(escape_identifier(entity_type).as_str());
    s.append(" e ON l.name = e.name ");
    proof {
        reveal_strlit("WITH lookup_list AS (SELECT unnest($1::text[]) AS name) SELECT l.name, ");
        reveal_strlit("e.id, e.primary_alias");
        reveal_strlit("e.id AS primary_alias");
        reveal_strlit(" FROM lookup_list l LEFT JOIN entity.");
        reveal_strlit(" e ON l.name = e.name ");
    }
    s
}

/// The statement that creates an entity of `entity_type` by name ($1) with a primary
/// alias ($2), or finds it, and returns its id and alias.
pub fn create_entity_with_alias_statement(entity_type: &str) -> (r: String)
    ensures
        r@ == "INSERT INTO entity."@ + quote_ident(entity_type@)
            + "(name, primary_alias) VALUES($1, $2) ON CONFLICT(name) DO UPDATE SET name=EXCLUDED.name RETURNING id, primary_alias"@,
{
    let mut s = "INSERT INTO entity.".to_owned();
    s.append(escape_identifier(entity_type).as_str());
    s.append("(name, primary_alias) VALUES($1, $2) ON CONFLICT(name) DO UPDATE SET name=EXCLUDED.name RETURNING id, primary_alias");
    proof {
        reveal_strlit("INSERT INTO entity.");
        reveal_strlit("(name, primary_alias) VALUES($1, $2) ON CONFLICT(name) DO UPDATE SET name=EXCLUDED.name RETURNING id, primary_alias");
    }
    s
}

/// The primary alias given to an entity created by name: `alias_for_<name>`.
pub fn created_alias(name: &str) -> (r: String)
    ensures
        r@ == "alias_for_"@ + name@,
{
    let mut s = "alias_for_".to_owned();
    s.append(name);
    proof {
        reveal_strlit("alias_for_");
    }
    s
}

/// The id found last for `name`, as a map filled from `found` in order keeps it.
pub open spec fn last_id_of(found: Seq<(String, i64)>, name: Seq<char>) -> Option<i64>
    decreases found.len(),
{
    if found.len() == 0 {
        None
    } else if found.last().0@ == name {
        Some(found.last().1)
    } else {
        last_id_of(found.drop_last(), name)
    }
}

/// The id found last for `name`.
fn last_id(found: &Vec<(String, i64)>, name: &String) -> (r: Option<i64>)
    ensures
        r == last_id_of(found@, name@),
{
    let mut i: usize = found.len();
    assert(found@.take(i as int) =~= found@);
    while i > 0
        invariant
            i <= found.len(),
            last_id_of(found@, name@) == last_id_of(found@.take(i as int), name@),
        decreases i,
    {
        assert(found@.take(i as int).drop_last() =~= found@.take(i - 1));
        assert(found@.take(i as int).last() == found@[i - 1]);
        if found[i - 1].0 == *name {
            return Some(found[i - 1].1);
        }
        i = i - 1;
    }
    None
}

/// The ids of `names`, in order, from the pairs of name and id that were found, a
/// later pair for a name taking the place of an earlier one; a name without an id
/// makes the mapping fail.
pub fn ids_for_names(found: &Vec<(String, i64)>, names: &Vec<String>) -> (r: Result<Vec<i64>, EntityMappingError>)
    ensures
        match r {
            Ok(ids) => ids.len() == names.len() && forall|i: int|
                0 <= i < names.len() ==> last_id_of(found@, (#[trigger] names@[i])@) == Some(ids@[i]),
            Err(e) => e is UnmappedEntityError && exists|i: int|
                0 <= i < names.len() && last_id_of(found@, (#[trigger] names@[i])@) is None,
        },
{
    let mut ids: Vec<i64> = Vec::new();
    let mut i: usize = 0;
    while i < names.len()
        invariant
            i <= names.len(),
            ids.len() == i,
            forall|j: int| 0 <= j < i ==> last_id_of(found@, (#[trigger] names@[j])@) == Some(ids@[j]),
        decreases names.len() - i,
    {
        match last_id(found, &names[i]) {
            Some(id) => ids.push(id),
            None => {
                return Err(EntityMappingError::UnmappedEntityError);
            },
        }
        i = i + 1;
    }
    Ok(ids)
}

/// The names that a lookup still has to find: those without a cached id, in order.
pub fn uncached_names(names: &Vec<String>, cached: &Vec<Option<i64>>) -> (r: Vec<String>)
    requires
        names.len() == cached.len(),
    ensures
        strings_view(r@) == uncached_view(names@, cached@),
{
    let mut r: Vec<String> = Vec::new();
    let mut i: usize = 0;
    while i < names.len()
        invariant
            i <= names.len(),
            names.len() == cached.len(),
            strings_view(r@) == uncached_view(names@.take(i as int), cached@.take(i as int)),
        decreases names.len() - i,
    {
        assert(names@.take(i + 1).drop_last() =~= names@.take(i as int));
        assert(cached@.take(i + 1).drop_last() =~= cached@.take(i as int));
        if cached[i].is_none() {
            let ghost prev = r@;
            r.push(names[i].clone());
            proof {
                assert forall|j: int| 0 <= j < prev.len() implies strings_view(r@)[j]
                    == strings_view(prev)[j] by {
                    assert(r@[j] == prev[j]);
                }
                assert(strings_view(r@) =~= strings_view(prev).push(
                    names@[i as int]@,
                ));
            }
        }
        i = i + 1;
    }
    assert(names@.take(names.len() as int) =~= names@);
    assert(cached@.take(names.len() as int) =~= cached@);
    r
}

/// The names, in order, whose cached id is missing.
pub open spec fn uncached_view(names: Seq<String>, cached: Seq<Option<i64>>) -> Seq<Seq<char>>
    decreases names.len(),
{
    if names.len() == 0 || cached.len() == 0 {
        Seq::empty()
    } else {
        let rest = uncached_view(names.drop_last(), cached.drop_last());
        if cached.last() is None {
            rest.push(names.last()@)
        } else {
            rest
        }
    }
}


/// The index of the last entity of `found` called `name`, if any.
pub open spec fn last_entity_index(found: Seq<Entity>, name: Seq<char>) -> Option<int>
    decreases found.len(),
{
    if found.len() == 0 {
        None
    } else if found.last().name@ == name {
        Some(found.len() - 1)
    } else {
        last_entity_index(found.drop_last(), name)
    }
}

/// For the names in order, the index of the last entity found with each name that some
/// entity has, each index once (a repeated name adds nothing).
pub open spec fn ordered_entity_indices(found: Seq<Entity>, names: Seq<Seq<char>>) -> Seq<int>
    decreases names.len(),
{
    if names.len() == 0 {
        Seq::empty()
    } else {
        let p = ordered_entity_indices(found, names.drop_last());
        match last_entity_index(found, names.last()) {
            Some(k) => if p.contains(k) {
                p
            } else {
                p.push(k)
            },
            None => p,
        }
    }
}

/// The index of the last entity of `found` called `name`.
fn last_entity(found: &Vec<Entity>, name: &String) -> (r: Option<usize>)
    ensures
        match r {
            Some(k) => k < found.len() && last_entity_index(found@, name@) == Some(k as int),
            None => last_entity_index(found@, name@) is None,
        },
{
    let mut i: usize = found.len();
    assert(found@.take(i as int) =~= found@);
    while i > 0
        invariant
            i <= found.len(),
            last_entity_index(found@, name@) == last_entity_index(found@.take(i as int), name@),
        decreases i,
    {
        assert(found@.take(i as int).drop_last() =~= found@.take(i - 1));
        assert(found@.take(i as int).last() == found@[i - 1]);
        if found[i - 1].name == *name {
            return Some(i - 1);
        }
        i = i - 1;
    }
    None
}

/// Whether index `k` is among `taken`.
fn holds_index(taken: &Vec<usize>, k: usize) -> (r: bool)
    ensures
        r == taken@.map_values(|x: usize| x as int).contains(k as int),
{
    let ghost v = taken@.map_values(|x: usize| x as int);
    let mut i: usize = 0;
    while i < taken.len()
        invariant
            i <= taken.len(),
            v == taken@.map_values(|x: usize| x as int),
            forall|j: int| 0 <= j < i ==> v[j] != k as int,
        decreases taken.len() - i,
    {
        if taken[i] == k {
            assert(v[i as int] == k as int);
            return true;
        }
        i = i + 1;
    }
    false
}

/// The entities found for `names`, in the order of the names: for each name that some
/// entity was found for, the last one found, once.
pub fn entities_in_name_order(found: &Vec<Entity>, names: &Vec<String>) -> (r: Vec<Entity>)
    ensures
        r.len() == ordered_entity_indices(found@, strings_view(names@)).len(),
        forall|j: int|
            0 <= j < r.len() ==> {
                let k = ordered_entity_indices(found@, strings_view(names@))[j];
                0 <= k < found.len() && (#[trigger] r@[j]).id == found@[k].id && r@[j].name@
                    == found@[k].name@ && r@[j].alias == found@[k].alias
            },
{
    let ghost nv = strings_view(names@);
    let mut taken: Vec<usize> = Vec::new();
    let mut r: Vec<Entity> = Vec::new();
    let mut i: usize = 0;
    while i < names.len()
        invariant
            i <= names.len(),
            nv == strings_view(names@),
            taken@.map_values(|x: usize| x as int) == ordered_entity_indices(found@, nv.take(i as int)),
            r.len() == taken.len(),
            forall|j: int|
                0 <= j < taken.len() ==> taken@[j] < found.len() && (#[trigger] r@[j]).id
                    == found@[taken@[j] as int].id && r@[j].name@ == found@[taken@[j] as int].name@
                    && r@[j].alias == found@[taken@[j] as int].alias,
        decreases names.len() - i,
    {
        assert(nv.take(i + 1).drop_last() =~= nv.take(i as int));
        assert(nv.take(i + 1).last() == names@[i as int]@);
        match last_entity(found, &names[i]) {
            Some(k) => {
                if !holds_index(&taken, k) {
                    let ghost prev = taken@;
                    taken.push(k);
                    r.push(found[k].duplicate());
                    assert(taken@.map_values(|x: usize| x as int) =~= prev.map_values(
                        |x: usize| x as int,
                    ).push(k as int));
                }
            },
            None => {},
        }
        i = i + 1;
    }
    assert(nv.take(names.len() as int) =~= nv);
    proof {
        assert forall|j: int| 0 <= j < r.len() implies ordered_entity_indices(found@, nv)[j]
            == taken@[j] as int by {
            assert(taken@.map_values(|x: usize| x as int)[j] == taken@[j] as int);
        }
    }
    r
}

} // verus!
