use vstd::prelude::*;

use crate::text::{escape_identifier, quote_ident};

use crate::sql::{bare_step, concat, text_step, SqlParamView, SqlStep, SqlStepView};

verus! {

/// A relation between entities, defined by a query that gives pairs of entity ids.
pub struct Relation {
    pub name: String,
    pub query: String,
}

impl View for Relation {
    type V = (Seq<char>, Seq<char>);

    open spec fn view(&self) -> (Seq<char>, Seq<char>) {
        (self.name@, self.query@)
    }
}

/// How a relation is written: `Relation(name)`.
pub open spec fn relation_text(name: Seq<char>) -> Seq<char> {
    "Relation("@ + name + ")"@
}

impl Relation {
    /// A relation equal to this one.
    pub fn duplicate(&self) -> (r: Relation)
        ensures
            r@ == self@,
    {
        Relation { name: self.name.clone(), query: self.query.clone() }
    }

    /// How the relation is written.
    pub fn to_display_string(&self) -> (r: String)
        ensures
            r@ == relation_text(self.name@),
    {
        let mut s = "Relation(".to_owned();
        s.append(self.name.as_str());
        s.append(")");
        proof {
            reveal_strlit("Relation(");
            reveal_strlit(")");
        }
        s
    }
}

/// The statements that create a relation: its table, its defining view, its two
/// indexes, the conversion of the table into a Citus reference table. The relation's
/// name is put between double quotes as it is.
pub open spec fn create_relation_statements_text(name: Seq<char>, query: Seq<char>) -> Seq<
    Seq<char>,
> {
    seq![
        "CREATE TABLE relation.\""@ + name + "\"(source_id integer, target_id integer)"@,
        "CREATE VIEW relation_def.\""@ + name + "\" AS "@ + query,
        "CREATE UNIQUE INDEX ON relation.\""@ + name + "\"(source_id, target_id)"@,
        "CREATE INDEX ON relation.\""@ + name + "\"(target_id)"@,
        "SELECT create_reference_table('relation.\""@ + name + "\"')"@,
    ]
}

/// Builds `a + b + c` as a string.
fn concat_three(a: &str, b: &str, c: &str) -> (r: String)
    ensures
        r@ == a@ + b@ + c@,
{
    let mut s = a.to_owned();
    s.append(b);
    s.append(c);
    s
}

/// The statements that create the relation's table, view, indexes and reference table,
/// in the order in which they run.
pub fn create_relation_statements(relation: &Relation) -> (r: Vec<String>)
    ensures
        r@.len() == 5,
        forall|i: int|
            0 <= i < 5 ==> (#[trigger] r@[i])@ == create_relation_statements_text(
                relation.name@,
                relation.query@,
            )[i],
{
    let name = relation.name.as_str();
    let mut v: Vec<String> = Vec::new();
    v.push(concat_three("CREATE TABLE relation.\"", name, "\"(source_id integer, target_id integer)"));
    v.push(concat_three("CREATE VIEW relation_def.\"", name, "\" AS "));
    v[1].append(relation.query.as_str());
    v.push(concat_three("CREATE UNIQUE INDEX ON relation.\"", name, "\"(source_id, target_id)"));
    v.push(concat_three("CREATE INDEX ON relation.\"", name, "\"(target_id)"));
    v.push(concat_three("SELECT create_reference_table('relation.\"", name, "\"')"));
    proof {
        reveal_strlit("CREATE TABLE relation.\"");
        reveal_strlit("\"(source_id integer, target_id integer)");
        reveal_strlit("CREATE VIEW relation_def.\"");
        reveal_strlit("\" AS ");
        reveal_strlit("CREATE UNIQUE INDEX ON relation.\"");
        reveal_strlit("\"(source_id, target_id)");
        reveal_strlit("CREATE INDEX ON relation.\"");
        reveal_strlit("\"(target_id)");
        reveal_strlit("SELECT create_reference_table('relation.\"");
        reveal_strlit("\"')");
    }
    v
}

/// Creating a relation.
pub struct AddRelation {
    pub relation: Relation,
}

impl AddRelation {
    /// How the change is written: `AddRelation(Relation(name))`.
    pub fn to_display_string(&self) -> (r: String)
        ensures
            r@ == "AddRelation("@ + relation_text(self.relation.name@) + ")"@,
    {
        let mut s = "AddRelation(".to_owned();
        s.append(self.relation.to_display_string().as_str());
        s.append(")");
        proof {
            reveal_strlit("AddRelation(");
            reveal_strlit(")");
        }
        s
    }

    /// What applying the change reports.
    pub fn outcome(&self) -> (r: AddedRelation)
        ensures
            r.relation_name@ == self.relation.name@,
    {
        AddedRelation { relation_name: self.relation.name.clone() }
    }
}

impl From<Relation> for AddRelation {
    fn from(relation: Relation) -> (r: AddRelation) {
        AddRelation { relation }
    }
}

impl vstd::std_specs::convert::FromSpecImpl<Relation> for AddRelation {
    open spec fn obeys_from_spec() -> bool {
        true
    }

    open spec fn from_spec(relation: Relation) -> AddRelation {
        AddRelation { relation }
    }
}

/// The report of a created relation.
pub struct AddedRelation {
    pub relation_name: String,
}

impl AddedRelation {
    /// How the report is written.
    pub fn to_display_string(&self) -> (r: String)
        ensures
            r@ == "Added relation '"@ + self.relation_name@ + "'"@,
    {
        let mut s = "Added relation '".to_owned();
        s.append(self.relation_name.as_str());
        s.append("'");
        proof {
            reveal_strlit("Added relation '");
            reveal_strlit("'");
        }
        s
    }

    /// No change undoes the creation of a relation.
    pub fn revert(&self) -> (r: Option<RemoveRelation>)
        ensures
            r is None,
    {
        None
    }
}

/// Replacing the defining view of a relation.
pub struct UpdateRelation {
    pub relation: Relation,
}

impl UpdateRelation {
    /// How the change is written: `UpdateRelation(Relation(name))`.
    pub fn to_display_string(&self) -> (r: String)
        ensures
            r@ == "UpdateRelation("@ + relation_text(self.relation.name@) + ")"@,
    {
        let mut s = "UpdateRelation(".to_owned();
        s.append(self.relation.to_display_string().as_str());
        s.append(")");
        proof {
            reveal_strlit("UpdateRelation(");
            reveal_strlit(")");
        }
        s
    }

    /// The statement that replaces the view.
    pub fn update_statement(&self) -> (r: String)
        ensures
            r@ == "CREATE OR REPLACE VIEW relation_def."@ + quote_ident(self.relation.name@) + " AS "@
                + self.relation.query@,
    {
        let mut s = "CREATE OR REPLACE VIEW relation_def.".to_owned();
        s.append(escape_identifier(self.relation.name.as_str()).as_str());
        s.append(" AS ");
        s.append(self.relation.query.as_str());
        proof {
            reveal_strlit("CREATE OR REPLACE VIEW relation_def.");
            reveal_strlit(" AS ");
        }
        s
    }

    /// What applying the change reports.
    pub fn outcome(&self) -> (r: UpdatedRelation)
        ensures
            r.relation_name@ == self.relation.name@,
    {
        UpdatedRelation { relation_name: self.relation.name.clone() }
    }
}

impl From<Relation> for UpdateRelation {
    fn from(relation: Relation) -> (r: UpdateRelation) {
        UpdateRelation { relation }
    }
}

impl vstd::std_specs::convert::FromSpecImpl<Relation> for UpdateRelation {
    open spec fn obeys_from_spec() -> bool {
        true
    }

    open spec fn from_spec(relation: Relation) -> UpdateRelation {
        UpdateRelation { relation }
    }
}

/// The report of an updated relation.
pub struct UpdatedRelation {
    pub relation_name: String,
}

impl UpdatedRelation {
    /// How the report is written.
    pub fn to_display_string(&self) -> (r: String)
        ensures
            r@ == "Updated relation "@ + self.relation_name@,
    {
        let mut s = "Updated relation ".to_owned();
        s.append(self.relation_name.as_str());
        proof {
            reveal_strlit("Updated relation ");
        }
        s
    }

    /// No change undoes an update of a relation.
    pub fn revert(&self) -> (r: Option<UpdateRelation>)
        ensures
            r is None,
    {
        None
    }
}

/// Errors in materializing a relation, with the database's message.
pub enum MaterializeRelationError {
    Delete(String),
    Insert(String),
}

impl MaterializeRelationError {
    /// The message of the error.
    pub fn to_display_string(&self) -> (r: String)
        ensures
            r@ == match self {
                MaterializeRelationError::Delete(m) => "Could not delete current relations: "@ + m@,
                MaterializeRelationError::Insert(m) => "Could not insert new relations: "@ + m@,
            },
    {
        proof {
            reveal_strlit("Could not delete current relations: ");
            reveal_strlit("Could not insert new relations: ");
        }
        match self {
            MaterializeRelationError::Delete(m) => {
                let mut s = "Could not delete current relations: ".to_owned();
                s.append(m.as_str());
                s
            },
            MaterializeRelationError::Insert(m) => {
                let mut s = "Could not insert new relations: ".to_owned();
                s.append(m.as_str());
                s
            },
        }
    }
}

/// The counts of a materialization of a relation.
pub struct MaterializeRelationResult {
    pub deleted_count: u64,
    pub inserted_count: u64,
}

/// The statements that materialize a relation: one that empties its table and one that
/// fills it from its defining view.
pub fn materialize_relation_statements(name: &str) -> (r: (String, String))
    ensures
        r.0@ == "DELETE FROM relation."@ + quote_ident(name@),
        r.1@ == "INSERT INTO relation."@ + quote_ident(name@)
            + "(source_id, target_id) SELECT source_id, target_id FROM relation_def."@
            + quote_ident(name@),
{
    let quoted = escape_identifier(name);
    let mut delete = "DELETE FROM relation.".to_owned();
    delete.append(quoted.as_str());
    let mut insert = "INSERT INTO relation.".to_owned();
    insert.append(quoted.as_str());
    insert.append("(source_id, target_id) SELECT source_id, target_id FROM relation_def.");
    insert.append(quoted.as_str());
    proof {
        reveal_strlit("DELETE FROM relation.");
        reveal_strlit("INSERT INTO relation.");
        reveal_strlit("(source_id, target_id) SELECT source_id, target_id FROM relation_def.");
    }
    (delete, insert)
}

/// Errors in creating a relation.
pub enum CreateRelationError {
    Database(String),
}

impl CreateRelationError {
    /// The message of the error.
    pub fn to_display_string(&self) -> (r: String)
        ensures
            r@ == match self {
                CreateRelationError::Database(m) => m@,
            },
    {
        match self {
            CreateRelationError::Database(m) => m.clone(),
        }
    }
}

/// Errors in removing a relation.
pub enum RemoveRelationError {
    Database(String),
    NoSuchRegistration,
}

impl RemoveRelationError {
    /// The message of the error.
    pub fn to_display_string(&self) -> (r: String)
        ensures
            r@ == match self {
                RemoveRelationError::Database(m) => m@,
                RemoveRelationError::NoSuchRegistration => "No such relation registration"@,
            },
    {
        match self {
            RemoveRelationError::Database(m) => m.clone(),
            RemoveRelationError::NoSuchRegistration => "No such relation registration".to_owned(),
        }
    }
}

/// The statements that drop a relation's table and view, if they exist.
pub fn remove_relation_statements(name: &str) -> (r: (String, String))
    ensures
        r.0@ == "DROP TABLE IF EXISTS relation."@ + quote_ident(name@),
        r.1@ == "DROP VIEW IF EXISTS relation_def."@ + quote_ident(name@),
{
    let quoted = escape_identifier(name);
    let mut table = "DROP TABLE IF EXISTS relation.".to_owned();
    table.append(quoted.as_str());
    let mut view = "DROP VIEW IF EXISTS relation_def.".to_owned();
    view.append(quoted.as_str());
    proof {
        reveal_strlit("DROP TABLE IF EXISTS relation.");
        reveal_strlit("DROP VIEW IF EXISTS relation_def.");
    }
    (table, view)
}

/// The outcome of unregistering a relation that deleted `delete_count` registrations:
/// it is refused when nothing was deleted.
pub fn unregistration_outcome(delete_count: u64) -> (r: Result<(), RemoveRelationError>)
    ensures
        (delete_count == 0) == (r matches Err(RemoveRelationError::NoSuchRegistration)),
        delete_count != 0 ==> r is Ok,
{
    if delete_count == 0 {
        Err(RemoveRelationError::NoSuchRegistration)
    } else {
        Ok(())
    }
}

/// Removing a relation, by name.
pub struct RemoveRelation {
    pub relation_name: String,
}

impl RemoveRelation {
    /// How the change is written: `RemoveRelation(name)`.
    pub fn to_display_string(&self) -> (r: String)
        ensures
            r@ == "RemoveRelation("@ + self.relation_name@ + ")"@,
    {
        let mut s = "RemoveRelation(".to_owned();
        s.append(self.relation_name.as_str());
        s.append(")");
        proof {
            reveal_strlit("RemoveRelation(");
            reveal_strlit(")");
        }
        s
    }

    /// What applying the change reports, given the relation as it was loaded before
    /// its removal.
    pub fn outcome(&self, relation: Relation) -> (r: RemovedRelation)
        ensures
            r.relation@ == relation@,
    {
        RemovedRelation { relation }
    }
}

/// The report of a removed relation, with its definition.
pub struct RemovedRelation {
    pub relation: Relation,
}

impl RemovedRelation {
    /// How the report is written.
    pub fn to_display_string(&self) -> (r: String)
        ensures
            r@ == "Removed relation '"@ + self.relation.name@ + "'"@,
    {
        let mut s = "Removed relation '".to_owned();
        s.append(self.relation.name.as_str());
        s.append("'");
        proof {
            reveal_strlit("Removed relation '");
            reveal_strlit("'");
        }
        s
    }

    /// No change undoes the removal of a relation.
    pub fn revert(&self) -> (r: Option<AddRelation>)
        ensures
            r is None,
    {
        None
    }
}

/// The failure texts of the statements that create a relation, in their order.
pub open spec fn creation_failures() -> Seq<Seq<char>> {
    seq![
        "Error creating relation table"@,
        "Error creating relation view"@,
        "Error creating index on relation table"@,
        "Error creating index on relation table"@,
        "Error converting relation table to reference table"@,
    ]
}

/// The statement that registers a relation's type.
pub const REGISTER_RELATION_STATEMENT: &'static str = "SELECT relation_directory.register_type($1)";

/// The statement that unregisters a relation's type.
pub const UNREGISTER_RELATION_STATEMENT: &'static str = "DELETE FROM relation_directory.type WHERE name = $1";

/// The query for the name and view definition of a relation.
pub const RELATION_QUERY: &'static str = "select relname, pg_get_viewdef(ev_class) from pg_rewrite r join pg_class c on c.oid = ev_class join pg_namespace nsp on nsp.oid = c.relnamespace where nspname = 'relation_def' and relname = $1";

/// The views of statements.
pub open spec fn relation_steps_view(steps: Seq<SqlStep>) -> Seq<SqlStepView> {
    steps.map_values(|s: SqlStep| s@)
}

/// The statements that create a relation, in order: its table, its view, its two
/// indexes and its conversion into a reference table (each as
/// `create_relation_statements` writes it), then its registration.
pub open spec fn creation_steps_view(name: Seq<char>, query: Seq<char>) -> Seq<SqlStepView> {
    Seq::new(5, |i: int| (create_relation_statements_text(name, query)[i], Seq::<SqlParamView>::empty(), creation_failures()[i]))
        .push((REGISTER_RELATION_STATEMENT@, seq![SqlParamView::Text(name)], "Error registering relation"@))
}

/// The statements that create a relation, in order.
pub fn relation_creation_steps(relation: &Relation) -> (r: Vec<SqlStep>)
    ensures
        relation_steps_view(r@) == creation_steps_view(relation.name@, relation.query@),
{
    let mut statements = create_relation_statements(relation);
    proof {
        reveal_strlit("Error creating relation table");
        reveal_strlit("Error creating relation view");
        reveal_strlit("Error creating index on relation table");
        reveal_strlit("Error converting relation table to reference table");
        reveal_strlit("Error registering relation");
    }
    let reference = statements.pop().unwrap();
    let second_index = statements.pop().unwrap();
    let first_index = statements.pop().unwrap();
    let view = statements.pop().unwrap();
    let table = statements.pop().unwrap();
    let mut r: Vec<SqlStep> = Vec::new();
    r.push(bare_step(table, "Error creating relation table"));
    r.push(bare_step(view, "Error creating relation view"));
    r.push(bare_step(first_index, "Error creating index on relation table"));
    r.push(bare_step(second_index, "Error creating index on relation table"));
    r.push(bare_step(reference, "Error converting relation table to reference table"));
    r.push(text_step(REGISTER_RELATION_STATEMENT.to_owned(), relation.name.clone(), "Error registering relation"));
    assert(relation_steps_view(r@) =~= creation_steps_view(relation.name@, relation.query@));
    r
}

/// The statements that remove a relation, in order: dropping its table and its view,
/// if they exist, and unregistering it (which must delete a registration, see
/// `unregistration_outcome`).
pub open spec fn removal_steps_view(name: Seq<char>) -> Seq<SqlStepView> {
    seq![
        ("DROP TABLE IF EXISTS relation."@ + quote_ident(name), Seq::<SqlParamView>::empty(), "Error dropping relation table"@),
        ("DROP VIEW IF EXISTS relation_def."@ + quote_ident(name), Seq::<SqlParamView>::empty(), "Error dropping relation view"@),
        (UNREGISTER_RELATION_STATEMENT@, seq![SqlParamView::Text(name)], "Error unregistering relation"@),
    ]
}

/// The statements that remove a relation, in order.
pub fn relation_removal_steps(name: &str) -> (r: Vec<SqlStep>)
    ensures
        relation_steps_view(r@) == removal_steps_view(name@),
{
    let (table, view) = remove_relation_statements(name);
    proof {
        reveal_strlit("Error dropping relation table");
        reveal_strlit("Error dropping relation view");
        reveal_strlit("Error unregistering relation");
    }
    let mut r: Vec<SqlStep> = Vec::new();
    r.push(bare_step(table, "Error dropping relation table"));
    r.push(bare_step(view, "Error dropping relation view"));
    r.push(text_step(UNREGISTER_RELATION_STATEMENT.to_owned(), name.to_owned(), "Error unregistering relation"));
    assert(relation_steps_view(r@) =~= removal_steps_view(name@));
    r
}

/// The message of a relation that does not exist.
pub fn no_such_relation_message(name: &str) -> (r: String)
    ensures
        r@ == "No such relation '"@ + name@ + "'"@,
{
    let mut s = concat("No such relation '", name);
    s.append("'");
    proof {
        reveal_strlit("No such relation '");
        reveal_strlit("'");
    }
    s
}

impl AddRelation {
    /// The message of a failure to apply the change, given the error's message.
    pub fn failure_message(&self, error: &str) -> (r: String)
        ensures
            r@ == "Could not create relation '"@ + self.relation.name@ + "': "@ + error@,
    {
        let mut s = concat("Could not create relation '", self.relation.name.as_str());
        s.append("': ");
        s.append(error);
        proof {
            reveal_strlit("Could not create relation '");
            reveal_strlit("': ");
        }
        s
    }
}

impl UpdateRelation {
    /// The statement that applies the change.
    pub fn apply_step(&self) -> (r: SqlStep)
        ensures
            r@ == ("CREATE OR REPLACE VIEW relation_def."@ + quote_ident(self.relation.name@) + " AS "@ + self.relation.query@,
                Seq::<SqlParamView>::empty(), "Error updating relation view"@),
    {
        proof {
            reveal_strlit("Error updating relation view");
        }
        bare_step(self.update_statement(), "Error updating relation view")
    }
}

impl RemoveRelation {
    /// The message of a failure to apply the change, given the error's message.
    pub fn failure_message(&self, error: &str) -> (r: String)
        ensures
            r@ == "Could not remove relation '"@ + self.relation_name@ + "': "@ + error@,
    {
        let mut s = concat("Could not remove relation '", self.relation_name.as_str());
        s.append("': ");
        s.append(error);
        proof {
            reveal_strlit("Could not remove relation '");
            reveal_strlit("': ");
        }
        s
    }
}

} // verus!
