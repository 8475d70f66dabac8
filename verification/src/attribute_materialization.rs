use vstd::prelude::*;

use crate::curr_ptr::{curr_ptr_error_text, MaterializeCurrPtrError, MaterializeCurrPtrResult};
use crate::text::{
    escape_identifier, join, join_seqs, quote_ident, signed_decimal, strings_view, i64_to_decimal,
};

verus! {

/// The query for the id of an attribute store by name.
pub const ATTRIBUTE_STORE_ID_QUERY: &'static str = "SELECT id FROM attribute_directory.attribute_store ast WHERE ast::text = $1";

/// The query for the name of an attribute store by id.
pub const ATTRIBUTE_STORE_NAME_QUERY: &'static str = "SELECT ast::text FROM attribute_directory.attribute_store ast WHERE id = $1";

/// The query for the attribute names of an attribute store by id.
pub const ATTRIBUTE_NAMES_QUERY: &'static str = "SELECT name FROM attribute_directory.attribute WHERE attribute_store_id = $1";

/// The statement that marks an attribute store (by name) modified.
pub const MARK_STORE_MODIFIED_STATEMENT: &'static str = "SELECT attribute_directory.mark_modified(ast.id) FROM attribute_directory.attribute_store ast WHERE ast::text = $1";

/// The attribute store that an attribute materialization fills.
pub struct AttributeMaterializationTarget {
    pub data_source: String,
    pub entity_type: String,
}

impl View for AttributeMaterializationTarget {
    type V = (Seq<char>, Seq<char>);

    open spec fn view(&self) -> (Seq<char>, Seq<char>) {
        (self.data_source@, self.entity_type@)
    }
}

/// How a target is written: `data_source_entity_type`, the name of its store.
pub open spec fn target_text(t: (Seq<char>, Seq<char>)) -> Seq<char> {
    t.0 + "_"@ + t.1
}

impl AttributeMaterializationTarget {
    /// How the target is written.
    pub fn to_display_string(&self) -> (r: String)
        ensures
            r@ == target_text(self@),
    {
        let mut s = self.data_source.clone();
        s.append("_");
        s.append(self.entity_type.as_str());
        proof {
            reveal_strlit("_");
        }
        s
    }

    /// A target equal to this one.
    pub fn duplicate(&self) -> (r: AttributeMaterializationTarget)
        ensures
            r@ == self@,
    {
        AttributeMaterializationTarget {
            data_source: self.data_source.clone(),
            entity_type: self.entity_type.clone(),
        }
    }
}

/// A materialization that fills an attribute store from a query.
pub struct AttributeMaterialization {
    pub attribute_store: AttributeMaterializationTarget,
    pub query: String,
}

impl View for AttributeMaterialization {
    type V = ((Seq<char>, Seq<char>), Seq<char>);

    open spec fn view(&self) -> ((Seq<char>, Seq<char>), Seq<char>) {
        (self.attribute_store@, self.query@)
    }
}

/// The name of the view of an attribute materialization: `_` and its target.
pub open spec fn attribute_view_name(t: (Seq<char>, Seq<char>)) -> Seq<char> {
    "_"@ + target_text(t)
}

/// How an attribute materialization is written: `AttributeMaterialization('target')`.
pub open spec fn attribute_materialization_text(t: (Seq<char>, Seq<char>)) -> Seq<char> {
    "AttributeMaterialization('"@ + target_text(t) + "')"@
}

/// The name of the view of the attribute materialization into `target_attribute_store`.
pub fn attribute_materialization_view_name(target_attribute_store: &AttributeMaterializationTarget) -> (r: String)
    ensures
        r@ == attribute_view_name(target_attribute_store@),
{
    let mut s = "_".to_owned();
    s.append(target_attribute_store.to_display_string().as_str());
    proof {
        reveal_strlit("_");
    }
    s
}

/// The columns that an attribute materialization copies: `entity_id`, `timestamp` and
/// the attributes, each quoted, joined with commas.
pub open spec fn materialized_columns_text(attributes: Seq<Seq<char>>) -> Seq<char> {
    join_seqs(
        (seq!["entity_id"@, "timestamp"@] + attributes).map_values(|c: Seq<char>| quote_ident(c)),
        ","@,
    )
}

/// The statements that materialize attribute data into the store called `store` from
/// the view `view`: emptying the staging table, filling it from the view, and copying
/// it into the history.
pub open spec fn materialize_statements_text(
    store: Seq<char>,
    attributes: Seq<Seq<char>>,
    view: Seq<char>,
) -> (Seq<char>, Seq<char>, Seq<char>) {
    let columns = materialized_columns_text(attributes);
    (
        "TRUNCATE TABLE attribute_staging.\""@ + store + "\""@,
        "INSERT INTO attribute_staging.\""@ + store + "\"("@ + columns + ") SELECT "@ + columns
            + " FROM attribute.\""@ + view + "\""@,
        "INSERT INTO attribute_history.\""@ + store + "\"("@ + columns + ") SELECT "@ + columns
            + " FROM attribute_staging.\""@ + store + "\""@,
    )
}

/// The columns that a materialization copies, quoted and joined.
pub fn materialized_columns(attribute_names: &Vec<String>) -> (r: String)
    ensures
        r@ == materialized_columns_text(strings_view(attribute_names@)),
{
    let ghost all = seq!["entity_id"@, "timestamp"@] + strings_view(attribute_names@);
    let ghost quoted = all.map_values(|c: Seq<char>| quote_ident(c));
    let mut parts: Vec<String> = Vec::new();
    parts.push(escape_identifier("entity_id"));
    parts.push(escape_identifier("timestamp"));
    proof {
        reveal_strlit("entity_id");
        reveal_strlit("timestamp");
        assert(strings_view(parts@) =~= quoted.take(2));
    }
    let mut i: usize = 0;
    while i < attribute_names.len()
        invariant
            i <= attribute_names.len(),
            all == seq!["entity_id"@, "timestamp"@] + strings_view(attribute_names@),
            quoted == all.map_values(|c: Seq<char>| quote_ident(c)),
            parts.len() == i + 2,
            strings_view(parts@) == quoted.take(i + 2),
        decreases attribute_names.len() - i,
    {
        let ghost prev = parts@;
        parts.push(escape_identifier(attribute_names[i].as_str()));
        proof {
            assert(all[i + 2] == attribute_names@[i as int]@);
            assert forall|j: int| 0 <= j < i + 3 implies strings_view(parts@)[j] == quoted.take(
                i + 3,
            )[j] by {
                if j < i + 2 {
                    assert(parts@[j] == prev[j]);
                    assert(strings_view(prev)[j] == quoted.take(i + 2)[j]);
                }
            }
            assert(strings_view(parts@) =~= quoted.take(i + 3));
        }
        i = i + 1;
    }
    assert(quoted.take(attribute_names.len() + 2) =~= quoted);
    proof {
        reveal_strlit(",");
    }
    join(&parts, ",")
}

/// The statements that materialize attribute data into the store called `store`, with
/// the attributes `attribute_names`, from the view called `view`.
pub fn materialize_attribute_statements(store: &str, attribute_names: &Vec<String>, view: &str) -> (r: (
    String,
    String,
    String,
))
    ensures
        (r.0@, r.1@, r.2@) == materialize_statements_text(store@, strings_view(attribute_names@), view@),
{
    let columns = materialized_columns(attribute_names);
    let mut truncate = "TRUNCATE TABLE attribute_staging.\"".to_owned();
    truncate.append(store);
    truncate.append("\"");
    let mut stage = "INSERT INTO attribute_staging.\"".to_owned();
    stage.append(store);
    stage.append("\"(");
    stage.append(columns.as_str());
    stage.append(") SELECT ");
    stage.append(columns.as_str());
    stage.append(" FROM attribute.\"");
    stage.append(view);
    stage.append("\"");
    let mut history = "INSERT INTO attribute_history.\"".to_owned();
    history.append(store);
    history.append("\"(");
    history.append(columns.as_str());
    history.append(") SELECT ");
    history.append(columns.as_str());
    history.append(" FROM attribute_staging.\"");
    history.append(store);
    history.append("\"");
    proof {
        reveal_strlit("TRUNCATE TABLE attribute_staging.\"");
        reveal_strlit("\"");
        reveal_strlit("INSERT INTO attribute_staging.\"");
        reveal_strlit("\"(");
        reveal_strlit(") SELECT ");
        reveal_strlit(" FROM attribute.\"");
        reveal_strlit("INSERT INTO attribute_history.\"");
        reveal_strlit(" FROM attribute_staging.\"");
    }
    (truncate, stage, history)
}

impl AttributeMaterialization {
    /// The name of the materialization's view.
    pub fn view_name(&self) -> (r: String)
        ensures
            r@ == attribute_view_name(self.attribute_store@),
    {
        attribute_materialization_view_name(&self.attribute_store)
    }

    /// A materialization equal to this one.
    pub fn duplicate(&self) -> (r: AttributeMaterialization)
        ensures
            r@ == self@,
    {
        AttributeMaterialization { attribute_store: self.attribute_store.duplicate(), query: self.query.clone() }
    }

    /// How the materialization is written.
    pub fn to_display_string(&self) -> (r: String)
        ensures
            r@ == attribute_materialization_text(self.attribute_store@),
    {
        let mut s = "AttributeMaterialization('".to_owned();
        s.append(self.attribute_store.to_display_string().as_str());
        s.append("')");
        proof {
            reveal_strlit("AttributeMaterialization('");
            reveal_strlit("')");
        }
        s
    }

    /// The statement that creates the materialization's view in schema `attribute`.
    pub fn create_view_statement(&self) -> (r: String)
        ensures
            r@ == "CREATE VIEW attribute."@ + quote_ident(attribute_view_name(self.attribute_store@))
                + " AS "@ + self.query@,
    {
        let mut s = "CREATE VIEW attribute.".to_owned();
        s.append(escape_identifier(self.view_name().as_str()).as_str());
        s.append(" AS ");
        s.append(self.query.as_str());
        proof {
            reveal_strlit("CREATE VIEW attribute.");
            reveal_strlit(" AS ");
        }
        s
    }

    /// The qualified name of the materialization's view, as its definition records it.
    pub fn source_view(&self) -> (r: String)
        ensures
            r@ == "attribute."@ + quote_ident(attribute_view_name(self.attribute_store@)),
    {
        let mut s = "attribute.".to_owned();
        s.append(escape_identifier(self.view_name().as_str()).as_str());
        proof {
            reveal_strlit("attribute.");
        }
        s
    }
}

/// Adding an attribute materialization.
pub struct AddAttributeMaterialization {
    pub attribute_materialization: AttributeMaterialization,
}

impl AddAttributeMaterialization {
    /// How the change is written: `AddAttributeMaterialization(...)` around the
    /// materialization.
    pub fn to_display_string(&self) -> (r: String)
        ensures
            r@ == "AddAttributeMaterialization("@ + attribute_materialization_text(
                self.attribute_materialization.attribute_store@,
            ) + ")"@,
    {
        let mut s = "AddAttributeMaterialization(".to_owned();
        s.append(self.attribute_materialization.to_display_string().as_str());
        s.append(")");
        proof {
            reveal_strlit("AddAttributeMaterialization(");
            reveal_strlit(")");
        }
        s
    }
}

impl From<AttributeMaterialization> for AddAttributeMaterialization {
    fn from(attribute_materialization: AttributeMaterialization) -> (r: AddAttributeMaterialization) {
        AddAttributeMaterialization { attribute_materialization }
    }
}

impl vstd::std_specs::convert::FromSpecImpl<AttributeMaterialization> for AddAttributeMaterialization {
    open spec fn obeys_from_spec() -> bool {
        true
    }

    open spec fn from_spec(attribute_materialization: AttributeMaterialization) -> AddAttributeMaterialization {
        AddAttributeMaterialization { attribute_materialization }
    }
}

/// Errors in materializing attribute data.
pub enum AttributeMaterializeError {
    Unexpected(String),
    CurrPtrMaterialization(MaterializeCurrPtrError),
}

impl AttributeMaterializeError {
    /// The message of the error.
    pub fn to_display_string(&self) -> (r: String)
        ensures
            r@ == match self {
                AttributeMaterializeError::Unexpected(m) => "Unexpected error: "@ + m@,
                AttributeMaterializeError::CurrPtrMaterialization(e) => "Could not materialize curr ptr data: "@
                    + curr_ptr_error_text(*e),
            },
    {
        proof {
            reveal_strlit("Unexpected error: ");
            reveal_strlit("Could not materialize curr ptr data: ");
        }
        match self {
            AttributeMaterializeError::Unexpected(m) => {
                let mut s = "Unexpected error: ".to_owned();
                s.append(m.as_str());
                s
            },
            AttributeMaterializeError::CurrPtrMaterialization(e) => {
                let mut s = "Could not materialize curr ptr data: ".to_owned();
                s.append(e.to_display_string().as_str());
                s
            },
        }
    }
}

impl From<MaterializeCurrPtrError> for AttributeMaterializeError {
    fn from(e: MaterializeCurrPtrError) -> (r: AttributeMaterializeError) {
        AttributeMaterializeError::CurrPtrMaterialization(e)
    }
}

impl vstd::std_specs::convert::FromSpecImpl<MaterializeCurrPtrError> for AttributeMaterializeError {
    open spec fn obeys_from_spec() -> bool {
        true
    }

    open spec fn from_spec(e: MaterializeCurrPtrError) -> AttributeMaterializeError {
        AttributeMaterializeError::CurrPtrMaterialization(e)
    }
}

/// Errors in finding an attribute store.
pub enum AttributeStoreRefError {
    Unexpected(String),
    NoAttributeStoreWithName(String),
    NoAttributeStoreWithId(i32),
}

impl AttributeStoreRefError {
    /// The message of the error.
    pub fn to_display_string(&self) -> (r: String)
        ensures
            r@ == match self {
                AttributeStoreRefError::Unexpected(m) => "Unexpected error: "@ + m@,
                AttributeStoreRefError::NoAttributeStoreWithName(n) => "No attribute store matching name '"@
                    + n@ + "'"@,
                AttributeStoreRefError::NoAttributeStoreWithId(id) => "No attribute store matching id '"@
                    + signed_decimal(*id as int) + "'"@,
            },
    {
        proof {
            reveal_strlit("Unexpected error: ");
            reveal_strlit("No attribute store matching name '");
            reveal_strlit("No attribute store matching id '");
            reveal_strlit("'");
        }
        match self {
            AttributeStoreRefError::Unexpected(m) => {
                let mut s = "Unexpected error: ".to_owned();
                s.append(m.as_str());
                s
            },
            AttributeStoreRefError::NoAttributeStoreWithName(n) => {
                let mut s = "No attribute store matching name '".to_owned();
                s.append(n.as_str());
                s.append("'");
                s
            },
            AttributeStoreRefError::NoAttributeStoreWithId(id) => {
                let mut s = "No attribute store matching id '".to_owned();
                s.append(i64_to_decimal(*id as i64).as_str());
                s.append("'");
                s
            },
        }
    }
}

/// An attribute store as the database knows it: by id and name.
pub struct AttributeStoreRef {
    pub id: i32,
    pub name: String,
}

impl AttributeStoreRef {
    /// How the reference is written: `'name'(id)`.
    pub fn to_display_string(&self) -> (r: String)
        ensures
            r@ == "'"@ + self.name@ + "'("@ + signed_decimal(self.id as int) + ")"@,
    {
        let mut s = "'".to_owned();
        s.append(self.name.as_str());
        s.append("'(");
        s.append(i64_to_decimal(self.id as i64).as_str());
        s.append(")");
        proof {
            reveal_strlit("'");
            reveal_strlit("'(");
            reveal_strlit(")");
        }
        s
    }
}

/// The result of materializing attribute data.
pub struct MaterializeAttributeResult {
    pub staged_record_count: u64,
    pub materialized_record_count: u64,
    pub materialized_curr_ptr: MaterializeCurrPtrResult,
}

} // verus!
