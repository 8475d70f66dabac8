use vstd::prelude::*;

use crate::attribute_materialization::{materialized_columns, materialized_columns_text};
use crate::text::strings_view;

verus! {

/// Errors in copying attribute data into the history of a store.
pub enum AttributeMaterializeError {
    Unexpected(String),
}

impl AttributeMaterializeError {
    /// The message of the error, which is empty.
    pub fn to_display_string(&self) -> (r: String)
        ensures
            r@ == Seq::<char>::empty(),
    {
        String::new()
    }
}

/// An attribute store by id and name.
pub struct AttributeStoreRef {
    pub id: i32,
    pub name: String,
}

/// The statement that copies attribute data from `source` into the history of the
/// store: `entity_id`, `timestamp` and the attributes.
pub fn history_insert_statement(attribute_store: &AttributeStoreRef, attribute_names: &Vec<String>, source: &str) -> (r: String)
    ensures
        r@ == "INSERT INTO attribute_history.\""@ + attribute_store.name@ + "\"("@
            + materialized_columns_text(strings_view(attribute_names@)) + ") SELECT "@
            + materialized_columns_text(strings_view(attribute_names@)) + " FROM "@ + source@,
{
    let columns = materialized_columns(attribute_names);
    let mut s = "INSERT INTO attribute_history.\"".to_owned();
    s.append(attribute_store.name.as_str());
    s.append("\"(");
    s.append(columns.as_str());
    s.append(") SELECT ");
    s.append(columns.as_str());
    s.append(" FROM ");
    s.append(source);
    proof {
        reveal_strlit("INSERT INTO attribute_history.\"");
        reveal_strlit("\"(");
        reveal_strlit(") SELECT ");
        reveal_strlit(" FROM ");
    }
    s
}

} // verus!
