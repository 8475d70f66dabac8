use vstd::prelude::*;

use crate::error::{Error, RuntimeError};
use crate::text::{
    push_char, decimal, escape_identifier, join, join_seqs, quote_ident, signed_decimal,
    strings_view, i64_to_decimal, u64_to_decimal,
};

verus! {

/// The result of materializing the current-pointer data of an attribute store.
pub struct MaterializeCurrPtrResult {
    pub record_count: u64,
    pub updated_curr_data: String,
    pub attribute_store_name: String,
    pub attribute_store_id: i32,
}

impl MaterializeCurrPtrResult {
    /// How the result is written.
    pub fn to_display_string(&self) -> (r: String)
        ensures
            r@ == "Materialized "@ + decimal(self.record_count as nat) + " curr-ptr records for '"@
                + self.attribute_store_name@ + "'("@ + signed_decimal(self.attribute_store_id as int)
                + ")"@,
    {
        let mut s = "Materialized ".to_owned();
        s.append(u64_to_decimal(self.record_count).as_str());
        s.append(" curr-ptr records for '");
        s.append(self.attribute_store_name.as_str());
        s.append("'(");
        s.append(i64_to_decimal(self.attribute_store_id as i64).as_str());
        s.append(")");
        proof {
            reveal_strlit("Materialized ");
            reveal_strlit(" curr-ptr records for '");
            reveal_strlit("'(");
            reveal_strlit(")");
        }
        s
    }
}

/// Errors in materializing current-pointer data.
pub enum MaterializeCurrPtrError {
    Unexpected(String),
    NoAttributeStoreWithId(i32),
    NoAttributeStoreWithName(String),
}

/// The message of a current-pointer materialization error.
pub open spec fn curr_ptr_error_text(e: MaterializeCurrPtrError) -> Seq<char> {
    match e {
        MaterializeCurrPtrError::Unexpected(m) => "Unexpected error during curr-ptr materialization: "@
            + m@,
        MaterializeCurrPtrError::NoAttributeStoreWithId(id) => "No attribute store matching Id "@
            + signed_decimal(id as int),
        MaterializeCurrPtrError::NoAttributeStoreWithName(n) => "No attribute store matching name '"@
            + n@ + "'"@,
    }
}

impl MaterializeCurrPtrError {
    /// The message of the error.
    pub fn to_display_string(&self) -> (r: String)
        ensures
            r@ == curr_ptr_error_text(*self),
    {
        proof {
            reveal_strlit("Unexpected error during curr-ptr materialization: ");
            reveal_strlit("No attribute store matching Id ");
            reveal_strlit("No attribute store matching name '");
            reveal_strlit("'");
        }
        match self {
            MaterializeCurrPtrError::Unexpected(m) => {
                let mut s = "Unexpected error during curr-ptr materialization: ".to_owned();
                s.append(m.as_str());
                s
            },
            MaterializeCurrPtrError::NoAttributeStoreWithId(id) => {
                let mut s = "No attribute store matching Id ".to_owned();
                s.append(i64_to_decimal(*id as i64).as_str());
                s
            },
            MaterializeCurrPtrError::NoAttributeStoreWithName(n) => {
                let mut s = "No attribute store matching name '".to_owned();
                s.append(n.as_str());
                s.append("'");
                s
            },
        }
    }

    /// The library error for this one: a runtime error whose message says that the
    /// attribute data could not be compacted.
    pub fn to_error(&self) -> (r: Error)
        ensures
            r matches Error::Runtime(e) && e.msg@ == "Could not compact attribute data: "@
                + curr_ptr_error_text(*self),
    {
        let mut s = "Could not compact attribute data: ".to_owned();
        s.append(self.to_display_string().as_str());
        proof {
            reveal_strlit("Could not compact attribute data: ");
        }
        Error::Runtime(RuntimeError::from_msg(s))
    }
}

/// How the current data of an attribute store is kept.
#[derive(Clone, Copy, Debug, PartialEq, Eq, Structural)]
pub enum CurrDataStorageMethod {
    View,
    MaterializedView,
    Table,
}

/// The storage method that a PostgreSQL relation kind (as in `pg_class.relkind`)
/// stands for, if it stands for one.
pub open spec fn storage_method_of(kind: i8) -> Option<CurrDataStorageMethod> {
    if kind == 109 {
        Some(CurrDataStorageMethod::MaterializedView)
    } else if kind == 114 {
        Some(CurrDataStorageMethod::Table)
    } else if kind == 118 {
        Some(CurrDataStorageMethod::View)
    } else {
        None
    }
}

/// The storage method for a relation kind: `m` for a materialized view, `r` for a
/// table and `v` for a view. Another kind is refused with an unexpected error that
/// names it.
pub fn storage_method_from_kind(kind: i8) -> (r: Result<CurrDataStorageMethod, MaterializeCurrPtrError>)
    ensures
        match r {
            Ok(m) => storage_method_of(kind) == Some(m),
            Err(e) => storage_method_of(kind) is None && (e matches MaterializeCurrPtrError::Unexpected(
                msg,
            ) && msg@ == "Unexpected relation type: '"@ + seq![(kind as u8) as char] + "'"@),
        },
{
    if kind == 109 {
        Ok(CurrDataStorageMethod::MaterializedView)
    } else if kind == 114 {
        Ok(CurrDataStorageMethod::Table)
    } else if kind == 118 {
        Ok(CurrDataStorageMethod::View)
    } else {
        let c = kind as u8 as char;
        let mut msg = "Unexpected relation type: '".to_owned();
        let mut one = String::new();
        push_char(&mut one, c);
        msg.append(one.as_str());
        msg.append("'");
        proof {
            reveal_strlit("Unexpected relation type: '");
            reveal_strlit("'");
        }
        Err(MaterializeCurrPtrError::Unexpected(msg))
    }
}

/// The label of what was updated for a storage method.
pub open spec fn updated_label(method: CurrDataStorageMethod) -> Seq<char> {
    match method {
        CurrDataStorageMethod::View => "view"@,
        CurrDataStorageMethod::Table => "table"@,
        CurrDataStorageMethod::MaterializedView => "materialized view"@,
    }
}

/// The label of what a materialization updates for a storage method: nothing is done
/// for a view, a table is filled again and a materialized view is refreshed.
pub fn updated_curr_data_label(method: CurrDataStorageMethod) -> (r: String)
    ensures
        r@ == updated_label(method),
{
    proof {
        reveal_strlit("view");
        reveal_strlit("table");
        reveal_strlit("materialized view");
    }
    match method {
        CurrDataStorageMethod::View => "view".to_owned(),
        CurrDataStorageMethod::Table => "table".to_owned(),
        CurrDataStorageMethod::MaterializedView => "materialized view".to_owned(),
    }
}

/// The result of a materialization that counted `record_count` records, which the
/// database reports as a signed number that is not negative.
pub fn curr_ptr_result(
    record_count: i32,
    method: CurrDataStorageMethod,
    attribute_store_name: &str,
    attribute_store_id: i32,
) -> (r: MaterializeCurrPtrResult)
    requires
        record_count >= 0,
    ensures
        r.record_count == record_count,
        r.updated_curr_data@ == updated_label(method),
        r.attribute_store_name@ == attribute_store_name@,
        r.attribute_store_id == attribute_store_id,
{
    MaterializeCurrPtrResult {
        record_count: record_count as u64,
        updated_curr_data: updated_curr_data_label(method),
        attribute_store_name: attribute_store_name.to_owned(),
        attribute_store_id,
    }
}

/// The columns of a current-data table that are not attributes, in their order.
pub open spec fn curr_fixed_columns() -> Seq<Seq<char>> {
    seq!["id"@, "first_appearance"@, "modified"@, "hash"@, "entity_id"@, "end"@]
}

/// Each column name quoted.
pub open spec fn quoted_columns(columns: Seq<Seq<char>>) -> Seq<Seq<char>> {
    columns.map_values(|c: Seq<char>| quote_ident(c))
}

/// Each column name quoted and taken from the history table.
pub open spec fn history_columns(columns: Seq<Seq<char>>) -> Seq<Seq<char>> {
    columns.map_values(|c: Seq<char>| "history."@ + quote_ident(c))
}

/// The statement that fills the current-data table of a store from its history and
/// current pointers.
pub open spec fn update_curr_insert_text(store: Seq<char>, attributes: Seq<Seq<char>>) -> Seq<char> {
    let columns = curr_fixed_columns() + attributes;
    "INSERT INTO attribute.\""@ + store + "\"("@ + join_seqs(quoted_columns(columns), ","@)
        + ") SELECT "@ + join_seqs(history_columns(columns), ","@) + " FROM attribute_history.\""@
        + store + "\" history JOIN attribute_history.\""@ + store
        + "_curr_ptr\" curr_ptr ON history.id = curr_ptr.id"@
}

/// The statements that fill the current-data table of a store again: one that empties
/// it and one that copies the current rows of the history into it.
pub fn update_curr_table_statements(store: &str, attribute_names: &Vec<String>) -> (r: (String, String))
    ensures
        r.0@ == "TRUNCATE TABLE attribute.\""@ + store@ + "\""@,
        r.1@ == update_curr_insert_text(store@, strings_view(attribute_names@)),
{
    let mut columns: Vec<String> = Vec::new();
    columns.push("id".to_owned());
    columns.push("first_appearance".to_owned());
    columns.push("modified".to_owned());
    columns.push("hash".to_owned());
    columns.push("entity_id".to_owned());
    columns.push("end".to_owned());
    proof {
        reveal_strlit("id");
        reveal_strlit("first_appearance");
        reveal_strlit("modified");
        reveal_strlit("hash");
        reveal_strlit("entity_id");
        reveal_strlit("end");
        assert(strings_view(columns@) =~= curr_fixed_columns());
    }
    let ghost all = curr_fixed_columns() + strings_view(attribute_names@);
    let mut i: usize = 0;
    while i < attribute_names.len()
        invariant
            i <= attribute_names.len(),
            all == curr_fixed_columns() + strings_view(attribute_names@),
            columns.len() == 6 + i,
            strings_view(columns@) == curr_fixed_columns() + strings_view(attribute_names@).take(
                i as int,
            ),
        decreases attribute_names.len() - i,
    {
        let ghost prev = columns@;
        columns.push(attribute_names[i].clone());
        proof {
            assert forall|j: int| 0 <= j < prev.len() implies strings_view(columns@)[j]
                == strings_view(prev)[j] by {
                assert(columns@[j] == prev[j]);
            }
            assert(strings_view(columns@) =~= strings_view(prev).push(attribute_names@[i as int]@));
            assert(strings_view(attribute_names@).take(i + 1) =~= strings_view(attribute_names@).take(
                i as int,
            ).push(attribute_names@[i as int]@));
            assert(strings_view(columns@) =~= curr_fixed_columns() + strings_view(
                attribute_names@,
            ).take(i + 1));
        }
        i = i + 1;
    }
    assert(strings_view(attribute_names@).take(attribute_names.len() as int) =~= strings_view(
        attribute_names@,
    ));
    let mut dest: Vec<String> = Vec::new();
    let mut src: Vec<String> = Vec::new();
    let mut i: usize = 0;
    while i < columns.len()
        invariant
            i <= columns.len(),
            strings_view(columns@) == all,
            dest.len() == i,
            src.len() == i,
            strings_view(dest@) == quoted_columns(all).take(i as int),
            strings_view(src@) == history_columns(all).take(i as int),
        decreases columns.len() - i,
    {
        let q = escape_identifier(columns[i].as_str());
        let mut h = "history.".to_owned();
        h.append(q.as_str());
        proof {
            reveal_strlit("history.");
        }
        let ghost pd = dest@;
        let ghost ps = src@;
        dest.push(q);
        src.push(h);
        proof {
            assert forall|j: int| 0 <= j < i + 1 implies strings_view(dest@)[j] == quoted_columns(
                all,
            ).take(i + 1)[j] by {
                if j < i {
                    assert(dest@[j] == pd[j]);
                    assert(strings_view(pd)[j] == quoted_columns(all).take(i as int)[j]);
                }
            }
            assert forall|j: int| 0 <= j < i + 1 implies strings_view(src@)[j] == history_columns(
                all,
            ).take(i + 1)[j] by {
                if j < i {
                    assert(src@[j] == ps[j]);
                    assert(strings_view(ps)[j] == history_columns(all).take(i as int)[j]);
                }
            }
            assert(strings_view(dest@) =~= quoted_columns(all).take(i + 1));
            assert(strings_view(src@) =~= history_columns(all).take(i + 1));
        }
        i = i + 1;
    }
    assert(quoted_columns(all).take(columns.len() as int) =~= quoted_columns(all));
    assert(history_columns(all).take(columns.len() as int) =~= history_columns(all));
    let mut truncate = "TRUNCATE TABLE attribute.\"".to_owned();
    truncate.append(store);
    truncate.append("\"");
    let mut insert = "INSERT INTO attribute.\"".to_owned();
    insert.append(store);
    insert.append("\"(");
    insert.append(join(&dest, ",").as_str());
    insert.append(") SELECT ");
    insert.append(join(&src, ",").as_str());
    insert.append(" FROM attribute_history.\"");
    insert.append(store);
    insert.append("\" history JOIN attribute_history.\"");
    insert.append(store);
    insert.append("_curr_ptr\" curr_ptr ON history.id = curr_ptr.id");
    proof {
        reveal_strlit("TRUNCATE TABLE attribute.\"");
        reveal_strlit("\"");
        reveal_strlit("INSERT INTO attribute.\"");
        reveal_strlit("\"(");
        reveal_strlit(",");
        reveal_strlit(") SELECT ");
        reveal_strlit(" FROM attribute_history.\"");
        reveal_strlit("\" history JOIN attribute_history.\"");
        reveal_strlit("_curr_ptr\" curr_ptr ON history.id = curr_ptr.id");
    }
    (truncate, insert)
}

/// The statement that refreshes the materialized view of a store's current data.
pub fn refresh_materialized_view_statement(store: &str) -> (r: String)
    ensures
        r@ == "REFRESH MATERIALIZED VIEW attribute.\""@ + store@ + "\""@,
{
    let mut s = "REFRESH MATERIALIZED VIEW attribute.\"".to_owned();
    s.append(store);
    s.append("\"");
    proof {
        reveal_strlit("REFRESH MATERIALIZED VIEW attribute.\"");
        reveal_strlit("\"");
    }
    s
}

} // verus!
