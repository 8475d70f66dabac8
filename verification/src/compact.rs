use vstd::prelude::*;

use crate::error::{Error, RuntimeError};
use crate::text::{
    decimal, escape_identifier, i64_to_decimal, quote_ident, signed_decimal, u64_to_decimal,
};

verus! {

/// The text of a compacting statement before the name of the history table.
pub const COMPACT_INFO_HEAD: &'static str = "\nINSERT INTO compact_info(id, first_id, last_id, timestamp, modified)\nSELECT\n    id, first_id, last_id, timestamp, modified\nFROM (\n    SELECT\n        id,\n        first_value(id) OVER (PARTITION BY entity_id, run ORDER BY timestamp ASC) AS first_id,\n        first_value(id) OVER (PARTITION BY entity_id, run ORDER BY timestamp DESC) AS last_id,\n        \"timestamp\",\n        modified,\n        count(*) OVER (PARTITION BY entity_id, run) AS run_length\n    FROM (\n        SELECT\n            id,\n            entity_id,\n            \"timestamp\",\n            first_appearance,\n            modified,\n            sum(change) OVER w2 AS run\n        FROM (\n            SELECT\n                id,\n                entity_id,\n                \"timestamp\",\n                first_appearance,\n                modified,\n                CASE\n                    WHEN hash <> lag(hash) OVER w THEN 1\n                    ELSE 0\n                END AS change\n            FROM attribute_history.\"";

/// The text of the compacting statement after the history table, with a limit.
pub const COMPACT_INFO_TAIL_LIMITED: &'static str = "\"\n            WINDOW w AS (PARTITION BY entity_id ORDER BY \"timestamp\")\n        ) t\n        WINDOW w2 AS (PARTITION BY entity_id ORDER BY \"timestamp\")\n        LIMIT $1\n    ) runs\n) to_compact WHERE run_length > 1\n";

/// The text of the compacting statement after the history table, without a limit.
pub const COMPACT_INFO_TAIL: &'static str = "\"\n            WINDOW w AS (PARTITION BY entity_id ORDER BY \"timestamp\")\n        ) t\n        WINDOW w2 AS (PARTITION BY entity_id ORDER BY \"timestamp\")\n    ) runs\n) to_compact WHERE run_length > 1\n";

/// The statement that creates the temporary table of runs to compact.
pub const CREATE_COMPACT_INFO: &'static str = "\nCREATE TEMP TABLE compact_info (\n    id integer,\n    first_id integer,\n    last_id integer,\n    timestamp timestamptz,\n    modified timestamptz\n) ON COMMIT DROP";

/// The statement that marks an attribute store (its first parameter) modified now.
pub const MARK_MODIFIED: &'static str = "\nINSERT INTO attribute_directory.attribute_store_modified (attribute_store_id, modified)\nVALUES ($1, now())\nON CONFLICT (attribute_store_id) DO UPDATE\nSET modified = EXCLUDED.modified\nRETURNING attribute_store_modified";

/// The statement that marks an attribute store (its first parameter) compacted up to
/// its last modification.
pub const MARK_COMPACTED: &'static str = "\nINSERT INTO attribute_directory.attribute_store_compacted (attribute_store_id, compacted)\nSELECT attribute_store_id, modified FROM attribute_directory.attribute_store_modified WHERE attribute_store_id = $1\nON CONFLICT (attribute_store_id) DO UPDATE SET compacted = EXCLUDED.compacted";

/// The text of the history update before the table name.
pub const UPDATE_HISTORY_HEAD: &'static str = "\nUPDATE attribute_history.";

/// The text of the history update after the table name.
pub const UPDATE_HISTORY_TAIL: &'static str = " history\nSET modified = compact_info.modified, \"end\" = compact_info.timestamp\nFROM compact_info\nWHERE compact_info.first_id = history.id AND compact_info.id = compact_info.last_id";

/// The text of the history delete before the table name.
pub const DELETE_HISTORY_HEAD: &'static str = "\nDELETE FROM attribute_history.";

/// The text of the history delete after the table name.
pub const DELETE_HISTORY_TAIL: &'static str = " history\nUSING compact_info\nWHERE compact_info.id = history.id\nAND compact_info.id <> compact_info.first_id";

/// The statement that collects the runs of unchanged attribute records of the store
/// called `store` into the temporary table; with a limit, only the first records (as
/// many as its first parameter) are looked at.
pub fn compact_info_statement(store: &str, limited: bool) -> (r: String)
    ensures
        r@ == COMPACT_INFO_HEAD@ + store@ + (if limited {
            COMPACT_INFO_TAIL_LIMITED@
        } else {
            COMPACT_INFO_TAIL@
        }),
{
    let mut s = COMPACT_INFO_HEAD.to_owned();
    s.append(store);
    if limited {
        s.append(COMPACT_INFO_TAIL_LIMITED);
    } else {
        s.append(COMPACT_INFO_TAIL);
    }
    s
}

/// The statement that extends the first record of each run over the run.
pub fn update_history_statement(store: &str) -> (r: String)
    ensures
        r@ == UPDATE_HISTORY_HEAD@ + quote_ident(store@) + UPDATE_HISTORY_TAIL@,
{
    let mut s = UPDATE_HISTORY_HEAD.to_owned();
    s.append(escape_identifier(store).as_str());
    s.append(UPDATE_HISTORY_TAIL);
    s
}

/// The statement that deletes the records of each run but the first.
pub fn delete_history_statement(store: &str) -> (r: String)
    ensures
        r@ == DELETE_HISTORY_HEAD@ + quote_ident(store@) + DELETE_HISTORY_TAIL@,
{
    let mut s = DELETE_HISTORY_HEAD.to_owned();
    s.append(escape_identifier(store).as_str());
    s.append(DELETE_HISTORY_TAIL);
    s
}

/// What follows the compaction of a store that updated `updated` and deleted `deleted`
/// records: whether to mark the store modified (when any record changed) and whether to
/// mark it compacted (only when no limit was set, so that everything was compacted).
pub fn compact_followups(updated: u64, deleted: u64, limit: Option<usize>) -> (r: (bool, bool))
    ensures
        r.0 == (updated > 0 || deleted > 0),
        r.1 == limit is None,
{
    (updated > 0 || deleted > 0, limit.is_none())
}

/// The result of compacting an attribute store.
pub struct CompactResult {
    pub record_count: u64,
    pub attribute_store_name: String,
    pub attribute_store_id: i32,
}

impl CompactResult {
    /// How the result is written.
    pub fn to_display_string(&self) -> (r: String)
        ensures
            r@ == "Compacted "@ + decimal(self.record_count as nat) + " records for '"@
                + self.attribute_store_name@ + "'("@ + signed_decimal(self.attribute_store_id as int)
                + ")"@,
    {
        let mut s = "Compacted ".to_owned();
        s.append(u64_to_decimal(self.record_count).as_str());
        s.append(" records for '");
        s.append(self.attribute_store_name.as_str());
        s.append("'(");
        s.append(i64_to_decimal(self.attribute_store_id as i64).as_str());
        s.append(")");
        proof {
            reveal_strlit("Compacted ");
            reveal_strlit(" records for '");
            reveal_strlit("'(");
            reveal_strlit(")");
        }
        s
    }
}

/// Errors in compacting an attribute store.
pub enum CompactError {
    NoSuchAttributeStoreId(i32),
    NoSuchAttributeStoreName(String),
    Unexpected(String),
    CurrPtr(String),
    MarkCompacted(i32, String),
}

/// The message of a compaction error.
pub open spec fn compact_error_text(e: CompactError) -> Seq<char> {
    match e {
        CompactError::NoSuchAttributeStoreId(id) => "Could not find attribute store with Id "@
            + signed_decimal(id as int),
        CompactError::NoSuchAttributeStoreName(n) => "Could not find attribute store with name '"@
            + n@ + "'"@,
        CompactError::Unexpected(m) => "Unexpected error during compacting: "@ + m@,
        CompactError::CurrPtr(m) => "Could not materialize curr_ptr data: "@ + m@,
        CompactError::MarkCompacted(id, m) => "Could mark attribute store with ID "@ + signed_decimal(
            id as int,
        ) + " as compacted: "@ + m@,
    }
}

impl CompactError {
    /// The message of the error.
    pub fn to_display_string(&self) -> (r: String)
        ensures
            r@ == compact_error_text(*self),
    {
        proof {
            reveal_strlit("Could not find attribute store with Id ");
            reveal_strlit("Could not find attribute store with name '");
            reveal_strlit("'");
            reveal_strlit("Unexpected error during compacting: ");
            reveal_strlit("Could not materialize curr_ptr data: ");
            reveal_strlit("Could mark attribute store with ID ");
            reveal_strlit(" as compacted: ");
        }
        match self {
            CompactError::NoSuchAttributeStoreId(id) => {
                let mut s = "Could not find attribute store with Id ".to_owned();
                s.append(i64_to_decimal(*id as i64).as_str());
                s
            },
            CompactError::NoSuchAttributeStoreName(n) => {
                let mut s = "Could not find attribute store with name '".to_owned();
                s.append(n.as_str());
                s.append("'");
                s
            },
            CompactError::Unexpected(m) => {
                let mut s = "Unexpected error during compacting: ".to_owned();
                s.append(m.as_str());
                s
            },
            CompactError::CurrPtr(m) => {
                let mut s = "Could not materialize curr_ptr data: ".to_owned();
                s.append(m.as_str());
                s
            },
            CompactError::MarkCompacted(id, m) => {
                let mut s = "Could mark attribute store with ID ".to_owned();
                s.append(i64_to_decimal(*id as i64).as_str());
                s.append(" as compacted: ");
                s.append(m.as_str());
                s
            },
        }
    }

    /// The library error for this one: a runtime error whose message says that the
    /// attribute data could not be compacted.
    pub fn to_error(&self) -> (r: Error)
        ensures
            r matches Error::Runtime(e) && e.msg@ == "Could not compact attribute data: "@
                + compact_error_text(*self),
    {
        let mut s = "Could not compact attribute data: ".to_owned();
        s.append(self.to_display_string().as_str());
        proof {
            reveal_strlit("Could not compact attribute data: ");
        }
        Error::Runtime(RuntimeError::from_msg(s))
    }
}

} // verus!
