use vstd::prelude::*;

use crate::text::{join, join_seqs, strings_view};

verus! {

/// How often, in seconds, the connections of the materialization service are checked.
pub const CONNECTION_CHECK_INTERVAL: u64 = 60;

/// The age, in seconds, after which a connection of the materialization service is
/// renewed.
pub const MAX_CONNECTION_AGE: u64 = 3600;

/// The part of the chunk query that selects materialization states.
pub const CHUNKS_SELECT: &'static str = "SELECT m.id, m::text, ms.timestamp FROM trend_directory.materialization_state ms JOIN trend_directory.materialization m ON m.id = ms.materialization_id JOIN trend_directory.trend_store_part tsp ON tsp.id = m.dst_trend_store_part_id JOIN trend_directory.trend_store ts ON ts.id = tsp.trend_store_id";

/// The part of the chunk query that joins the tags of materializations.
pub const CHUNKS_TAG_JOIN: &'static str = "JOIN trend_directory.materialization_tag_link mtl ON mtl.materialization_id = m.id JOIN directory.tag ON tag.id = mtl.tag_id";

/// The part of the chunk query that keeps the states that are due.
pub const CHUNKS_WHERE: &'static str = "WHERE now() - ts.retention_period < ms.timestamp AND (source_fingerprint != processed_fingerprint OR processed_fingerprint IS NULL) AND m.enabled AND ms.timestamp + m.processing_delay < now() AND ms.timestamp + m.reprocessing_period > now() AND (ms.max_modified IS NULL OR (now() - ms.max_modified) > m.stability_delay)";

/// An error of the materialization service.
pub enum MaterializeError {
    UnexpectedError(String),
}

impl MaterializeError {
    /// The message of the error.
    pub fn to_display_string(&self) -> (r: String)
        ensures
            r@ == match self {
                MaterializeError::UnexpectedError(m) => m@,
            },
    {
        match self {
            MaterializeError::UnexpectedError(m) => m.clone(),
        }
    }
}

/// What the materialization service runs: optionally only materializations with one of
/// the tags, oldest or newest chunks first, and at most so many at a time.
pub struct MaterializeConfig {
    pub tags: Option<Vec<String>>,
    pub oldest_first: bool,
    pub max_materializations: i64,
}

/// The texts of optional tags.
pub open spec fn tags_view(tags: Option<Vec<String>>) -> Option<Seq<Seq<char>>> {
    match tags {
        Some(t) => Some(strings_view(t@)),
        None => None,
    }
}

/// The parts of the query for the chunks that are due, in order.
pub open spec fn chunk_query_parts(tags: Option<Seq<Seq<char>>>, oldest_first: bool) -> Seq<Seq<char>> {
    let order = if oldest_first {
        "ASC"@
    } else {
        "DESC"@
    };
    let last = "ORDER BY ms.timestamp "@ + order + ", ts.granularity ASC LIMIT $2"@;
    match tags {
        Some(t) => seq![
            CHUNKS_SELECT@,
            CHUNKS_TAG_JOIN@,
            CHUNKS_WHERE@,
            "AND tag.name = ANY('{"@ + join_seqs(t, ","@) + "}'::text[])"@,
            last,
        ],
        None => seq![CHUNKS_SELECT@, CHUNKS_WHERE@, last],
    }
}

/// The query for the chunks that are due under `config`: the parts joined with spaces.
pub fn chunks_query(config: &MaterializeConfig) -> (r: String)
    ensures
        r@ == join_seqs(chunk_query_parts(tags_view(config.tags), config.oldest_first), " "@),
{
    let mut parts: Vec<String> = Vec::new();
    parts.push(CHUNKS_SELECT.to_owned());
    if config.tags.is_some() {
        parts.push(CHUNKS_TAG_JOIN.to_owned());
    }
    parts.push(CHUNKS_WHERE.to_owned());
    if let Some(t) = &config.tags {
        let mut comparison = "AND tag.name = ANY('{".to_owned();
        comparison.append(join(t, ",").as_str());
        comparison.append("}'::text[])");
        parts.push(comparison);
    }
    let mut last = "ORDER BY ms.timestamp ".to_owned();
    if config.oldest_first {
        last.append("ASC");
    } else {
        last.append("DESC");
    }
    last.append(", ts.granularity ASC LIMIT $2");
    parts.push(last);
    proof {
        reveal_strlit("AND tag.name = ANY('{");
        reveal_strlit(",");
        reveal_strlit("}'::text[])");
        reveal_strlit("ORDER BY ms.timestamp ");
        reveal_strlit("ASC");
        reveal_strlit("DESC");
        reveal_strlit(", ts.granularity ASC LIMIT $2");
        reveal_strlit(" ");
        assert(strings_view(parts@) =~= chunk_query_parts(tags_view(config.tags), config.oldest_first));
    }
    join(&parts, " ")
}

/// The query that materializes the chunk of the materialization called `name` at the
/// timestamp written `timestamp`, and returns the number of rows.
pub fn materialize_chunk_query(timestamp: &str, name: &str) -> (r: String)
    ensures
        r@ == "SELECT (trend_directory.materialize(m, '"@ + timestamp@
            + "'::timestamptz)).row_count FROM trend_directory.materialization m WHERE m::text = '"@
            + name@ + "'"@,
{
    let mut s = "SELECT (trend_directory.materialize(m, '".to_owned();
    s.append(timestamp);
    s.append("'::timestamptz)).row_count FROM trend_directory.materialization m WHERE m::text = '");
    s.append(name);
    s.append("'");
    proof {
        reveal_strlit("SELECT (trend_directory.materialize(m, '");
        reveal_strlit("'::timestamptz)).row_count FROM trend_directory.materialization m WHERE m::text = '");
        reveal_strlit("'");
    }
    s
}

/// The statement that updates the statistics of the timestamp column of a partition.
pub fn analyze_timestamp_statement(partition: &str) -> (r: String)
    ensures
        r@ == "ANALYZE trend_partition.\""@ + partition@ + "\"(timestamp)"@,
{
    let mut s = "ANALYZE trend_partition.\"".to_owned();
    s.append(partition);
    s.append("\"(timestamp)");
    proof {
        reveal_strlit("ANALYZE trend_partition.\"");
        reveal_strlit("\"(timestamp)");
    }
    s
}

/// How a source of a materialization is written: its name and, in round brackets, its
/// timestamp mapping function.
pub fn source_text(name: &str, timestamp_mapping_func: &str) -> (r: String)
    ensures
        r@ == name@ + "("@ + timestamp_mapping_func@ + ")"@,
{
    let mut s = name.to_owned();
    s.append("(");
    s.append(timestamp_mapping_func);
    s.append(")");
    proof {
        reveal_strlit("(");
        reveal_strlit(")");
    }
    s
}

/// How a chunk is written: its timestamp and the name of its materialization.
pub fn chunk_text(timestamp: &str, name: &str) -> (r: String)
    ensures
        r@ == timestamp@ + " - "@ + name@,
{
    let mut s = timestamp.to_owned();
    s.append(" - ");
    s.append(name);
    proof {
        reveal_strlit(" - ");
    }
    s
}

} // verus!
