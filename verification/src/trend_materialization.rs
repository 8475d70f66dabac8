use vstd::prelude::*;

use serde_json::Value;

use crate::change::{changes_view, push_change, Change, ChangeView};
use crate::error::{Error, RuntimeError};
use crate::humantime_text::{format_duration_text, formatted_duration};
use crate::json::clone_json;
use crate::text::{
    escape_identifier, join, join_seqs, lowercased, quote_ident, same_text, strings_view,
    to_lowercase_str, trim_str, trimmed,
};
use crate::time::Duration;

verus! {

/// A trend store part that a materialization reads, with the function that maps its
/// entities.
pub struct TrendMaterializationTrendSource {
    pub trend_store_part: String,
    pub mapping_function: String,
}

/// An attribute store that a materialization reads.
pub struct TrendMaterializationAttributeSource {
    pub attribute_store: String,
}

/// A relation that a materialization reads.
pub struct TrendMaterializationRelationSource {
    pub relation: String,
}

/// A source of a trend materialization.
pub enum TrendMaterializationSource {
    Trend(TrendMaterializationTrendSource),
    Relation(TrendMaterializationRelationSource),
    Attribute(TrendMaterializationAttributeSource),
}

/// A source of a trend materialization, mathematically.
pub enum SourceView {
    Trend { trend_store_part: Seq<char>, mapping_function: Seq<char> },
    Relation { relation: Seq<char> },
    Attribute { attribute_store: Seq<char> },
}

impl View for TrendMaterializationSource {
    type V = SourceView;

    open spec fn view(&self) -> SourceView {
        match self {
            TrendMaterializationSource::Trend(s) => SourceView::Trend {
                trend_store_part: s.trend_store_part@,
                mapping_function: s.mapping_function@,
            },
            TrendMaterializationSource::Relation(s) => SourceView::Relation {
                relation: s.relation@,
            },
            TrendMaterializationSource::Attribute(s) => SourceView::Attribute {
                attribute_store: s.attribute_store@,
            },
        }
    }
}

impl TrendMaterializationSource {
    /// A source equal to this one.
    pub fn duplicate(&self) -> (r: TrendMaterializationSource)
        ensures
            r@ == self@,
    {
        match self {
            TrendMaterializationSource::Trend(s) => TrendMaterializationSource::Trend(
                TrendMaterializationTrendSource {
                    trend_store_part: s.trend_store_part.clone(),
                    mapping_function: s.mapping_function.clone(),
                },
            ),
            TrendMaterializationSource::Relation(s) => TrendMaterializationSource::Relation(
                TrendMaterializationRelationSource { relation: s.relation.clone() },
            ),
            TrendMaterializationSource::Attribute(s) => TrendMaterializationSource::Attribute(
                TrendMaterializationAttributeSource { attribute_store: s.attribute_store.clone() },
            ),
        }
    }
}

/// The views of a list of sources.
pub open spec fn sources_view(sources: Seq<TrendMaterializationSource>) -> Seq<SourceView> {
    sources.map_values(|s: TrendMaterializationSource| s@)
}

/// Copies a list of sources.
pub fn duplicate_sources(sources: &Vec<TrendMaterializationSource>) -> (r: Vec<
    TrendMaterializationSource,
>)
    ensures
        sources_view(r@) == sources_view(sources@),
{
    let mut r: Vec<TrendMaterializationSource> = Vec::new();
    let mut i: usize = 0;
    while i < sources.len()
        invariant
            i <= sources.len(),
            r.len() == i,
            sources_view(r@) == sources_view(sources@).take(i as int),
        decreases sources.len() - i,
    {
        let ghost prev = r@;
        r.push(sources[i].duplicate());
        proof {
            assert forall|j: int| 0 <= j < i + 1 implies sources_view(r@)[j] == sources_view(
                sources@,
            ).take(i + 1)[j] by {
                if j < i {
                    assert(r@[j] == prev[j]);
                    assert(sources_view(prev)[j] == sources_view(sources@).take(i as int)[j]);
                }
            }
            assert(sources_view(r@) =~= sources_view(sources@).take(i + 1));
        }
        i = i + 1;
    }
    assert(sources_view(sources@).take(sources.len() as int) =~= sources_view(sources@));
    r
}

/// Copies an optional JSON value.
pub fn duplicate_description(d: &Option<Value>) -> (r: Option<Value>)
    ensures
        r == *d,
{
    match d {
        Some(v) => Some(clone_json(v)),
        None => None,
    }
}

/// A materialization that fills a trend store part from a view.
pub struct TrendViewMaterialization {
    pub target_trend_store_part: String,
    pub enabled: bool,
    pub processing_delay: Duration,
    pub stability_delay: Duration,
    pub old_data_stability_delay: Option<Duration>,
    pub old_data_threshold: Option<Duration>,
    pub reprocessing_period: Duration,
    pub sources: Vec<TrendMaterializationSource>,
    pub view: String,
    pub fingerprint_function: String,
    pub description: Option<Value>,
}

/// A view materialization, mathematically.
pub struct TrendViewMaterializationView {
    pub target_trend_store_part: Seq<char>,
    pub enabled: bool,
    pub processing_delay: Duration,
    pub stability_delay: Duration,
    pub old_data_stability_delay: Option<Duration>,
    pub old_data_threshold: Option<Duration>,
    pub reprocessing_period: Duration,
    pub sources: Seq<SourceView>,
    pub view: Seq<char>,
    pub fingerprint_function: Seq<char>,
    pub description: Option<Value>,
}

impl View for TrendViewMaterialization {
    type V = TrendViewMaterializationView;

    open spec fn view(&self) -> TrendViewMaterializationView {
        TrendViewMaterializationView {
            target_trend_store_part: self.target_trend_store_part@,
            enabled: self.enabled,
            processing_delay: self.processing_delay,
            stability_delay: self.stability_delay,
            old_data_stability_delay: self.old_data_stability_delay,
            old_data_threshold: self.old_data_threshold,
            reprocessing_period: self.reprocessing_period,
            sources: sources_view(self.sources@),
            view: self.view@,
            fingerprint_function: self.fingerprint_function@,
            description: self.description,
        }
    }
}

/// The function of a function materialization.
pub struct TrendMaterializationFunction {
    pub return_type: String,
    pub src: String,
    pub language: String,
}

impl View for TrendMaterializationFunction {
    type V = (Seq<char>, Seq<char>, Seq<char>);

    /// The return type, the source and the language.
    open spec fn view(&self) -> (Seq<char>, Seq<char>, Seq<char>) {
        (self.return_type@, self.src@, self.language@)
    }
}

/// The statement that creates the function of a materialization called `name`.
pub open spec fn function_definition_text(f: (Seq<char>, Seq<char>, Seq<char>), name: Seq<char>) -> Seq<
    char,
> {
    "CREATE FUNCTION trend."@ + quote_ident(name) + "(timestamp with time zone) RETURNS "@ + f.0
        + " AS $function$\n"@ + trimmed(f.1) + "\n$function$ LANGUAGE "@ + f.2
}

impl TrendMaterializationFunction {
    /// A function equal to this one.
    pub fn duplicate(&self) -> (r: TrendMaterializationFunction)
        ensures
            r@ == self@,
    {
        TrendMaterializationFunction {
            return_type: self.return_type.clone(),
            src: self.src.clone(),
            language: self.language.clone(),
        }
    }

    /// The statement that creates the function under the name `name`, its source
    /// trimmed of surrounding white space.
    pub fn function_definition(&self, name: &str) -> (r: String)
        ensures
            r@ == function_definition_text(self@, name@),
    {
        let mut s = "CREATE FUNCTION trend.".to_owned();
        s.append(escape_identifier(name).as_str());
        s.append("(timestamp with time zone) RETURNS ");
        s.append(self.return_type.as_str());
        s.append(" AS $function$\n");
        s.append(trim_str(self.src.as_str()).as_str());
        s.append("\n$function$ LANGUAGE ");
        s.append(self.language.as_str());
        proof {
            reveal_strlit("CREATE FUNCTION trend.");
            reveal_strlit("(timestamp with time zone) RETURNS ");
            reveal_strlit(" AS $function$\n");
            reveal_strlit("\n$function$ LANGUAGE ");
        }
        s
    }
}

/// A materialization that fills a trend store part from a function.
pub struct TrendFunctionMaterialization {
    pub target_trend_store_part: String,
    pub enabled: bool,
    pub processing_delay: Duration,
    pub stability_delay: Duration,
    pub old_data_stability_delay: Option<Duration>,
    pub old_data_threshold: Option<Duration>,
    pub reprocessing_period: Duration,
    pub sources: Vec<TrendMaterializationSource>,
    pub function: TrendMaterializationFunction,
    pub fingerprint_function: String,
    pub description: Option<Value>,
}

/// A function materialization, mathematically.
pub struct TrendFunctionMaterializationView {
    pub target_trend_store_part: Seq<char>,
    pub enabled: bool,
    pub processing_delay: Duration,
    pub stability_delay: Duration,
    pub old_data_stability_delay: Option<Duration>,
    pub old_data_threshold: Option<Duration>,
    pub reprocessing_period: Duration,
    pub sources: Seq<SourceView>,
    pub function: (Seq<char>, Seq<char>, Seq<char>),
    pub fingerprint_function: Seq<char>,
    pub description: Option<Value>,
}

impl View for TrendFunctionMaterialization {
    type V = TrendFunctionMaterializationView;

    open spec fn view(&self) -> TrendFunctionMaterializationView {
        TrendFunctionMaterializationView {
            target_trend_store_part: self.target_trend_store_part@,
            enabled: self.enabled,
            processing_delay: self.processing_delay,
            stability_delay: self.stability_delay,
            old_data_stability_delay: self.old_data_stability_delay,
            old_data_threshold: self.old_data_threshold,
            reprocessing_period: self.reprocessing_period,
            sources: sources_view(self.sources@),
            function: self.function@,
            fingerprint_function: self.fingerprint_function@,
            description: self.description,
        }
    }
}

/// Whether two optional spans are equal.
pub fn same_optional_duration(a: &Option<Duration>, b: &Option<Duration>) -> (r: bool)
    ensures
        r == (*a == *b),
{
    match (a, b) {
        (Some(x), Some(y)) => x.same_as(y),
        (None, None) => true,
        _ => false,
    }
}

/// Whether the settings that a materialization's attributes hold differ: whether it is
/// enabled, and its delays, periods and thresholds.
pub open spec fn attributes_differ(
    a: (bool, Duration, Duration, Duration, Option<Duration>, Option<Duration>),
    b: (bool, Duration, Duration, Duration, Option<Duration>, Option<Duration>),
) -> bool {
    a != b
}

/// The attribute settings of a view materialization.
pub open spec fn view_settings(m: TrendViewMaterializationView) -> (
    bool,
    Duration,
    Duration,
    Duration,
    Option<Duration>,
    Option<Duration>,
) {
    (
        m.enabled,
        m.processing_delay,
        m.stability_delay,
        m.reprocessing_period,
        m.old_data_threshold,
        m.old_data_stability_delay,
    )
}

/// The attribute settings of a function materialization.
pub open spec fn function_settings(m: TrendFunctionMaterializationView) -> (
    bool,
    Duration,
    Duration,
    Duration,
    Option<Duration>,
    Option<Duration>,
) {
    (
        m.enabled,
        m.processing_delay,
        m.stability_delay,
        m.reprocessing_period,
        m.old_data_threshold,
        m.old_data_stability_delay,
    )
}

/// Whether the attribute settings of two materializations differ.
fn settings_differ(
    enabled: bool,
    processing_delay: &Duration,
    stability_delay: &Duration,
    reprocessing_period: &Duration,
    old_data_threshold: &Option<Duration>,
    old_data_stability_delay: &Option<Duration>,
    other_enabled: bool,
    other_processing_delay: &Duration,
    other_stability_delay: &Duration,
    other_reprocessing_period: &Duration,
    other_old_data_threshold: &Option<Duration>,
    other_old_data_stability_delay: &Option<Duration>,
) -> (r: bool)
    ensures
        r == attributes_differ(
            (
                enabled,
                *processing_delay,
                *stability_delay,
                *reprocessing_period,
                *old_data_threshold,
                *old_data_stability_delay,
            ),
            (
                other_enabled,
                *other_processing_delay,
                *other_stability_delay,
                *other_reprocessing_period,
                *other_old_data_threshold,
                *other_old_data_stability_delay,
            ),
        ),
{
    enabled != other_enabled || !processing_delay.same_as(other_processing_delay)
        || !stability_delay.same_as(other_stability_delay) || !reprocessing_period.same_as(
        other_reprocessing_period,
    ) || !same_optional_duration(old_data_threshold, other_old_data_threshold)
        || !same_optional_duration(old_data_stability_delay, other_old_data_stability_delay)
}

impl TrendViewMaterialization {
    /// A materialization equal to this one.
    pub fn duplicate(&self) -> (r: TrendViewMaterialization)
        ensures
            r@ == self@,
    {
        TrendViewMaterialization {
            target_trend_store_part: self.target_trend_store_part.clone(),
            enabled: self.enabled,
            processing_delay: self.processing_delay,
            stability_delay: self.stability_delay,
            old_data_stability_delay: self.old_data_stability_delay,
            old_data_threshold: self.old_data_threshold,
            reprocessing_period: self.reprocessing_period,
            sources: duplicate_sources(&self.sources),
            view: self.view.clone(),
            fingerprint_function: self.fingerprint_function.clone(),
            description: duplicate_description(&self.description),
        }
    }
}

impl TrendFunctionMaterialization {
    /// A materialization equal to this one.
    pub fn duplicate(&self) -> (r: TrendFunctionMaterialization)
        ensures
            r@ == self@,
    {
        TrendFunctionMaterialization {
            target_trend_store_part: self.target_trend_store_part.clone(),
            enabled: self.enabled,
            processing_delay: self.processing_delay,
            stability_delay: self.stability_delay,
            old_data_stability_delay: self.old_data_stability_delay,
            old_data_threshold: self.old_data_threshold,
            reprocessing_period: self.reprocessing_period,
            sources: duplicate_sources(&self.sources),
            function: self.function.duplicate(),
            fingerprint_function: self.fingerprint_function.clone(),
            description: duplicate_description(&self.description),
        }
    }

    /// Whether the function's language is PL/pgSQL, in any letter case: only then can
    /// two definitions be compared by their parse trees.
    pub fn is_plpgsql(&self) -> (r: bool)
        ensures
            r == (lowercased(self.function.language@) == "plpgsql"@),
    {
        let lower = to_lowercase_str(self.function.language.as_str());
        same_text(&lower, "plpgsql")
    }

    /// The statement that creates this materialization's function.
    pub fn complete_function_definition(&self) -> (r: String)
        ensures
            r@ == function_definition_text(self.function@, self.target_trend_store_part@),
    {
        self.function.function_definition(self.target_trend_store_part.as_str())
    }
}

/// A trend materialization: from a view or from a function.
pub enum TrendMaterialization {
    View(TrendViewMaterialization),
    Function(TrendFunctionMaterialization),
}

/// A trend materialization, mathematically.
pub enum TrendMaterializationView {
    View(TrendViewMaterializationView),
    Function(TrendFunctionMaterializationView),
}

impl View for TrendMaterialization {
    type V = TrendMaterializationView;

    open spec fn view(&self) -> TrendMaterializationView {
        match self {
            TrendMaterialization::View(m) => TrendMaterializationView::View(m@),
            TrendMaterialization::Function(m) => TrendMaterializationView::Function(m@),
        }
    }
}

/// The name of a materialization: that of the trend store part it fills.
pub open spec fn materialization_name(m: TrendMaterializationView) -> Seq<char> {
    match m {
        TrendMaterializationView::View(v) => v.target_trend_store_part,
        TrendMaterializationView::Function(f) => f.target_trend_store_part,
    }
}

/// How a materialization is written, such as `TrendViewMaterialization('name')`.
pub open spec fn materialization_text(m: TrendMaterializationView) -> Seq<char> {
    match m {
        TrendMaterializationView::View(v) => "TrendViewMaterialization('"@
            + v.target_trend_store_part + "')"@,
        TrendMaterializationView::Function(f) => "TrendFunctionMaterialization('"@
            + f.target_trend_store_part + "')"@,
    }
}

/// The name of the view of a view materialization called `name`: `_name`.
pub open spec fn view_name_of(name: Seq<char>) -> Seq<char> {
    "_"@ + name
}

/// The name of the fingerprint function of a materialization called `name`.
pub open spec fn fingerprint_name_of(name: Seq<char>) -> Seq<char> {
    name + "_fingerprint"@
}

/// The name of the view of a view materialization called `materialization_name`.
pub fn materialization_view_name(materialization_name: &str) -> (r: String)
    ensures
        r@ == view_name_of(materialization_name@),
{
    let mut s = "_".to_owned();
    s.append(materialization_name);
    proof {
        reveal_strlit("_");
    }
    s
}

/// The name of the fingerprint function of the materialization called
/// `materialization_name`.
pub fn fingerprint_function_name(materialization_name: &str) -> (r: String)
    ensures
        r@ == fingerprint_name_of(materialization_name@),
{
    let mut s = materialization_name.to_owned();
    s.append("_fingerprint");
    proof {
        reveal_strlit("_fingerprint");
    }
    s
}

impl TrendMaterialization {
    /// The name of the materialization.
    pub fn name(&self) -> (r: &str)
        ensures
            r@ == materialization_name(self@),
    {
        match self {
            TrendMaterialization::View(m) => m.target_trend_store_part.as_str(),
            TrendMaterialization::Function(m) => m.target_trend_store_part.as_str(),
        }
    }

    /// A materialization equal to this one.
    pub fn duplicate(&self) -> (r: TrendMaterialization)
        ensures
            r@ == self@,
    {
        match self {
            TrendMaterialization::View(m) => TrendMaterialization::View(m.duplicate()),
            TrendMaterialization::Function(m) => TrendMaterialization::Function(m.duplicate()),
        }
    }

    /// How the materialization is written.
    pub fn to_display_string(&self) -> (r: String)
        ensures
            r@ == materialization_text(self@),
    {
        let mut s = match self {
            TrendMaterialization::View(_) => "TrendViewMaterialization('".to_owned(),
            TrendMaterialization::Function(_) => "TrendFunctionMaterialization('".to_owned(),
        };
        s.append(self.name());
        s.append("')");
        proof {
            reveal_strlit("TrendViewMaterialization('");
            reveal_strlit("TrendFunctionMaterialization('");
            reveal_strlit("')");
        }
        s
    }

    /// The name of the materialization's fingerprint function.
    pub fn fingerprint_function_name(&self) -> (r: String)
        ensures
            r@ == fingerprint_name_of(materialization_name(self@)),
    {
        fingerprint_function_name(self.name())
    }
}

/// The body of a PL/pgSQL function that runs the SQL query `src` with the function's
/// first argument and returns its rows.
pub open spec fn plpgsql_body(src: Seq<char>) -> Seq<char> {
    "BEGIN\n"@ + "RETURN QUERY EXECUTE $query$\n"@ + src + "$query$ USING $1;\n"@ + "END;\n"@
}

/// Wraps a plain SQL query in a PL/pgSQL body that executes it.
pub fn map_sql_to_plpgsql(src: String) -> (r: String)
    ensures
        r@ == plpgsql_body(src@),
{
    let mut s = "BEGIN\n".to_owned();
    s.append("RETURN QUERY EXECUTE $query$\n");
    s.append(src.as_str());
    s.append("$query$ USING $1;\n");
    s.append("END;\n");
    proof {
        reveal_strlit("BEGIN\n");
        reveal_strlit("RETURN QUERY EXECUTE $query$\n");
        reveal_strlit("$query$ USING $1;\n");
        reveal_strlit("END;\n");
    }
    s
}

/// The language and source of a function after turning plain SQL into PL/pgSQL, or
/// the message that refuses its language.
pub open spec fn coerced_function(lang: Seq<char>, src: Seq<char>) -> Result<
    (Seq<char>, Seq<char>),
    Seq<char>,
> {
    if lang == "sql"@ {
        Ok(("plpgsql"@, plpgsql_body(src)))
    } else if lang == "plpgsql"@ {
        Ok((lang, src))
    } else {
        Err("Unexpected language '"@ + lang + "'"@)
    }
}

/// Turns a function in language `sql` into one in `plpgsql`, which Citus can run with
/// parameters; a `plpgsql` function is kept as it is, and any other language is
/// refused with a runtime error.
pub fn coorce_to_plpgsql(function: (String, String)) -> (r: Result<(String, String), Error>)
    ensures
        match r {
            Ok(f) => coerced_function(function.0@, function.1@) == Ok::<
                (Seq<char>, Seq<char>),
                Seq<char>,
            >((f.0@, f.1@)),
            Err(e) => match e {
                Error::Runtime(re) => coerced_function(function.0@, function.1@) == Err::<
                    (Seq<char>, Seq<char>),
                    Seq<char>,
                >(re.msg@),
                _ => false,
            },
        },
{
    let (lang, src) = function;
    proof {
        reveal_strlit("sql");
        reveal_strlit("plpgsql");
    }
    if same_text(&lang, "sql") {
        Ok(("plpgsql".to_owned(), map_sql_to_plpgsql(src)))
    } else if same_text(&lang, "plpgsql") {
        Ok((lang, src))
    } else {
        let mut msg = "Unexpected language '".to_owned();
        msg.append(lang.as_str());
        msg.append("'");
        proof {
            reveal_strlit("Unexpected language '");
            reveal_strlit("'");
        }
        Err(Error::Runtime(RuntimeError::from_msg(msg)))
    }
}

/// The SQL expression for an optional interval: the span written by humantime and cast
/// to an interval, or `NULL`.
pub open spec fn text_interval(d: Option<Duration>) -> Seq<char> {
    match d {
        Some(v) => "'"@ + formatted_duration(v@.0, v@.1) + "'::text::interval"@,
        None => "NULL"@,
    }
}

/// Writes an optional span as an SQL interval expression.
pub fn create_text_interval(d: Option<Duration>) -> (r: String)
    ensures
        r@ == text_interval(d),
{
    proof {
        reveal_strlit("'");
        reveal_strlit("'::text::interval");
        reveal_strlit("NULL");
    }
    match d {
        Some(v) => {
            let mut s = "'".to_owned();
            s.append(format_duration_text(v).as_str());
            s.append("'::text::interval");
            s
        },
        None => "NULL".to_owned(),
    }
}

/// The schema of the functions and views that materializations are defined by.
pub const MATERIALIZATION_FUNCTION_SCHEMA: &'static str = "trend";

/// A column that a view or function returns.
pub struct ResultColumn {
    pub name: String,
    pub data_type: String,
}

/// A trend column of a trend store part.
pub struct TrendStorePartColumn {
    pub name: String,
    pub data_type: String,
}

/// The line that declares a result column: its quoted name and its data type.
pub open spec fn column_line(c: (Seq<char>, Seq<char>)) -> Seq<char> {
    "    "@ + quote_ident(c.0) + " "@ + c.1
}

/// The lines of a list of columns.
pub open spec fn column_lines(columns: Seq<(Seq<char>, Seq<char>)>) -> Seq<Seq<char>> {
    columns.map_values(|c: (Seq<char>, Seq<char>)| column_line(c))
}

/// The names and data types of result columns.
pub open spec fn result_columns_view(columns: Seq<ResultColumn>) -> Seq<(Seq<char>, Seq<char>)> {
    columns.map_values(|c: ResultColumn| (c.name@, c.data_type@))
}

/// The return type of a function that returns rows with the given columns:
/// `TABLE (` and a line for each column, the lines joined with commas.
pub open spec fn table_return_type(columns: Seq<(Seq<char>, Seq<char>)>) -> Seq<char> {
    "TABLE (\n"@ + join_seqs(column_lines(columns), ",\n"@) + "\n)\n"@
}

/// Writes the return type of a function that returns rows with the given columns.
pub fn function_return_type(columns: &Vec<ResultColumn>) -> (r: String)
    ensures
        r@ == table_return_type(result_columns_view(columns@)),
{
    let mut lines: Vec<String> = Vec::new();
    let ghost cols = result_columns_view(columns@);
    let mut i: usize = 0;
    while i < columns.len()
        invariant
            i <= columns.len(),
            cols == result_columns_view(columns@),
            lines.len() == i,
            strings_view(lines@) == column_lines(cols).take(i as int),
        decreases columns.len() - i,
    {
        let mut line = "    ".to_owned();
        line.append(escape_identifier(columns[i].name.as_str()).as_str());
        line.append(" ");
        line.append(columns[i].data_type.as_str());
        proof {
            reveal_strlit("    ");
            reveal_strlit(" ");
        }
        let ghost prev = lines@;
        lines.push(line);
        proof {
            assert forall|j: int| 0 <= j < i + 1 implies strings_view(lines@)[j] == column_lines(
                cols,
            ).take(i + 1)[j] by {
                if j < i {
                    assert(lines@[j] == prev[j]);
                    assert(strings_view(prev)[j] == column_lines(cols).take(i as int)[j]);
                }
            }
            assert(strings_view(lines@) =~= column_lines(cols).take(i + 1));
        }
        i = i + 1;
    }
    assert(column_lines(cols).take(columns.len() as int) =~= column_lines(cols));
    let mut s = "TABLE (\n".to_owned();
    s.append(join(&lines, ",\n").as_str());
    s.append("\n)\n");
    proof {
        reveal_strlit("TABLE (\n");
        reveal_strlit(",\n");
        reveal_strlit("\n)\n");
    }
    s
}

/// Updating the settings of a view materialization.
pub struct UpdateTrendViewMaterializationAttributes {
    pub trend_view_materialization: TrendViewMaterialization,
}

impl UpdateTrendViewMaterializationAttributes {
    /// How the change is written: `UpdateTrendViewMaterializationAttributes(name)`.
    pub fn to_display_string(&self) -> (r: String)
        ensures
            r@ == "UpdateTrendViewMaterializationAttributes("@
                + self.trend_view_materialization.target_trend_store_part@ + ")"@,
    {
        let mut s = "UpdateTrendViewMaterializationAttributes(".to_owned();
        s.append(self.trend_view_materialization.target_trend_store_part.as_str());
        s.append(")");
        proof {
            reveal_strlit("UpdateTrendViewMaterializationAttributes(");
            reveal_strlit(")");
        }
        s
    }
}

/// Updating the settings of a function materialization.
pub struct UpdateTrendFunctionMaterializationAttributes {
    pub trend_function_materialization: TrendFunctionMaterialization,
}

impl UpdateTrendFunctionMaterializationAttributes {
    /// How the change is written: `UpdateTrendFunctionMaterializationAttributes(name)`.
    pub fn to_display_string(&self) -> (r: String)
        ensures
            r@ == "UpdateTrendFunctionMaterializationAttributes("@
                + self.trend_function_materialization.target_trend_store_part@ + ")"@,
    {
        let mut s = "UpdateTrendFunctionMaterializationAttributes(".to_owned();
        s.append(self.trend_function_materialization.target_trend_store_part.as_str());
        s.append(")");
        proof {
            reveal_strlit("UpdateTrendFunctionMaterializationAttributes(");
            reveal_strlit(")");
        }
        s
    }
}

/// Replacing the view of a view materialization.
pub struct UpdateView {
    pub trend_view_materialization: TrendViewMaterialization,
}

impl UpdateView {
    /// How the change is written: `UpdateView(name, _name)`.
    pub fn to_display_string(&self) -> (r: String)
        ensures
            r@ == "UpdateView("@ + self.trend_view_materialization.target_trend_store_part@
                + ", "@ + view_name_of(self.trend_view_materialization.target_trend_store_part@)
                + ")"@,
    {
        let name = self.trend_view_materialization.target_trend_store_part.as_str();
        let mut s = "UpdateView(".to_owned();
        s.append(name);
        s.append(", ");
        s.append(materialization_view_name(name).as_str());
        s.append(")");
        proof {
            reveal_strlit("UpdateView(");
            reveal_strlit(", ");
            reveal_strlit(")");
        }
        s
    }
}

/// Replacing the function of a function materialization.
pub struct UpdateFunction {
    pub original_definition: String,
    pub new_definition: String,
    pub trend_function_materialization: TrendFunctionMaterialization,
}

/// The two definitions of a function that a change replaces one by the other, to show
/// their difference.
pub struct FunctionDiff {
    pub from_src: String,
    pub to_src: String,
}

impl UpdateFunction {
    /// How the change is written: `UpdateFunction(name, name)`.
    pub fn to_display_string(&self) -> (r: String)
        ensures
            r@ == "UpdateFunction("@ + self.trend_function_materialization.target_trend_store_part@
                + ", "@ + self.trend_function_materialization.target_trend_store_part@ + ")"@,
    {
        let name = self.trend_function_materialization.target_trend_store_part.as_str();
        let mut s = "UpdateFunction(".to_owned();
        s.append(name);
        s.append(", ");
        s.append(name);
        s.append(")");
        proof {
            reveal_strlit("UpdateFunction(");
            reveal_strlit(", ");
            reveal_strlit(")");
        }
        s
    }

    /// The definitions before and after the change.
    pub fn function_diff(&self) -> (r: FunctionDiff)
        ensures
            r.from_src@ == self.original_definition@,
            r.to_src@ == self.new_definition@,
    {
        FunctionDiff { from_src: self.original_definition.clone(), to_src: self.new_definition.clone() }
    }
}

/// Adding a trend materialization.
pub struct AddTrendMaterialization {
    pub trend_materialization: TrendMaterialization,
}

impl AddTrendMaterialization {
    /// How the change is written: `AddTrendMaterialization(...)` around the
    /// materialization.
    pub fn to_display_string(&self) -> (r: String)
        ensures
            r@ == "AddTrendMaterialization("@ + materialization_text(self.trend_materialization@)
                + ")"@,
    {
        let mut s = "AddTrendMaterialization(".to_owned();
        s.append(self.trend_materialization.to_display_string().as_str());
        s.append(")");
        proof {
            reveal_strlit("AddTrendMaterialization(");
            reveal_strlit(")");
        }
        s
    }
}

impl From<TrendMaterialization> for AddTrendMaterialization {
    fn from(trend_materialization: TrendMaterialization) -> (r: AddTrendMaterialization) {
        AddTrendMaterialization { trend_materialization }
    }
}

impl vstd::std_specs::convert::FromSpecImpl<TrendMaterialization> for AddTrendMaterialization {
    open spec fn obeys_from_spec() -> bool {
        true
    }

    open spec fn from_spec(trend_materialization: TrendMaterialization) -> AddTrendMaterialization {
        AddTrendMaterialization { trend_materialization }
    }
}

/// Removing a trend materialization, by name.
pub struct RemoveTrendMaterialization {
    pub name: String,
}

impl RemoveTrendMaterialization {
    /// How the change is written: `RemoveTrendMaterialization(name)`.
    pub fn to_display_string(&self) -> (r: String)
        ensures
            r@ == "RemoveTrendMaterialization("@ + self.name@ + ")"@,
    {
        let mut s = "RemoveTrendMaterialization(".to_owned();
        s.append(self.name.as_str());
        s.append(")");
        proof {
            reveal_strlit("RemoveTrendMaterialization(");
            reveal_strlit(")");
        }
        s
    }
}

/// Updating a trend materialization as a whole.
pub struct UpdateTrendMaterialization {
    pub trend_materialization: TrendMaterialization,
}

impl UpdateTrendMaterialization {
    /// How the change is written: `UpdateTrendMaterialization(...)` around the
    /// materialization.
    pub fn to_display_string(&self) -> (r: String)
        ensures
            r@ == "UpdateTrendMaterialization("@ + materialization_text(
                self.trend_materialization@,
            ) + ")"@,
    {
        let mut s = "UpdateTrendMaterialization(".to_owned();
        s.append(self.trend_materialization.to_display_string().as_str());
        s.append(")");
        proof {
            reveal_strlit("UpdateTrendMaterialization(");
            reveal_strlit(")");
        }
        s
    }
}

/// The changes that turn view materialization `mine` into `other`, given the
/// fingerprints of their queries: the view is replaced when the fingerprints differ (the
/// change carries `mine`), and the settings are updated to those of `other` when they
/// differ.
pub open spec fn view_materialization_changes(
    mine: TrendViewMaterializationView,
    other: TrendViewMaterializationView,
    my_fingerprint: Seq<char>,
    other_fingerprint: Seq<char>,
) -> Seq<ChangeView> {
    (if my_fingerprint != other_fingerprint {
        seq![ChangeView::UpdateView { materialization: mine }]
    } else {
        Seq::empty()
    }) + (if attributes_differ(view_settings(mine), view_settings(other)) {
        seq![ChangeView::UpdateTrendViewMaterializationAttributes { materialization: other }]
    } else {
        Seq::empty()
    })
}

/// The changes that turn function materialization `mine` into `other`, given the
/// parse trees of their definitions: the function is replaced unless its language is
/// PL/pgSQL and the trees are equal, and the settings are updated to those of `other`
/// when they differ.
pub open spec fn function_materialization_changes(
    mine: TrendFunctionMaterializationView,
    other: TrendFunctionMaterializationView,
    my_tree: Seq<char>,
    other_tree: Seq<char>,
) -> Seq<ChangeView> {
    let same = lowercased(mine.function.2) == "plpgsql"@ && my_tree == other_tree;
    (if !same {
        seq![
            ChangeView::UpdateFunction {
                original_definition: function_definition_text(
                    mine.function,
                    mine.target_trend_store_part,
                ),
                new_definition: function_definition_text(
                    other.function,
                    other.target_trend_store_part,
                ),
                materialization: other,
            },
        ]
    } else {
        Seq::empty()
    }) + (if attributes_differ(function_settings(mine), function_settings(other)) {
        seq![ChangeView::UpdateTrendFunctionMaterializationAttributes { materialization: other }]
    } else {
        Seq::empty()
    })
}

/// The changes that turn materialization `mine` into `other`, given what the SQL
/// analysis gives for each (fingerprints of views, parse trees of functions); none when
/// one is a view materialization and the other a function materialization.
pub open spec fn materialization_changes(
    mine: TrendMaterializationView,
    other: TrendMaterializationView,
    my_key: Seq<char>,
    other_key: Seq<char>,
) -> Seq<ChangeView> {
    match (mine, other) {
        (TrendMaterializationView::View(m), TrendMaterializationView::View(o)) => view_materialization_changes(
            m,
            o,
            my_key,
            other_key,
        ),
        (TrendMaterializationView::Function(m), TrendMaterializationView::Function(o)) => function_materialization_changes(
            m,
            o,
            my_key,
            other_key,
        ),
        _ => Seq::empty(),
    }
}

/// A trend materialization compared with itself, with one analysis for both sides,
/// gives no change, when it is a view or a function written in PL/pgSQL (any other
/// language always has its function replaced).
pub proof fn lemma_materialization_diff_self(m: TrendMaterializationView, key: Seq<char>)
    requires
        m matches TrendMaterializationView::Function(f) ==> lowercased(f.function.2) == "plpgsql"@,
    ensures
        materialization_changes(m, m, key, key) == Seq::<ChangeView>::empty(),
{
    assert(materialization_changes(m, m, key, key) =~= Seq::<ChangeView>::empty());
}

impl TrendViewMaterialization {
    /// The changes that turn this materialization into `other`. The fingerprints are
    /// those that pg_query computes for the two queries.
    pub fn diff(&self, other: &TrendViewMaterialization, my_fingerprint: &str, other_fingerprint: &str) -> (changes: Vec<Change>)
        ensures
            changes_view(changes@) == view_materialization_changes(
                self@,
                other@,
                my_fingerprint@,
                other_fingerprint@,
            ),
    {
        let mut changes: Vec<Change> = Vec::new();
        let fp = my_fingerprint.to_owned();
        if !same_text(&fp, other_fingerprint) {
            push_change(
                &mut changes,
                Change::UpdateView(UpdateView { trend_view_materialization: self.duplicate() }),
            );
        }
        if settings_differ(
            self.enabled,
            &self.processing_delay,
            &self.stability_delay,
            &self.reprocessing_period,
            &self.old_data_threshold,
            &self.old_data_stability_delay,
            other.enabled,
            &other.processing_delay,
            &other.stability_delay,
            &other.reprocessing_period,
            &other.old_data_threshold,
            &other.old_data_stability_delay,
        ) {
            push_change(
                &mut changes,
                Change::UpdateTrendViewMaterializationAttributes(
                    UpdateTrendViewMaterializationAttributes {
                        trend_view_materialization: other.duplicate(),
                    },
                ),
            );
        }
        assert(changes_view(changes@) =~= view_materialization_changes(
            self@,
            other@,
            my_fingerprint@,
            other_fingerprint@,
        ));
        changes
    }
}

impl TrendFunctionMaterialization {
    /// The changes that turn this materialization into `other`. The trees are the
    /// PL/pgSQL parse trees that pg_query gives for the two complete definitions; they
    /// are compared only when this function's language is PL/pgSQL.
    pub fn diff(&self, other: &TrendFunctionMaterialization, my_tree: &str, other_tree: &str) -> (changes: Vec<Change>)
        ensures
            changes_view(changes@) == function_materialization_changes(
                self@,
                other@,
                my_tree@,
                other_tree@,
            ),
    {
        let mut changes: Vec<Change> = Vec::new();
        let this_src = self.complete_function_definition();
        let other_src = other.complete_function_definition();
        let function_equals = if self.is_plpgsql() {
            let t = my_tree.to_owned();
            same_text(&t, other_tree)
        } else {
            false
        };
        if !function_equals {
            push_change(
                &mut changes,
                Change::UpdateFunction(
                    UpdateFunction {
                        original_definition: this_src,
                        new_definition: other_src,
                        trend_function_materialization: other.duplicate(),
                    },
                ),
            );
        }
        if settings_differ(
            self.enabled,
            &self.processing_delay,
            &self.stability_delay,
            &self.reprocessing_period,
            &self.old_data_threshold,
            &self.old_data_stability_delay,
            other.enabled,
            &other.processing_delay,
            &other.stability_delay,
            &other.reprocessing_period,
            &other.old_data_threshold,
            &other.old_data_stability_delay,
        ) {
            push_change(
                &mut changes,
                Change::UpdateTrendFunctionMaterializationAttributes(
                    UpdateTrendFunctionMaterializationAttributes {
                        trend_function_materialization: other.duplicate(),
                    },
                ),
            );
        }
        assert(changes_view(changes@) =~= function_materialization_changes(
            self@,
            other@,
            my_tree@,
            other_tree@,
        ));
        changes
    }
}

impl TrendMaterialization {
    /// The changes that turn this materialization into `other`, given what pg_query
    /// gives for each: the fingerprint of a view's query, or the parse tree of a
    /// function's complete definition. A view materialization and a function
    /// materialization are not compared: that gives no change.
    pub fn diff(&self, other: &TrendMaterialization, my_key: &str, other_key: &str) -> (changes: Vec<Change>)
        ensures
            changes_view(changes@) == materialization_changes(self@, other@, my_key@, other_key@),
    {
        match (self, other) {
            (TrendMaterialization::View(m), TrendMaterialization::View(o)) => m.diff(o, my_key, other_key),
            (TrendMaterialization::Function(m), TrendMaterialization::Function(o)) => m.diff(
                o,
                my_key,
                other_key,
            ),
            _ => {
                let changes: Vec<Change> = Vec::new();
                assert(changes_view(changes@) =~= Seq::<ChangeView>::empty());
                changes
            },
        }
    }

    /// The text whose analysis the comparison of this materialization needs: the query
    /// of a view materialization, or the complete definition of a function
    /// materialization.
    pub fn analysed_sql(&self) -> (r: String)
        ensures
            r@ == analysed_text(self@),
    {
        match self {
            TrendMaterialization::View(m) => m.view.clone(),
            TrendMaterialization::Function(m) => m.complete_function_definition(),
        }
    }
}

/// The text whose analysis the comparison of a materialization needs.
pub open spec fn analysed_text(m: TrendMaterializationView) -> Seq<char> {
    match m {
        TrendMaterializationView::View(v) => v.view,
        TrendMaterializationView::Function(f) => function_definition_text(
            f.function,
            f.target_trend_store_part,
        ),
    }
}

/// Names and data types of columns.
pub open spec fn pairs_view(pairs: Seq<(String, String)>) -> Seq<(Seq<char>, Seq<char>)> {
    pairs.map_values(|p: (String, String)| (p.0@, p.1@))
}

/// The names and data types of trend store part columns.
pub open spec fn part_columns_view(columns: Seq<TrendStorePartColumn>) -> Seq<(Seq<char>, Seq<char>)> {
    columns.map_values(|c: TrendStorePartColumn| (c.name@, c.data_type@))
}

/// The data type of the last column called `name`, as a map built from the columns in
/// order holds it.
pub open spec fn last_type_of(columns: Seq<(Seq<char>, Seq<char>)>, name: Seq<char>) -> Option<
    Seq<char>,
>
    decreases columns.len(),
{
    if columns.len() == 0 {
        None
    } else if columns.last().0 == name {
        Some(columns.last().1)
    } else {
        last_type_of(columns.drop_last(), name)
    }
}

/// The result columns other than `entity_id` and `timestamp`, in order.
pub open spec fn data_columns(columns: Seq<(Seq<char>, Seq<char>)>) -> Seq<(Seq<char>, Seq<char>)>
    decreases columns.len(),
{
    if columns.len() == 0 {
        Seq::empty()
    } else {
        let rest = data_columns(columns.drop_last());
        let c = columns.last();
        if c.0 != "entity_id"@ && c.0 != "timestamp"@ {
            rest.push(c)
        } else {
            rest
        }
    }
}

/// The start of each report line: `Column '<name>'(<type>)`.
pub open spec fn column_intro_text(c: (Seq<char>, Seq<char>)) -> Seq<char> {
    "Column '"@ + c.0 + "'("@ + c.1 + ")"@
}

/// The report line for a returned column without a matching trend.
pub open spec fn unmatched_line(kind: Seq<char>, c: (Seq<char>, Seq<char>)) -> Seq<char> {
    column_intro_text(c) + " is returned from "@ + kind + " but has no matching trend"@
}

/// The report line for a returned column whose type differs from its trend's.
pub open spec fn mistyped_line(kind: Seq<char>, c: (Seq<char>, Seq<char>), trend_type: Seq<char>) -> Seq<
    char,
> {
    column_intro_text(c) + " returned from "@ + kind + " differs in type: '"@ + c.1 + "' != '"@
        + trend_type + "' "@
}

/// The report line for a trend that is not returned.
pub open spec fn unreturned_line(kind: Seq<char>, target: Seq<char>, c: (Seq<char>, Seq<char>)) -> Seq<
    char,
> {
    column_intro_text(c) + " is defined as trend in trend store part '"@ + target
        + "' but is not returned from "@ + kind
}

/// The report lines about the returned columns, in order.
pub open spec fn returned_issues(
    kind: Seq<char>,
    returned: Seq<(Seq<char>, Seq<char>)>,
    trends: Seq<(Seq<char>, Seq<char>)>,
) -> Seq<Seq<char>>
    decreases returned.len(),
{
    if returned.len() == 0 {
        Seq::empty()
    } else {
        let rest = returned_issues(kind, returned.drop_last(), trends);
        let c = returned.last();
        match last_type_of(trends, c.0) {
            None => rest.push(unmatched_line(kind, c)),
            Some(t) => if t != c.1 {
                rest.push(mistyped_line(kind, c, t))
            } else {
                rest
            },
        }
    }
}

/// The report lines about the trends that are not returned, in order.
pub open spec fn unreturned_issues(
    kind: Seq<char>,
    target: Seq<char>,
    trends: Seq<(Seq<char>, Seq<char>)>,
    returned: Seq<(Seq<char>, Seq<char>)>,
) -> Seq<Seq<char>>
    decreases trends.len(),
{
    if trends.len() == 0 {
        Seq::empty()
    } else {
        let rest = unreturned_issues(kind, target, trends.drop_last(), returned);
        if last_type_of(returned, trends.last().0) is None {
            rest.push(unreturned_line(kind, target, trends.last()))
        } else {
            rest
        }
    }
}

/// The report of the check of a materialization whose `kind` (`view` or `function`)
/// returns `returned` for the trend store part `target` with the trends `trends`.
pub open spec fn check_report(
    kind: Seq<char>,
    target: Seq<char>,
    returned: Seq<(Seq<char>, Seq<char>)>,
    trends: Seq<(Seq<char>, Seq<char>)>,
) -> Seq<Seq<char>> {
    returned_issues(kind, data_columns(returned), trends) + unreturned_issues(
        kind,
        target,
        trends,
        data_columns(returned),
    )
}

/// The names of a list of columns.
pub open spec fn column_names(columns: Seq<(Seq<char>, Seq<char>)>) -> Seq<Seq<char>> {
    columns.map_values(|c: (Seq<char>, Seq<char>)| c.0)
}

proof fn lemma_last_type_of_own(columns: Seq<(Seq<char>, Seq<char>)>, k: int)
    requires
        0 <= k < columns.len(),
        column_names(columns).no_duplicates(),
    ensures
        last_type_of(columns, columns[k].0) == Some(columns[k].1),
    decreases columns.len(),
{
    let names = column_names(columns);
    if k < columns.len() - 1 {
        assert(names[columns.len() - 1] != names[k]);
        assert(column_names(columns.drop_last()) =~= names.drop_last());
        assert(columns.drop_last()[k] == columns[k]);
        lemma_last_type_of_own(columns.drop_last(), k);
    }
}

proof fn lemma_clean_prefixes(
    kind: Seq<char>,
    target: Seq<char>,
    trends: Seq<(Seq<char>, Seq<char>)>,
    n: int,
)
    requires
        column_names(trends).no_duplicates(),
        0 <= n <= trends.len(),
    ensures
        returned_issues(kind, trends.take(n), trends) == Seq::<Seq<char>>::empty(),
        unreturned_issues(kind, target, trends.take(n), trends) == Seq::<Seq<char>>::empty(),
    decreases n,
{
    if n > 0 {
        lemma_clean_prefixes(kind, target, trends, n - 1);
        assert(trends.take(n).drop_last() =~= trends.take(n - 1));
        assert(trends.take(n).last() == trends[n - 1]);
        lemma_last_type_of_own(trends, n - 1);
    }
}

/// A materialization that returns, besides `entity_id` and `timestamp`, exactly the
/// trends of its target part, in order and under distinct names, gets an empty check
/// report.
pub proof fn lemma_check_report_clean(
    kind: Seq<char>,
    target: Seq<char>,
    returned: Seq<(Seq<char>, Seq<char>)>,
    trends: Seq<(Seq<char>, Seq<char>)>,
)
    requires
        data_columns(returned) == trends,
        column_names(trends).no_duplicates(),
    ensures
        check_report(kind, target, returned, trends) == Seq::<Seq<char>>::empty(),
{
    lemma_clean_prefixes(kind, target, trends, trends.len() as int);
    assert(trends.take(trends.len() as int) =~= trends);
    assert(check_report(kind, target, returned, trends) =~= Seq::<Seq<char>>::empty());
}

/// The data type of the last pair called `name`.
fn last_type_in(pairs: &Vec<(String, String)>, name: &String) -> (r: Option<String>)
    ensures
        match r {
            Some(t) => last_type_of(pairs_view(pairs@), name@) == Some(t@),
            None => last_type_of(pairs_view(pairs@), name@) is None,
        },
{
    let ghost v = pairs_view(pairs@);
    let mut i: usize = pairs.len();
    assert(v.take(i as int) =~= v);
    while i > 0
        invariant
            i <= pairs.len(),
            v == pairs_view(pairs@),
            last_type_of(v, name@) == last_type_of(v.take(i as int), name@),
        decreases i,
    {
        let ghost t = v.take(i as int);
        assert(t.drop_last() =~= v.take(i - 1));
        assert(t.last() == (pairs@[i - 1].0@, pairs@[i - 1].1@));
        if pairs[i - 1].0 == *name {
            return Some(pairs[i - 1].1.clone());
        }
        i = i - 1;
    }
    assert(v.take(0).len() == 0);
    None
}

/// Appends a string to a list of strings.
fn push_line(lines: &mut Vec<String>, line: String)
    ensures
        strings_view(final(lines)@) == strings_view(old(lines)@).push(line@),
{
    let ghost prev = lines@;
    lines.push(line);
    assert forall|j: int| 0 <= j < prev.len() implies strings_view(lines@)[j] == strings_view(prev)[j] by {
        assert(lines@[j] == prev[j]);
    }
    assert(strings_view(lines@) =~= strings_view(prev).push(line@));
}

/// Appends a pair to a list of pairs.
fn push_pair(pairs: &mut Vec<(String, String)>, pair: (String, String))
    ensures
        pairs_view(final(pairs)@) == pairs_view(old(pairs)@).push((pair.0@, pair.1@)),
{
    let ghost prev = pairs@;
    pairs.push(pair);
    assert forall|j: int| 0 <= j < prev.len() implies pairs_view(pairs@)[j] == pairs_view(prev)[j] by {
        assert(pairs@[j] == prev[j]);
    }
    assert(pairs_view(pairs@) =~= pairs_view(prev).push((pair.0@, pair.1@)));
}

/// Builds the text `Column '<name>'(<type>)`, the start of each report line.
fn column_intro(name: &str, data_type: &str) -> (r: String)
    ensures
        r@ == column_intro_text((name@, data_type@)),
{
    let mut s = "Column '".to_owned();
    s.append(name);
    s.append("'(");
    s.append(data_type);
    s.append(")");
    proof {
        reveal_strlit("Column '");
        reveal_strlit("'(");
        reveal_strlit(")");
    }
    s
}

/// Checks what a materialization returns against the trends of its trend store part:
/// a line for each returned column (other than `entity_id` and `timestamp`) without a
/// trend of that name or with another data type than its trend, then a line for each
/// trend that is not returned.
pub fn materialization_check_report(
    kind: &str,
    target: &str,
    returned: &Vec<ResultColumn>,
    trends: &Vec<TrendStorePartColumn>,
) -> (report: Vec<String>)
    ensures
        strings_view(report@) == check_report(
            kind@,
            target@,
            result_columns_view(returned@),
            part_columns_view(trends@),
        ),
{
    proof {
        reveal_strlit("entity_id");
        reveal_strlit("timestamp");
    }
    let ghost rv = result_columns_view(returned@);
    let ghost tv = part_columns_view(trends@);
    let mut data: Vec<(String, String)> = Vec::new();
    let mut i: usize = 0;
    while i < returned.len()
        invariant
            i <= returned.len(),
            rv == result_columns_view(returned@),
            pairs_view(data@) == data_columns(rv.take(i as int)),
        decreases returned.len() - i,
    {
        assert(rv.take(i + 1).drop_last() =~= rv.take(i as int));
        assert(rv.take(i + 1).last() == (returned@[i as int].name@, returned@[i as int].data_type@));
        if !same_text(&returned[i].name, "entity_id") && !same_text(&returned[i].name, "timestamp") {
            push_pair(&mut data, (returned[i].name.clone(), returned[i].data_type.clone()));
        }
        i = i + 1;
    }
    assert(rv.take(returned.len() as int) =~= rv);
    let mut trend_pairs: Vec<(String, String)> = Vec::new();
    let mut i: usize = 0;
    while i < trends.len()
        invariant
            i <= trends.len(),
            tv == part_columns_view(trends@),
            pairs_view(trend_pairs@) == tv.take(i as int),
        decreases trends.len() - i,
    {
        push_pair(&mut trend_pairs, (trends[i].name.clone(), trends[i].data_type.clone()));
        assert(pairs_view(trend_pairs@) =~= tv.take(i + 1));
        i = i + 1;
    }
    assert(tv.take(trends.len() as int) =~= tv);
    let ghost dv = data_columns(rv);
    let mut report: Vec<String> = Vec::new();
    let mut i: usize = 0;
    while i < data.len()
        invariant
            i <= data.len(),
            dv == pairs_view(data@),
            tv == pairs_view(trend_pairs@),
            strings_view(report@) == returned_issues(kind@, dv.take(i as int), tv),
        decreases data.len() - i,
    {
        assert(dv.take(i + 1).drop_last() =~= dv.take(i as int));
        assert(dv.take(i + 1).last() == (data@[i as int].0@, data@[i as int].1@));
        let name = &data[i].0;
        let data_type = &data[i].1;
        match last_type_in(&trend_pairs, name) {
            None => {
                let mut line = column_intro(name.as_str(), data_type.as_str());
                line.append(" is returned from ");
                line.append(kind);
                line.append(" but has no matching trend");
                push_line(&mut report, line);
                assert(strings_view(report@) =~= returned_issues(kind@, dv.take(i + 1), tv));
            },
            Some(t) => {
                if t != *data_type {
                    let mut line = column_intro(name.as_str(), data_type.as_str());
                    line.append(" returned from ");
                    line.append(kind);
                    line.append(" differs in type: '");
                    line.append(data_type.as_str());
                    line.append("' != '");
                    line.append(t.as_str());
                    line.append("' ");
                    push_line(&mut report, line);
                    assert(strings_view(report@) =~= returned_issues(kind@, dv.take(i + 1), tv));
                }
            },
        }
        i = i + 1;
    }
    assert(dv.take(data.len() as int) =~= dv);
    let ghost first = strings_view(report@);
    let mut i: usize = 0;
    while i < trend_pairs.len()
        invariant
            i <= trend_pairs.len(),
            dv == pairs_view(data@),
            tv == pairs_view(trend_pairs@),
            strings_view(report@) == first + unreturned_issues(kind@, target@, tv.take(i as int), dv),
        decreases trend_pairs.len() - i,
    {
        assert(tv.take(i + 1).drop_last() =~= tv.take(i as int));
        assert(tv.take(i + 1).last() == (trend_pairs@[i as int].0@, trend_pairs@[i as int].1@));
        let name = &trend_pairs[i].0;
        if last_type_in(&data, name).is_none() {
            let mut line = column_intro(name.as_str(), trend_pairs[i].1.as_str());
            line.append(" is defined as trend in trend store part '");
            line.append(target);
            line.append("' but is not returned from ");
            line.append(kind);
            push_line(&mut report, line);
            assert(strings_view(report@) =~= first + unreturned_issues(kind@, target@, tv.take(i + 1), dv));
        }
        i = i + 1;
    }
    assert(tv.take(trend_pairs.len() as int) =~= tv);
    report
}

/// Checks the columns that a view materialization's view returns against the trends of
/// its trend store part.
pub fn check_view_materialization_report(
    view_materialization: &TrendViewMaterialization,
    returned: &Vec<ResultColumn>,
    trends: &Vec<TrendStorePartColumn>,
) -> (report: Vec<String>)
    ensures
        strings_view(report@) == check_report(
            "view"@,
            view_materialization.target_trend_store_part@,
            result_columns_view(returned@),
            part_columns_view(trends@),
        ),
{
    proof {
        reveal_strlit("view");
    }
    materialization_check_report(
        "view",
        view_materialization.target_trend_store_part.as_str(),
        returned,
        trends,
    )
}

/// Checks the columns that a function materialization's function returns against the
/// trends of its trend store part.
pub fn check_function_materialization_report(
    function_materialization: &TrendFunctionMaterialization,
    returned: &Vec<ResultColumn>,
    trends: &Vec<TrendStorePartColumn>,
) -> (report: Vec<String>)
    ensures
        strings_view(report@) == check_report(
            "function"@,
            function_materialization.target_trend_store_part@,
            result_columns_view(returned@),
            part_columns_view(trends@),
        ),
{
    proof {
        reveal_strlit("function");
    }
    materialization_check_report(
        "function",
        function_materialization.target_trend_store_part.as_str(),
        returned,
        trends,
    )
}

/// Errors in loading a trend materialization from the database.
pub enum LoadTrendMaterializationError {
    NoSuchView(String),
    ParseError(String),
    Sources(String),
    MaterializationFunction(String),
    Configuration(String),
    Unexpected(String),
    NotFound(String),
}

impl LoadTrendMaterializationError {
    /// The message of the error.
    pub fn to_display_string(&self) -> (r: String)
        ensures
            r@ == match self {
                LoadTrendMaterializationError::NoSuchView(m) => "no such view '"@ + m@
                    + "' could be loaded"@,
                LoadTrendMaterializationError::ParseError(m) => "could not parse value from database: "@
                    + m@,
                LoadTrendMaterializationError::Sources(m) => "could not load materialization sources: "@
                    + m@,
                LoadTrendMaterializationError::MaterializationFunction(m) => "could not load materialization function: "@
                    + m@,
                LoadTrendMaterializationError::Configuration(m) => "invalid configuration: "@ + m@,
                LoadTrendMaterializationError::Unexpected(m) => "unexpected issue loading materialization: "@
                    + m@,
                LoadTrendMaterializationError::NotFound(m) => "could not find matching materialization: "@
                    + m@,
            },
    {
        proof {
            reveal_strlit("no such view '");
            reveal_strlit("' could be loaded");
            reveal_strlit("could not parse value from database: ");
            reveal_strlit("could not load materialization sources: ");
            reveal_strlit("could not load materialization function: ");
            reveal_strlit("invalid configuration: ");
            reveal_strlit("unexpected issue loading materialization: ");
            reveal_strlit("could not find matching materialization: ");
        }
        match self {
            LoadTrendMaterializationError::NoSuchView(m) => {
                let mut s = "no such view '".to_owned();
                s.append(m.as_str());
                s.append("' could be loaded");
                s
            },
            LoadTrendMaterializationError::ParseError(m) => {
                let mut s = "could not parse value from database: ".to_owned();
                s.append(m.as_str());
                s
            },
            LoadTrendMaterializationError::Sources(m) => {
                let mut s = "could not load materialization sources: ".to_owned();
                s.append(m.as_str());
                s
            },
            LoadTrendMaterializationError::MaterializationFunction(m) => {
                let mut s = "could not load materialization function: ".to_owned();
                s.append(m.as_str());
                s
            },
            LoadTrendMaterializationError::Configuration(m) => {
                let mut s = "invalid configuration: ".to_owned();
                s.append(m.as_str());
                s
            },
            LoadTrendMaterializationError::Unexpected(m) => {
                let mut s = "unexpected issue loading materialization: ".to_owned();
                s.append(m.as_str());
                s
            },
            LoadTrendMaterializationError::NotFound(m) => {
                let mut s = "could not find matching materialization: ".to_owned();
                s.append(m.as_str());
                s
            },
        }
    }
}


/// Whether two materializations differ in any of the settings that an attribute update
/// carries: enabled, processing delay, stability delay, reprocessing period, old data
/// threshold or old data stability delay.
pub open spec fn settings_changed(
    a_enabled: bool,
    a_delays: (Duration, Duration, Duration, Option<Duration>, Option<Duration>),
    b_enabled: bool,
    b_delays: (Duration, Duration, Duration, Option<Duration>, Option<Duration>),
) -> bool {
    a_enabled != b_enabled || a_delays.0 != b_delays.0 || a_delays.1 != b_delays.1 || a_delays.2
        != b_delays.2 || a_delays.3 != b_delays.3 || a_delays.4 != b_delays.4
}

/// Comparing two function materializations updates the attributes of the function
/// materialization to those of `other` exactly when the two differ in enabled, a delay,
/// the reprocessing period or an old-data setting, whatever their definitions.
pub proof fn lemma_function_diff_updates_attributes(
    m: TrendFunctionMaterializationView,
    o: TrendFunctionMaterializationView,
    my_tree: Seq<char>,
    other_tree: Seq<char>,
)
    ensures
        materialization_changes(
            TrendMaterializationView::Function(m),
            TrendMaterializationView::Function(o),
            my_tree,
            other_tree,
        ).contains(ChangeView::UpdateTrendFunctionMaterializationAttributes { materialization: o })
            <==> settings_changed(
            m.enabled,
            (m.processing_delay, m.stability_delay, m.reprocessing_period, m.old_data_threshold, m.old_data_stability_delay),
            o.enabled,
            (o.processing_delay, o.stability_delay, o.reprocessing_period, o.old_data_threshold, o.old_data_stability_delay),
        ),
{
    let x = ChangeView::UpdateTrendFunctionMaterializationAttributes { materialization: o };
    let c = materialization_changes(
        TrendMaterializationView::Function(m),
        TrendMaterializationView::Function(o),
        my_tree,
        other_tree,
    );
    let changed = settings_changed(
        m.enabled,
        (m.processing_delay, m.stability_delay, m.reprocessing_period, m.old_data_threshold, m.old_data_stability_delay),
        o.enabled,
        (o.processing_delay, o.stability_delay, o.reprocessing_period, o.old_data_threshold, o.old_data_stability_delay),
    );
    assert(changed <==> attributes_differ(function_settings(m), function_settings(o)));
    if changed {
        assert(c[c.len() - 1] == x);
    } else {
        assert forall|k: int| 0 <= k < c.len() implies c[k] != x by {
            assert(c[k] is UpdateFunction);
        }
    }
}

/// Comparing two view materializations updates the attributes of the view
/// materialization to those of `other` exactly when the two differ in enabled, a delay,
/// the reprocessing period or an old-data setting, whatever their fingerprints.
pub proof fn lemma_view_diff_updates_attributes(
    m: TrendViewMaterializationView,
    o: TrendViewMaterializationView,
    my_fingerprint: Seq<char>,
    other_fingerprint: Seq<char>,
)
    ensures
        materialization_changes(
            TrendMaterializationView::View(m),
            TrendMaterializationView::View(o),
            my_fingerprint,
            other_fingerprint,
        ).contains(ChangeView::UpdateTrendViewMaterializationAttributes { materialization: o })
            <==> settings_changed(
            m.enabled,
            (m.processing_delay, m.stability_delay, m.reprocessing_period, m.old_data_threshold, m.old_data_stability_delay),
            o.enabled,
            (o.processing_delay, o.stability_delay, o.reprocessing_period, o.old_data_threshold, o.old_data_stability_delay),
        ),
{
    let x = ChangeView::UpdateTrendViewMaterializationAttributes { materialization: o };
    let c = materialization_changes(
        TrendMaterializationView::View(m),
        TrendMaterializationView::View(o),
        my_fingerprint,
        other_fingerprint,
    );
    let changed = settings_changed(
        m.enabled,
        (m.processing_delay, m.stability_delay, m.reprocessing_period, m.old_data_threshold, m.old_data_stability_delay),
        o.enabled,
        (o.processing_delay, o.stability_delay, o.reprocessing_period, o.old_data_threshold, o.old_data_stability_delay),
    );
    assert(changed <==> attributes_differ(view_settings(m), view_settings(o)));
    if changed {
        assert(c[c.len() - 1] == x);
    } else {
        assert forall|k: int| 0 <= k < c.len() implies c[k] != x by {
            assert(c[k] is UpdateView);
        }
    }
}

/// Comparing two view materializations replaces the view exactly when the fingerprints
/// of their queries differ.
pub proof fn lemma_view_diff_replaces_view(
    m: TrendViewMaterializationView,
    o: TrendViewMaterializationView,
    my_fingerprint: Seq<char>,
    other_fingerprint: Seq<char>,
)
    ensures
        materialization_changes(
            TrendMaterializationView::View(m),
            TrendMaterializationView::View(o),
            my_fingerprint,
            other_fingerprint,
        ).contains(ChangeView::UpdateView { materialization: m }) <==> my_fingerprint != other_fingerprint,
{
    let c = materialization_changes(
        TrendMaterializationView::View(m),
        TrendMaterializationView::View(o),
        my_fingerprint,
        other_fingerprint,
    );
    if my_fingerprint != other_fingerprint {
        assert(c[0] == ChangeView::UpdateView { materialization: m });
    } else {
        assert forall|k: int| 0 <= k < c.len() implies c[k] != (ChangeView::UpdateView { materialization: m }) by {
            assert(c[k] is UpdateTrendViewMaterializationAttributes);
        }
    }
}

/// Comparing two function materializations replaces the function, with `other` and
/// its definition, unless the function of `mine` is written in PL/pgSQL and the parse
/// trees of the two definitions are equal; it is never replaced otherwise.
pub proof fn lemma_function_diff_replaces_function(
    m: TrendFunctionMaterializationView,
    o: TrendFunctionMaterializationView,
    my_tree: Seq<char>,
    other_tree: Seq<char>,
)
    ensures
        (exists|k: int|
            0 <= k < materialization_changes(
                TrendMaterializationView::Function(m),
                TrendMaterializationView::Function(o),
                my_tree,
                other_tree,
            ).len() && (#[trigger] materialization_changes(
                TrendMaterializationView::Function(m),
                TrendMaterializationView::Function(o),
                my_tree,
                other_tree,
            )[k] matches ChangeView::UpdateFunction { materialization, .. } && materialization == o))
            <==> !(lowercased(m.function.2) == "plpgsql"@ && my_tree == other_tree),
{
    let c = materialization_changes(
        TrendMaterializationView::Function(m),
        TrendMaterializationView::Function(o),
        my_tree,
        other_tree,
    );
    if !(lowercased(m.function.2) == "plpgsql"@ && my_tree == other_tree) {
        assert(c[0] matches ChangeView::UpdateFunction { materialization, .. } && materialization == o);
    } else {
        assert forall|k: int| 0 <= k < c.len() implies !(#[trigger] c[k] is UpdateFunction) by {
            assert(c[k] is UpdateTrendFunctionMaterializationAttributes);
        }
    }
}
} // verus!
