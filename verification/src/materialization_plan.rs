use vstd::prelude::*;

use serde_json::Value;

use crate::humantime_text::{format_duration_text, formatted_duration};
use crate::text::{
    decimal, escape_identifier, join, join_seqs, quote_ident, strings_view, u64_to_decimal,
};
use crate::time::Duration;
use crate::trend_materialization::{
    create_text_interval, fingerprint_function_name, fingerprint_name_of, function_definition_text,
    materialization_name, materialization_text, materialization_view_name, text_interval,
    view_name_of, AddTrendMaterialization, RemoveTrendMaterialization, TrendFunctionMaterialization,
    TrendMaterialization, TrendMaterializationSource, TrendViewMaterialization, UpdateFunction,
    UpdateTrendFunctionMaterializationAttributes, UpdateTrendMaterialization,
    UpdateTrendViewMaterializationAttributes, UpdateView,
};

use crate::sql::{
    bare_step, concat, params_view, text_step, SqlParam, SqlParamView, SqlStep, SqlStepView,
};

verus! {

/// One action of creating, changing or removing a trend materialization in the
/// database: a statement to run, or linking the materialization to the trend store
/// parts of its trend sources.
pub enum MaterializationAction {
    Run(SqlStep),
    ConnectSources,
}

/// An action, mathematically.
pub enum ActionView {
    Run(SqlStepView),
    ConnectSources,
}

impl View for MaterializationAction {
    type V = ActionView;

    open spec fn view(&self) -> ActionView {
        match self {
            MaterializationAction::Run(s) => ActionView::Run(s@),
            MaterializationAction::ConnectSources => ActionView::ConnectSources,
        }
    }
}

/// The views of actions.
pub open spec fn actions_view(actions: Seq<MaterializationAction>) -> Seq<ActionView> {
    actions.map_values(|a: MaterializationAction| a@)
}

/// What `serde_json::Value::String` makes of a text: the JSON string holding it.
pub uninterp spec fn json_string(text: Seq<char>) -> Value;

/// `serde_json::Value::String`, the JSON string value that holds `text`.
#[verifier::external_body]
fn json_string_value(text: String) -> (v: Value)
    ensures
        v == json_string(text@),
{
    Value::String(text)
}

/// What `serde_json` writes for a JSON value with `to_string`: its compact JSON text.
pub uninterp spec fn json_text(value: Value) -> Seq<char>;

/// `to_string` of a `serde_json::Value`, its compact JSON text, which depends on the
/// value alone.
#[verifier::external_body]
fn json_value_text(value: &Value) -> (text: String)
    ensures
        text@ == json_text(*value),
{
    value.to_string()
}

/// The description of a materialization as it is stored: the description, or the JSON
/// string `{}` where there is none.
pub open spec fn stored_description(description: Option<Value>) -> Value {
    match description {
        Some(v) => v,
        None => json_string("{}"@),
    }
}

/// The stored description of a materialization.
fn description_value(description: &Option<Value>) -> (v: Value)
    ensures
        v == stored_description(*description),
{
    proof {
        reveal_strlit("{}");
    }
    match description {
        Some(d) => crate::json::clone_json(d),
        None => json_string_value("{}".to_owned()),
    }
}

/// A span written by humantime.
pub open spec fn duration_text(d: Duration) -> Seq<char> {
    formatted_duration(d@.0, d@.1)
}

/// The statement that creates the view of a view materialization.
pub open spec fn create_view_step_view(target: Seq<char>, view: Seq<char>) -> SqlStepView {
    (
        "CREATE VIEW trend."@ + quote_ident(view_name_of(target)) + " AS "@ + view,
        Seq::empty(),
        "Error creating view"@,
    )
}

/// The statement that creates the view of a view materialization.
pub fn create_view_step(m: &TrendViewMaterialization) -> (s: SqlStep)
    ensures
        s@ == create_view_step_view(m.target_trend_store_part@, m.view@),
{
    let mut q = concat("CREATE VIEW trend.", escape_identifier(materialization_view_name(&m.target_trend_store_part).as_str()).as_str());
    q.append(" AS ");
    q.append(m.view.as_str());
    proof {
        reveal_strlit("CREATE VIEW trend.");
        reveal_strlit(" AS ");
        reveal_strlit("Error creating view");
    }
    bare_step(q, "Error creating view")
}

/// The statement that drops the view of the materialization called `name`, if it
/// exists.
pub open spec fn drop_view_step_view(name: Seq<char>) -> SqlStepView {
    ("DROP VIEW IF EXISTS trend."@ + quote_ident(view_name_of(name)), Seq::empty(), "Error dropping view"@)
}

/// The statement that drops the view of the materialization called `name`, if it
/// exists.
pub fn drop_view_step(name: &str) -> (s: SqlStep)
    ensures
        s@ == drop_view_step_view(name@),
{
    let q = concat("DROP VIEW IF EXISTS trend.", escape_identifier(materialization_view_name(name).as_str()).as_str());
    proof {
        reveal_strlit("DROP VIEW IF EXISTS trend.");
        reveal_strlit("Error dropping view");
    }
    bare_step(q, "Error dropping view")
}

/// The statement that creates the fingerprint function of the materialization called
/// `name` with the SQL body `body`.
pub open spec fn create_fingerprint_step_view(name: Seq<char>, body: Seq<char>) -> SqlStepView {
    (
        "CREATE FUNCTION trend."@ + quote_ident(fingerprint_name_of(name))
            + "(timestamp with time zone) RETURNS trend_directory.fingerprint AS $$\n"@ + body
            + "\n$$ LANGUAGE sql STABLE\n"@,
        Seq::empty(),
        "Error creating fingerprint function"@,
    )
}

/// The statement that creates the fingerprint function of the materialization called
/// `name` with the SQL body `body`.
pub fn create_fingerprint_step(name: &str, body: &str) -> (s: SqlStep)
    ensures
        s@ == create_fingerprint_step_view(name@, body@),
{
    let mut q = concat("CREATE FUNCTION trend.", escape_identifier(fingerprint_function_name(name).as_str()).as_str());
    q.append("(timestamp with time zone) RETURNS trend_directory.fingerprint AS $$\n");
    q.append(body);
    q.append("\n$$ LANGUAGE sql STABLE\n");
    proof {
        reveal_strlit("CREATE FUNCTION trend.");
        reveal_strlit("(timestamp with time zone) RETURNS trend_directory.fingerprint AS $$\n");
        reveal_strlit("\n$$ LANGUAGE sql STABLE\n");
        reveal_strlit("Error creating fingerprint function");
    }
    bare_step(q, "Error creating fingerprint function")
}

/// The statement that drops the fingerprint function of the materialization called
/// `name`, if it exists.
pub open spec fn drop_fingerprint_step_view(name: Seq<char>) -> SqlStepView {
    (
        "DROP FUNCTION IF EXISTS trend."@ + quote_ident(fingerprint_name_of(name)) + "(timestamp with time zone)"@,
        Seq::empty(),
        "Error dropping fingerprint function"@,
    )
}

/// The statement that drops the fingerprint function of the materialization called
/// `name`, if it exists.
pub fn drop_fingerprint_step(name: &str) -> (s: SqlStep)
    ensures
        s@ == drop_fingerprint_step_view(name@),
{
    let mut q = concat("DROP FUNCTION IF EXISTS trend.", escape_identifier(fingerprint_function_name(name).as_str()).as_str());
    q.append("(timestamp with time zone)");
    proof {
        reveal_strlit("DROP FUNCTION IF EXISTS trend.");
        reveal_strlit("(timestamp with time zone)");
        reveal_strlit("Error dropping fingerprint function");
    }
    bare_step(q, "Error dropping fingerprint function")
}

/// The settings a materialization is defined and updated with.
pub struct MaterializationSettings {
    pub target: String,
    pub enabled: bool,
    pub processing_delay: Duration,
    pub stability_delay: Duration,
    pub reprocessing_period: Duration,
    pub old_data_threshold: Option<Duration>,
    pub old_data_stability_delay: Option<Duration>,
    pub description: Option<Value>,
}

/// The statement that defines a materialization in the directory: `kind` is `view` or
/// `function`, `cast` the type its source is cast to and `source` its source.
pub open spec fn define_step_view(
    kind: Seq<char>,
    cast: Seq<char>,
    source: Seq<char>,
    settings: MaterializationSettings,
) -> SqlStepView {
    (
        "SELECT trend_directory.define_"@ + kind + "_materialization(id, $1::text::interval, $2::text::interval, $3::text::interval, $4::text::"@
            + cast + ", $5::jsonb, "@ + text_interval(settings.old_data_threshold) + ", "@ + text_interval(
            settings.old_data_stability_delay,
        ) + ") FROM trend_directory.trend_store_part WHERE name = $6"@,
        seq![
            SqlParamView::Text(duration_text(settings.processing_delay)),
            SqlParamView::Text(duration_text(settings.stability_delay)),
            SqlParamView::Text(duration_text(settings.reprocessing_period)),
            SqlParamView::Text(source),
            SqlParamView::Json(stored_description(settings.description)),
            SqlParamView::Text(settings.target@),
        ],
        "Error defining "@ + kind + " materialization"@,
    )
}

/// The statement that defines a materialization in the directory.
fn define_step(kind: &str, cast: &str, source: String, settings: &MaterializationSettings) -> (s: SqlStep)
    ensures
        s@ == define_step_view(kind@, cast@, source@, *settings),
{
    let mut q = concat("SELECT trend_directory.define_", kind);
    q.append("_materialization(id, $1::text::interval, $2::text::interval, $3::text::interval, $4::text::");
    q.append(cast);
    q.append(", $5::jsonb, ");
    q.append(create_text_interval(settings.old_data_threshold).as_str());
    q.append(", ");
    q.append(create_text_interval(settings.old_data_stability_delay).as_str());
    q.append(") FROM trend_directory.trend_store_part WHERE name = $6");
    let mut params: Vec<SqlParam> = Vec::new();
    params.push(SqlParam::Text(format_duration_text(settings.processing_delay)));
    params.push(SqlParam::Text(format_duration_text(settings.stability_delay)));
    params.push(SqlParam::Text(format_duration_text(settings.reprocessing_period)));
    params.push(SqlParam::Text(source));
    params.push(SqlParam::Json(description_value(&settings.description)));
    params.push(SqlParam::Text(settings.target.clone()));
    let mut failure = concat("Error defining ", kind);
    failure.append(" materialization");
    proof {
        reveal_strlit("SELECT trend_directory.define_");
        reveal_strlit("_materialization(id, $1::text::interval, $2::text::interval, $3::text::interval, $4::text::");
        reveal_strlit(", $5::jsonb, ");
        reveal_strlit(", ");
        reveal_strlit(") FROM trend_directory.trend_store_part WHERE name = $6");
        reveal_strlit("Error defining ");
        reveal_strlit(" materialization");
    }
    let s = SqlStep { statement: q, params, failure };
    assert(params_view(s.params@) =~= define_step_view(kind@, cast@, source@, *settings).1);
    s
}

/// The statement that updates the settings of a materialization; its description is
/// written into the statement as JSON text.
pub open spec fn update_attributes_step_view(settings: MaterializationSettings) -> SqlStepView {
    (
        "UPDATE trend_directory.materialization SET processing_delay = $1::text::interval, stability_delay = $2::text::interval, reprocessing_period = $3::text::interval, enabled = $4, description = '"@
            + json_text(stored_description(settings.description))
            + "'::jsonb, old_data_threshold = $5::text::interval, old_data_stability_delay = $6::text::interval WHERE materialization::text = $7"@,
        seq![
            SqlParamView::Text(duration_text(settings.processing_delay)),
            SqlParamView::Text(duration_text(settings.stability_delay)),
            SqlParamView::Text(duration_text(settings.reprocessing_period)),
            SqlParamView::Boolean(settings.enabled),
            SqlParamView::OptionalText(
                match settings.old_data_threshold {
                    Some(d) => Some(duration_text(d)),
                    None => None,
                },
            ),
            SqlParamView::OptionalText(
                match settings.old_data_stability_delay {
                    Some(d) => Some(duration_text(d)),
                    None => None,
                },
            ),
            SqlParamView::Text(settings.target@),
        ],
        "Error updating view materialization attributes"@,
    )
}

/// An optional span written by humantime.
fn optional_duration_text(d: Option<Duration>) -> (r: Option<String>)
    ensures
        r matches Some(t) ==> d matches Some(v) && t@ == duration_text(v),
        r is None ==> d is None,
{
    match d {
        Some(v) => Some(format_duration_text(v)),
        None => None,
    }
}

/// The statement that updates the settings of a materialization.
pub fn update_attributes_step(settings: &MaterializationSettings) -> (s: SqlStep)
    ensures
        s@ == update_attributes_step_view(*settings),
{
    let mut q = "UPDATE trend_directory.materialization SET processing_delay = $1::text::interval, stability_delay = $2::text::interval, reprocessing_period = $3::text::interval, enabled = $4, description = '".to_owned();
    q.append(json_value_text(&description_value(&settings.description)).as_str());
    q.append("'::jsonb, old_data_threshold = $5::text::interval, old_data_stability_delay = $6::text::interval WHERE materialization::text = $7");
    let mut params: Vec<SqlParam> = Vec::new();
    params.push(SqlParam::Text(format_duration_text(settings.processing_delay)));
    params.push(SqlParam::Text(format_duration_text(settings.stability_delay)));
    params.push(SqlParam::Text(format_duration_text(settings.reprocessing_period)));
    params.push(SqlParam::Boolean(settings.enabled));
    params.push(SqlParam::OptionalText(optional_duration_text(settings.old_data_threshold)));
    params.push(SqlParam::OptionalText(optional_duration_text(settings.old_data_stability_delay)));
    params.push(SqlParam::Text(settings.target.clone()));
    proof {
        reveal_strlit("UPDATE trend_directory.materialization SET processing_delay = $1::text::interval, stability_delay = $2::text::interval, reprocessing_period = $3::text::interval, enabled = $4, description = '");
        reveal_strlit("'::jsonb, old_data_threshold = $5::text::interval, old_data_stability_delay = $6::text::interval WHERE materialization::text = $7");
        reveal_strlit("Error updating view materialization attributes");
    }
    let s = SqlStep { statement: q, params, failure: "Error updating view materialization attributes".to_owned() };
    assert(params_view(s.params@) =~= update_attributes_step_view(*settings).1);
    s
}

/// The statement that enables the materialization of the trend store part `target`.
pub open spec fn enable_step_view(target: Seq<char>) -> SqlStepView {
    (
        "UPDATE trend_directory.materialization AS m SET enabled = true FROM trend_directory.trend_store_part AS dtsp WHERE m.dst_trend_store_part_id = dtsp.id AND dtsp.name = $1"@,
        seq![SqlParamView::Text(target)],
        "Unable to enable materialization"@,
    )
}

/// The statement that enables the materialization of the trend store part `target`.
pub fn enable_step(target: &str) -> (s: SqlStep)
    ensures
        s@ == enable_step_view(target@),
{
    proof {
        reveal_strlit("UPDATE trend_directory.materialization AS m SET enabled = true FROM trend_directory.trend_store_part AS dtsp WHERE m.dst_trend_store_part_id = dtsp.id AND dtsp.name = $1");
        reveal_strlit("Unable to enable materialization");
    }
    text_step(
        "UPDATE trend_directory.materialization AS m SET enabled = true FROM trend_directory.trend_store_part AS dtsp WHERE m.dst_trend_store_part_id = dtsp.id AND dtsp.name = $1".to_owned(),
        target.to_owned(),
        "Unable to enable materialization",
    )
}

/// The name of the view of a view materialization, qualified and quoted.
pub open spec fn view_ident(target: Seq<char>) -> Seq<char> {
    "trend."@ + quote_ident(view_name_of(target))
}

/// The name of the view of a view materialization, qualified and quoted.
fn view_ident_text(target: &str) -> (r: String)
    ensures
        r@ == view_ident(target@),
{
    proof {
        reveal_strlit("trend.");
    }
    concat("trend.", escape_identifier(materialization_view_name(target).as_str()).as_str())
}

/// The statement that records the view of a view materialization in the directory.
pub open spec fn init_view_step_view(target: Seq<char>) -> SqlStepView {
    (
        "INSERT INTO trend_directory.view_materialization(materialization_id, src_view) SELECT m.id, $2::text::regclass FROM trend_directory.materialization m JOIN trend_directory.trend_store_part dstp ON m.dst_trend_store_part_id = dstp.id WHERE dstp.name = $1"@,
        seq![SqlParamView::Text(target), SqlParamView::Text(view_ident(target))],
        "Error initializing view materialization"@,
    )
}

/// The statement that records the view of a view materialization in the directory.
pub fn init_view_step(target: &str) -> (s: SqlStep)
    ensures
        s@ == init_view_step_view(target@),
{
    let mut params: Vec<SqlParam> = Vec::new();
    params.push(SqlParam::Text(target.to_owned()));
    params.push(SqlParam::Text(view_ident_text(target)));
    proof {
        reveal_strlit("INSERT INTO trend_directory.view_materialization(materialization_id, src_view) SELECT m.id, $2::text::regclass FROM trend_directory.materialization m JOIN trend_directory.trend_store_part dstp ON m.dst_trend_store_part_id = dstp.id WHERE dstp.name = $1");
        reveal_strlit("Error initializing view materialization");
    }
    let s = SqlStep {
        statement: "INSERT INTO trend_directory.view_materialization(materialization_id, src_view) SELECT m.id, $2::text::regclass FROM trend_directory.materialization m JOIN trend_directory.trend_store_part dstp ON m.dst_trend_store_part_id = dstp.id WHERE dstp.name = $1".to_owned(),
        params,
        failure: "Error initializing view materialization".to_owned(),
    };
    assert(params_view(s.params@) =~= init_view_step_view(target@).1);
    s
}

/// The settings of a view materialization.
pub open spec fn view_settings_of(m: TrendViewMaterialization) -> MaterializationSettings {
    MaterializationSettings {
        target: m.target_trend_store_part,
        enabled: m.enabled,
        processing_delay: m.processing_delay,
        stability_delay: m.stability_delay,
        reprocessing_period: m.reprocessing_period,
        old_data_threshold: m.old_data_threshold,
        old_data_stability_delay: m.old_data_stability_delay,
        description: m.description,
    }
}

/// The settings of a function materialization.
pub open spec fn function_settings_of(m: TrendFunctionMaterialization) -> MaterializationSettings {
    MaterializationSettings {
        target: m.target_trend_store_part,
        enabled: m.enabled,
        processing_delay: m.processing_delay,
        stability_delay: m.stability_delay,
        reprocessing_period: m.reprocessing_period,
        old_data_threshold: m.old_data_threshold,
        old_data_stability_delay: m.old_data_stability_delay,
        description: m.description,
    }
}

/// Whether two settings are the same, as the statements see them.
pub open spec fn same_settings(a: MaterializationSettings, b: MaterializationSettings) -> bool {
    &&& a.target@ == b.target@
    &&& a.enabled == b.enabled
    &&& a.processing_delay == b.processing_delay
    &&& a.stability_delay == b.stability_delay
    &&& a.reprocessing_period == b.reprocessing_period
    &&& a.old_data_threshold == b.old_data_threshold
    &&& a.old_data_stability_delay == b.old_data_stability_delay
    &&& a.description == b.description
}

/// The settings of a view materialization.
fn view_settings(m: &TrendViewMaterialization) -> (s: MaterializationSettings)
    ensures
        same_settings(s, view_settings_of(*m)),
{
    MaterializationSettings {
        target: m.target_trend_store_part.clone(),
        enabled: m.enabled,
        processing_delay: m.processing_delay,
        stability_delay: m.stability_delay,
        reprocessing_period: m.reprocessing_period,
        old_data_threshold: m.old_data_threshold,
        old_data_stability_delay: m.old_data_stability_delay,
        description: crate::trend_materialization::duplicate_description(&m.description),
    }
}

/// The settings of a function materialization.
fn function_settings(m: &TrendFunctionMaterialization) -> (s: MaterializationSettings)
    ensures
        same_settings(s, function_settings_of(*m)),
{
    MaterializationSettings {
        target: m.target_trend_store_part.clone(),
        enabled: m.enabled,
        processing_delay: m.processing_delay,
        stability_delay: m.stability_delay,
        reprocessing_period: m.reprocessing_period,
        old_data_threshold: m.old_data_threshold,
        old_data_stability_delay: m.old_data_stability_delay,
        description: crate::trend_materialization::duplicate_description(&m.description),
    }
}

/// The statement that defines a view materialization in the directory.
pub open spec fn define_view_step_view(m: TrendViewMaterialization) -> SqlStepView {
    define_step_view("view"@, "regclass"@, view_ident(m.target_trend_store_part@), view_settings_of(m))
}

/// The statement that defines a view materialization in the directory.
pub fn define_view_step(m: &TrendViewMaterialization) -> (s: SqlStep)
    ensures
        s@ == define_view_step_view(*m),
{
    proof {
        reveal_strlit("view");
        reveal_strlit("regclass");
    }
    let settings = view_settings(m);
    let s = define_step("view", "regclass", view_ident_text(m.target_trend_store_part.as_str()), &settings);
    assert(define_step_view("view"@, "regclass"@, view_ident(m.target_trend_store_part@), settings)
        == define_step_view("view"@, "regclass"@, view_ident(m.target_trend_store_part@), view_settings_of(*m)));
    s
}

/// The function of a function materialization, qualified, quoted and with its
/// argument type.
pub open spec fn function_signature(target: Seq<char>) -> Seq<char> {
    "trend."@ + quote_ident(target) + "(timestamp with time zone)"@
}

/// The function of a function materialization, qualified, quoted and with its
/// argument type.
fn function_signature_text(target: &str) -> (r: String)
    ensures
        r@ == function_signature(target@),
{
    let mut s = concat("trend.", escape_identifier(target).as_str());
    s.append("(timestamp with time zone)");
    proof {
        reveal_strlit("trend.");
        reveal_strlit("(timestamp with time zone)");
    }
    s
}

/// The statement that defines a function materialization in the directory.
pub open spec fn define_function_step_view(m: TrendFunctionMaterialization) -> SqlStepView {
    define_step_view(
        "function"@,
        "regprocedure"@,
        function_signature(m.target_trend_store_part@),
        function_settings_of(m),
    )
}

/// The statement that defines a function materialization in the directory.
pub fn define_function_step(m: &TrendFunctionMaterialization) -> (s: SqlStep)
    ensures
        s@ == define_function_step_view(*m),
{
    proof {
        reveal_strlit("function");
        reveal_strlit("regprocedure");
    }
    let settings = function_settings(m);
    let s = define_step("function", "regprocedure", function_signature_text(m.target_trend_store_part.as_str()), &settings);
    assert(define_step_view("function"@, "regprocedure"@, function_signature(m.target_trend_store_part@), settings)
        == define_function_step_view(*m));
    s
}

/// The statement that creates the function of a function materialization.
pub open spec fn create_function_step_view(m: TrendFunctionMaterialization) -> SqlStepView {
    (function_definition_text(m.function@, m.target_trend_store_part@), Seq::empty(), "Error creating function"@)
}

/// The statement that creates the function of a function materialization.
pub fn create_function_step(m: &TrendFunctionMaterialization) -> (s: SqlStep)
    ensures
        s@ == create_function_step_view(*m),
{
    proof {
        reveal_strlit("Error creating function");
    }
    bare_step(m.complete_function_definition(), "Error creating function")
}

/// The statement that drops the function of a function materialization.
pub open spec fn drop_function_step_view(target: Seq<char>) -> SqlStepView {
    ("DROP FUNCTION "@ + function_signature(target), Seq::empty(), "Error dropping function"@)
}

/// The statement that drops the function of a function materialization.
pub fn drop_function_step(target: &str) -> (s: SqlStep)
    ensures
        s@ == drop_function_step_view(target@),
{
    proof {
        reveal_strlit("DROP FUNCTION ");
        reveal_strlit("Error dropping function");
    }
    bare_step(concat("DROP FUNCTION ", function_signature_text(target).as_str()), "Error dropping function")
}

/// The statement that deletes the directory record of a materialization.
pub open spec fn delete_record_step_view(target: Seq<char>) -> SqlStepView {
    (
        "DELETE FROM trend_directory.materialization WHERE materialization::text = $1"@,
        seq![SqlParamView::Text(target)],
        "Error deleting view materialization"@,
    )
}

/// The statement that deletes the directory record of a materialization.
pub fn delete_record_step(target: &str) -> (s: SqlStep)
    ensures
        s@ == delete_record_step_view(target@),
{
    proof {
        reveal_strlit("DELETE FROM trend_directory.materialization WHERE materialization::text = $1");
        reveal_strlit("Error deleting view materialization");
    }
    text_step(
        "DELETE FROM trend_directory.materialization WHERE materialization::text = $1".to_owned(),
        target.to_owned(),
        "Error deleting view materialization",
    )
}

/// The statement that removes the links of a materialization to its sources; the name
/// is written into the statement as it is.
pub open spec fn remove_old_sources_step_view(target: Seq<char>) -> SqlStepView {
    (
        "DELETE FROM trend_directory.materialization_trend_store_link tsl USING trend_directory.materialization m JOIN trend_directory.trend_store_part dstp ON m.dst_trend_store_part_id = dstp.id WHERE dstp.name = '"@
            + target + "' AND tsl.materialization_id = m.id"@,
        Seq::empty(),
        "Error removing old sources"@,
    )
}

/// The statement that removes the links of a materialization to its sources.
pub fn remove_old_sources_step(target: &str) -> (s: SqlStep)
    ensures
        s@ == remove_old_sources_step_view(target@),
{
    let mut q = concat(
        "DELETE FROM trend_directory.materialization_trend_store_link tsl USING trend_directory.materialization m JOIN trend_directory.trend_store_part dstp ON m.dst_trend_store_part_id = dstp.id WHERE dstp.name = '",
        target,
    );
    q.append("' AND tsl.materialization_id = m.id");
    proof {
        reveal_strlit("DELETE FROM trend_directory.materialization_trend_store_link tsl USING trend_directory.materialization m JOIN trend_directory.trend_store_part dstp ON m.dst_trend_store_part_id = dstp.id WHERE dstp.name = '");
        reveal_strlit("' AND tsl.materialization_id = m.id");
        reveal_strlit("Error removing old sources");
    }
    bare_step(q, "Error removing old sources")
}

/// The statement that removes the links of a materialization to its sources, with the
/// name as a parameter.
pub open spec fn unlink_sources_step_view(name: Seq<char>) -> SqlStepView {
    (
        "DELETE FROM trend_directory.materialization_trend_store_link tsl USING trend_directory.materialization m JOIN trend_directory.trend_store_part dstp ON m.dst_trend_store_part_id = dstp.id WHERE tsl.materialization_id = m.id AND dstp.name = $1"@,
        seq![SqlParamView::Text(name)],
        "Error removing materialization_trend_store_link records"@,
    )
}

/// The statement that removes the links of a materialization to its sources, with the
/// name as a parameter.
pub fn unlink_sources_step(name: &str) -> (s: SqlStep)
    ensures
        s@ == unlink_sources_step_view(name@),
{
    proof {
        reveal_strlit("DELETE FROM trend_directory.materialization_trend_store_link tsl USING trend_directory.materialization m JOIN trend_directory.trend_store_part dstp ON m.dst_trend_store_part_id = dstp.id WHERE tsl.materialization_id = m.id AND dstp.name = $1");
        reveal_strlit("Error removing materialization_trend_store_link records");
    }
    text_step(
        "DELETE FROM trend_directory.materialization_trend_store_link tsl USING trend_directory.materialization m JOIN trend_directory.trend_store_part dstp ON m.dst_trend_store_part_id = dstp.id WHERE tsl.materialization_id = m.id AND dstp.name = $1".to_owned(),
        name.to_owned(),
        "Error removing materialization_trend_store_link records",
    )
}

/// The statements that tear down what implements a materialization, keeping its record
/// and state: its view and function records, its source links and its fingerprint
/// function.
pub open spec fn teardown_steps_view(name: Seq<char>) -> Seq<SqlStepView> {
    seq![
        (
            "DELETE FROM trend_directory.view_materialization vm USING trend_directory.materialization m JOIN trend_directory.trend_store_part dstp ON m.dst_trend_store_part_id = dstp.id WHERE m.id = vm.materialization_id AND dstp.name = $1"@,
            seq![SqlParamView::Text(name)],
            "Error removing view_materialization record"@,
        ),
        (
            "DELETE FROM trend_directory.function_materialization fm USING trend_directory.materialization m JOIN trend_directory.trend_store_part dstp ON m.dst_trend_store_part_id = dstp.id WHERE m.id = fm.materialization_id AND dstp.name = $1"@,
            seq![SqlParamView::Text(name)],
            "Error removing function_materialization record"@,
        ),
        unlink_sources_step_view(name),
        (
            drop_fingerprint_step_view(name).0,
            Seq::empty(),
            "Error dropping fingerprint function '"@ + fingerprint_name_of(name) + "'"@,
        ),
    ]
}

/// The views of statements.
pub open spec fn steps_view(steps: Seq<SqlStep>) -> Seq<SqlStepView> {
    steps.map_values(|s: SqlStep| s@)
}

/// The statements that tear down what implements a materialization.
pub fn teardown_steps(name: &str) -> (r: Vec<SqlStep>)
    ensures
        steps_view(r@) == teardown_steps_view(name@),
{
    let mut r: Vec<SqlStep> = Vec::new();
    proof {
        reveal_strlit("DELETE FROM trend_directory.view_materialization vm USING trend_directory.materialization m JOIN trend_directory.trend_store_part dstp ON m.dst_trend_store_part_id = dstp.id WHERE m.id = vm.materialization_id AND dstp.name = $1");
        reveal_strlit("Error removing view_materialization record");
        reveal_strlit("DELETE FROM trend_directory.function_materialization fm USING trend_directory.materialization m JOIN trend_directory.trend_store_part dstp ON m.dst_trend_store_part_id = dstp.id WHERE m.id = fm.materialization_id AND dstp.name = $1");
        reveal_strlit("Error removing function_materialization record");
        reveal_strlit("Error dropping fingerprint function '");
        reveal_strlit("'");
    }
    r.push(
        text_step(
            "DELETE FROM trend_directory.view_materialization vm USING trend_directory.materialization m JOIN trend_directory.trend_store_part dstp ON m.dst_trend_store_part_id = dstp.id WHERE m.id = vm.materialization_id AND dstp.name = $1".to_owned(),
            name.to_owned(),
            "Error removing view_materialization record",
        ),
    );
    r.push(
        text_step(
            "DELETE FROM trend_directory.function_materialization fm USING trend_directory.materialization m JOIN trend_directory.trend_store_part dstp ON m.dst_trend_store_part_id = dstp.id WHERE m.id = fm.materialization_id AND dstp.name = $1".to_owned(),
            name.to_owned(),
            "Error removing function_materialization record",
        ),
    );
    r.push(unlink_sources_step(name));
    let mut drop = drop_fingerprint_step(name);
    let mut failure = concat("Error dropping fingerprint function '", fingerprint_function_name(name).as_str());
    failure.append("'");
    drop.failure = failure;
    r.push(drop);
    assert(steps_view(r@) =~= teardown_steps_view(name@));
    r
}

/// The statement that sets the source fingerprint of each state of a materialization
/// from its fingerprint function; the name is written into the statement as it is.
pub open spec fn reset_fingerprint_step_view(name: Seq<char>) -> SqlStepView {
    (
        "UPDATE trend_directory.materialization_state nms SET source_fingerprint = (trend.\""@ + name
            + "_fingerprint\"(ms.timestamp)).body FROM trend_directory.materialization_state ms JOIN trend_directory.materialization m ON ms.materialization_id = m.id WHERE m::text = $1 AND nms.materialization_id = m.id AND nms.timestamp = ms.timestamp"@,
        seq![SqlParamView::Text(name)],
        "Error loading trend materializations"@,
    )
}

/// The statement that sets the source fingerprint of each state of a materialization.
pub fn reset_fingerprint_step(name: &str) -> (s: SqlStep)
    ensures
        s@ == reset_fingerprint_step_view(name@),
{
    let mut q = concat("UPDATE trend_directory.materialization_state nms SET source_fingerprint = (trend.\"", name);
    q.append("_fingerprint\"(ms.timestamp)).body FROM trend_directory.materialization_state ms JOIN trend_directory.materialization m ON ms.materialization_id = m.id WHERE m::text = $1 AND nms.materialization_id = m.id AND nms.timestamp = ms.timestamp");
    proof {
        reveal_strlit("UPDATE trend_directory.materialization_state nms SET source_fingerprint = (trend.\"");
        reveal_strlit("_fingerprint\"(ms.timestamp)).body FROM trend_directory.materialization_state ms JOIN trend_directory.materialization m ON ms.materialization_id = m.id WHERE m::text = $1 AND nms.materialization_id = m.id AND nms.timestamp = ms.timestamp");
        reveal_strlit("Error loading trend materializations");
    }
    text_step(q, name.to_owned(), "Error loading trend materializations")
}

/// Errors in setting the source fingerprints of a materialization.
pub enum PopulateSourceFingerprintError {
    SourcesLoading(String),
    NoSources,
    FingerprintUpdating(String),
}

impl PopulateSourceFingerprintError {
    /// The message of the error.
    pub fn to_display_string(&self) -> (r: String)
        ensures
            r@ == match self {
                PopulateSourceFingerprintError::SourcesLoading(m) => "Could not load materialization sources: "@ + m@,
                PopulateSourceFingerprintError::NoSources => "No sources found for materialization"@,
                PopulateSourceFingerprintError::FingerprintUpdating(m) => "Could not update fingerprints: "@ + m@,
            },
    {
        proof {
            reveal_strlit("Could not load materialization sources: ");
            reveal_strlit("No sources found for materialization");
            reveal_strlit("Could not update fingerprints: ");
        }
        match self {
            PopulateSourceFingerprintError::SourcesLoading(m) => concat("Could not load materialization sources: ", m.as_str()),
            PopulateSourceFingerprintError::NoSources => "No sources found for materialization".to_owned(),
            PopulateSourceFingerprintError::FingerprintUpdating(m) => concat("Could not update fingerprints: ", m.as_str()),
        }
    }
}

/// The name of the common table expression of the source at `index` (from 0):
/// `source_1`, `source_2`, ...
pub open spec fn cte_name(index: int) -> Seq<char> {
    "source_"@ + decimal((index + 1) as nat)
}

/// The common table expression of a source, given by its timestamp mapping function
/// and its trend store part: the timestamps that it maps to.
pub open spec fn source_cte(index: int, source: (Seq<char>, Seq<char>)) -> Seq<char> {
    cte_name(index) + " AS (select "@ + source.0 + "(timestamp) AS timestamp from trend."@ + quote_ident(source.1)
        + " group by timestamp)"@
}

/// The part of the query for the source at `index`: the first selects the fingerprint
/// update from its timestamps, each other joins its timestamps to those of the first.
pub open spec fn source_part(index: int) -> Seq<char> {
    if index == 0 {
        "SELECT trend_directory.update_source_fingerprint(m.id, source_1.timestamp) FROM source_1"@
    } else {
        "JOIN "@ + cte_name(index) + " ON source_1.timestamp = "@ + cte_name(index) + ".timestamp"@
    }
}

/// The query that updates the source fingerprints of a materialization (its name is
/// the first parameter) for the timestamps that all its sources map to.
pub open spec fn fingerprint_query_text(sources: Seq<(Seq<char>, Seq<char>)>) -> Seq<char> {
    "WITH "@ + join_seqs(Seq::new(sources.len(), |i: int| source_cte(i, sources[i])), ","@) + " "@ + join_seqs(
        Seq::new(sources.len(), |i: int| source_part(i)),
        " "@,
    ) + ", trend_directory.materialization m WHERE m::text = $1"@
}

/// Pairs of texts, mathematically.
pub open spec fn pairs_of(v: Seq<(String, String)>) -> Seq<(Seq<char>, Seq<char>)> {
    v.map_values(|p: (String, String)| (p.0@, p.1@))
}

/// The name of the common table expression of the source at `index`.
fn cte_name_text(index: usize) -> (r: String)
    requires
        index < u64::MAX,
    ensures
        r@ == cte_name(index as int),
{
    proof {
        reveal_strlit("source_");
    }
    concat("source_", u64_to_decimal(index as u64 + 1).as_str())
}

/// The query that updates the source fingerprints of a materialization whose sources
/// are given by timestamp mapping function and trend store part; a materialization
/// without sources is refused.
pub fn source_fingerprint_query(sources: &Vec<(String, String)>) -> (r: Result<String, PopulateSourceFingerprintError>)
    ensures
        sources.len() == 0 <==> r matches Err(PopulateSourceFingerprintError::NoSources),
        sources.len() > 0 ==> (r matches Ok(q) && q@ == fingerprint_query_text(pairs_of(sources@))),
{
    if sources.len() == 0 {
        return Err(PopulateSourceFingerprintError::NoSources);
    }
    let ghost v = pairs_of(sources@);
    let mut ctes: Vec<String> = Vec::new();
    let mut parts: Vec<String> = Vec::new();
    let mut i: usize = 0;
    proof {
        reveal_strlit(" AS (select ");
        reveal_strlit("(timestamp) AS timestamp from trend.");
        reveal_strlit(" group by timestamp)");
        reveal_strlit("SELECT trend_directory.update_source_fingerprint(m.id, source_1.timestamp) FROM source_1");
        reveal_strlit("JOIN ");
        reveal_strlit(" ON source_1.timestamp = ");
        reveal_strlit(".timestamp");
    }
    while i < sources.len()
        invariant
            i <= sources.len(),
            v == pairs_of(sources@),
            ctes.len() == i,
            parts.len() == i,
            strings_view(ctes@) == Seq::new(i as nat, |k: int| source_cte(k, v[k])),
            strings_view(parts@) == Seq::new(i as nat, |k: int| source_part(k)),
        decreases sources.len() - i,
    {
        let name = cte_name_text(i);
        let mut cte = concat(name.as_str(), " AS (select ");
        cte.append(sources[i].0.as_str());
        cte.append("(timestamp) AS timestamp from trend.");
        cte.append(escape_identifier(sources[i].1.as_str()).as_str());
        cte.append(" group by timestamp)");
        let part = if i == 0 {
            "SELECT trend_directory.update_source_fingerprint(m.id, source_1.timestamp) FROM source_1".to_owned()
        } else {
            let mut p = concat("JOIN ", name.as_str());
            p.append(" ON source_1.timestamp = ");
            p.append(name.as_str());
            p.append(".timestamp");
            p
        };
        let ghost prev_ctes = ctes@;
        let ghost prev_parts = parts@;
        assert(v[i as int] == (sources@[i as int].0@, sources@[i as int].1@));
        assert(cte@ == source_cte(i as int, v[i as int]));
        assert(part@ == source_part(i as int));
        let ghost cte_v = cte@;
        let ghost part_v = part@;
        ctes.push(cte);
        parts.push(part);
        proof {
            assert(v[i as int] == (sources@[i as int].0@, sources@[i as int].1@));
            assert forall|k: int| 0 <= k < prev_ctes.len() implies strings_view(ctes@)[k] == strings_view(prev_ctes)[k] by {
                assert(ctes@[k] == prev_ctes[k]);
            }
            assert forall|k: int| 0 <= k < prev_parts.len() implies strings_view(parts@)[k] == strings_view(prev_parts)[k] by {
                assert(parts@[k] == prev_parts[k]);
            }
            assert(ctes@[i as int]@ == cte_v);
            assert(parts@[i as int]@ == part_v);
            assert forall|k: int| 0 <= k < i + 1 implies strings_view(ctes@)[k] == Seq::new((i + 1) as nat, |j: int| source_cte(j, v[j]))[k] by {
                if k < i {
                    assert(strings_view(prev_ctes)[k] == Seq::new(i as nat, |j: int| source_cte(j, v[j]))[k]);
                }
            }
            assert forall|k: int| 0 <= k < i + 1 implies strings_view(parts@)[k] == Seq::new((i + 1) as nat, |j: int| source_part(j))[k] by {
                if k < i {
                    assert(strings_view(prev_parts)[k] == Seq::new(i as nat, |j: int| source_part(j))[k]);
                }
            }
            assert(strings_view(ctes@) =~= Seq::new((i + 1) as nat, |k: int| source_cte(k, v[k])));
            assert(strings_view(parts@) =~= Seq::new((i + 1) as nat, |k: int| source_part(k)));
        }
        i = i + 1;
    }
    let mut q = concat("WITH ", join(&ctes, ",").as_str());
    q.append(" ");
    q.append(join(&parts, " ").as_str());
    q.append(", trend_directory.materialization m WHERE m::text = $1");
    proof {
        reveal_strlit("WITH ");
        reveal_strlit(",");
        reveal_strlit(" ");
        reveal_strlit(", trend_directory.materialization m WHERE m::text = $1");
        assert(Seq::new(sources.len() as nat, |k: int| source_cte(k, v[k])) =~= Seq::new(
            v.len(),
            |k: int| source_cte(k, v[k]),
        ));
        assert(Seq::new(sources.len() as nat, |k: int| source_part(k)) =~= Seq::new(v.len(), |k: int| source_part(k)));
    }
    Ok(q)
}

/// The outcome of removing a materialization's record that deleted `deleted` records:
/// exactly one must have been deleted.
pub fn removal_outcome(deleted: u64) -> (r: Result<(), String>)
    ensures
        deleted == 1 <==> r is Ok,
        deleted == 0 ==> (r matches Err(m) && m@ == "No materializations deleted"@),
        deleted > 1 ==> (r matches Err(m) && m@ == "More than 1 materialization deleted ("@ + decimal(
            deleted as nat,
        ) + ")"@),
{
    proof {
        reveal_strlit("No materializations deleted");
        reveal_strlit("More than 1 materialization deleted (");
        reveal_strlit(")");
    }
    if deleted == 1 {
        Ok(())
    } else if deleted == 0 {
        Err("No materializations deleted".to_owned())
    } else {
        let mut m = concat("More than 1 materialization deleted (", u64_to_decimal(deleted).as_str());
        m.append(")");
        Err(m)
    }
}

/// The query for the id of the materialization of a trend store part.
pub const MATERIALIZATION_ID_QUERY: &'static str = "SELECT m.id FROM trend_directory.materialization m JOIN trend_directory.trend_store_part dstp ON m.dst_trend_store_part_id = dstp.id WHERE dstp.name = $1";

/// The query for the id of a trend store part.
pub const TREND_STORE_PART_ID_QUERY: &'static str = "SELECT id FROM trend_directory.trend_store_part WHERE name = $1";

/// The statement that links a materialization ($2) to a source trend store part ($3)
/// with a timestamp mapping function ($1).
pub const LINK_SOURCE_STATEMENT: &'static str = "INSERT INTO trend_directory.materialization_trend_store_link(materialization_id, trend_store_part_id, timestamp_mapping_func) VALUES ($2, $3, $1::regprocedure)";

/// Errors in linking a materialization to its sources.
pub enum ConnectMaterializationSourcesError {
    NoSuchMaterialization(String),
    NoSuchSourceTrendStorePart(String),
    Database(String),
    NoLinkInserted,
}

impl ConnectMaterializationSourcesError {
    /// The message of the error.
    pub fn to_display_string(&self) -> (r: String)
        ensures
            r@ == match self {
                ConnectMaterializationSourcesError::NoSuchMaterialization(n) => "No materialization matching target trend store part '"@
                    + n@ + "'"@,
                ConnectMaterializationSourcesError::NoSuchSourceTrendStorePart(n) => "No such source trend store part '"@
                    + n@ + "'"@,
                ConnectMaterializationSourcesError::Database(m) => "Unexpected database error: "@ + m@,
                ConnectMaterializationSourcesError::NoLinkInserted => "Unexpectedly, no links were inserted"@,
            },
    {
        proof {
            reveal_strlit("No materialization matching target trend store part '");
            reveal_strlit("No such source trend store part '");
            reveal_strlit("'");
            reveal_strlit("Unexpected database error: ");
            reveal_strlit("Unexpectedly, no links were inserted");
        }
        match self {
            ConnectMaterializationSourcesError::NoSuchMaterialization(n) => {
                let mut s = concat("No materialization matching target trend store part '", n.as_str());
                s.append("'");
                s
            },
            ConnectMaterializationSourcesError::NoSuchSourceTrendStorePart(n) => {
                let mut s = concat("No such source trend store part '", n.as_str());
                s.append("'");
                s
            },
            ConnectMaterializationSourcesError::Database(m) => concat("Unexpected database error: ", m.as_str()),
            ConnectMaterializationSourcesError::NoLinkInserted => "Unexpectedly, no links were inserted".to_owned(),
        }
    }
}

/// The links that the trend sources of a materialization get, in order: each trend
/// source's trend store part with its mapping function taking a `timestamptz`. Other
/// sources are not linked.
pub open spec fn source_links(sources: Seq<TrendMaterializationSource>) -> Seq<(Seq<char>, Seq<char>)>
    decreases sources.len(),
{
    if sources.len() == 0 {
        Seq::empty()
    } else {
        source_links(sources.drop_last()) + match sources.last() {
            TrendMaterializationSource::Trend(t) => seq![(t.trend_store_part@, t.mapping_function@ + "(timestamptz)"@)],
            _ => Seq::empty(),
        }
    }
}

/// The links that the trend sources of a materialization get, in order.
pub fn trend_source_links(sources: &Vec<TrendMaterializationSource>) -> (r: Vec<(String, String)>)
    ensures
        pairs_of(r@) == source_links(sources@),
{
    let mut r: Vec<(String, String)> = Vec::new();
    let mut i: usize = 0;
    proof {
        reveal_strlit("(timestamptz)");
    }
    while i < sources.len()
        invariant
            i <= sources.len(),
            pairs_of(r@) == source_links(sources@.take(i as int)),
        decreases sources.len() - i,
    {
        assert(sources@.take(i + 1).drop_last() =~= sources@.take(i as int));
        assert(sources@.take(i + 1).last() == sources@[i as int]);
        match &sources[i] {
            TrendMaterializationSource::Trend(t) => {
                let ghost prev = r@;
                r.push((t.trend_store_part.clone(), concat(t.mapping_function.as_str(), "(timestamptz)")));
                proof {
                    assert forall|k: int| 0 <= k < prev.len() implies pairs_of(r@)[k] == pairs_of(prev)[k] by {
                        assert(r@[k] == prev[k]);
                    }
                    assert(pairs_of(r@) =~= source_links(sources@.take(i + 1)));
                }
            },
            _ => {
                assert(pairs_of(r@) =~= source_links(sources@.take(i + 1)));
            },
        }
        i = i + 1;
    }
    assert(sources@.take(sources.len() as int) =~= sources@);
    r
}

/// The outcome of linking a source that inserted `count` links: none is an error.
pub fn link_outcome(count: u64) -> (r: Result<(), ConnectMaterializationSourcesError>)
    ensures
        count == 0 <==> r matches Err(ConnectMaterializationSourcesError::NoLinkInserted),
        count > 0 ==> r is Ok,
{
    if count == 0 {
        Err(ConnectMaterializationSourcesError::NoLinkInserted)
    } else {
        Ok(())
    }
}

/// The target trend store part of a materialization.
pub open spec fn target_of(m: TrendMaterialization) -> Seq<char> {
    materialization_name(m@)
}

/// The actions that create a materialization: its view or function, its fingerprint
/// function, its definition in the directory, its enabling when it is enabled, and its
/// source links.
pub open spec fn create_plan(m: TrendMaterialization) -> Seq<ActionView> {
    match m {
        TrendMaterialization::View(v) => seq![
            ActionView::Run(create_view_step_view(v.target_trend_store_part@, v.view@)),
            ActionView::Run(create_fingerprint_step_view(v.target_trend_store_part@, v.fingerprint_function@)),
            ActionView::Run(define_view_step_view(v)),
        ] + (if v.enabled {
            seq![ActionView::Run(enable_step_view(v.target_trend_store_part@))]
        } else {
            Seq::empty()
        }) + seq![ActionView::ConnectSources],
        TrendMaterialization::Function(f) => seq![
            ActionView::Run(create_function_step_view(f)),
            ActionView::Run(create_fingerprint_step_view(f.target_trend_store_part@, f.fingerprint_function@)),
            ActionView::Run(define_function_step_view(f)),
        ] + (if f.enabled {
            seq![ActionView::Run(enable_step_view(f.target_trend_store_part@))]
        } else {
            Seq::empty()
        }) + seq![ActionView::ConnectSources],
    }
}

/// The actions that remove what implements a materialization: for a view, its view and
/// fingerprint function; for a function, its source links, its record and its
/// fingerprint function.
pub open spec fn delete_plan(m: TrendMaterialization) -> Seq<ActionView> {
    match m {
        TrendMaterialization::View(v) => seq![
            ActionView::Run(drop_view_step_view(v.target_trend_store_part@)),
            ActionView::Run(drop_fingerprint_step_view(v.target_trend_store_part@)),
        ],
        TrendMaterialization::Function(f) => seq![
            ActionView::Run(remove_old_sources_step_view(f.target_trend_store_part@)),
            ActionView::Run(delete_record_step_view(f.target_trend_store_part@)),
            ActionView::Run(drop_fingerprint_step_view(f.target_trend_store_part@)),
        ],
    }
}

/// The actions that replace the definition of a materialization: for a view, creating
/// the view, recording it, creating the fingerprint function and linking the sources;
/// for a function, dropping and creating it again.
pub open spec fn update_definition_plan(m: TrendMaterialization) -> Seq<ActionView> {
    match m {
        TrendMaterialization::View(v) => seq![
            ActionView::Run(create_view_step_view(v.target_trend_store_part@, v.view@)),
            ActionView::Run(init_view_step_view(v.target_trend_store_part@)),
            ActionView::Run(create_fingerprint_step_view(v.target_trend_store_part@, v.fingerprint_function@)),
            ActionView::ConnectSources,
        ],
        TrendMaterialization::Function(f) => seq![
            ActionView::Run(drop_function_step_view(f.target_trend_store_part@)),
            ActionView::Run(create_function_step_view(f)),
        ],
    }
}

/// The settings of a materialization.
pub open spec fn settings_of(m: TrendMaterialization) -> MaterializationSettings {
    match m {
        TrendMaterialization::View(v) => view_settings_of(v),
        TrendMaterialization::Function(f) => function_settings_of(f),
    }
}

/// The action that updates the settings of a materialization.
pub open spec fn update_attributes_plan(m: TrendMaterialization) -> Seq<ActionView> {
    seq![ActionView::Run(update_attributes_step_view(settings_of(m)))]
}

/// The actions that link a materialization to its sources anew.
pub open spec fn update_sources_plan(m: TrendMaterialization) -> Seq<ActionView> {
    seq![ActionView::Run(remove_old_sources_step_view(target_of(m))), ActionView::ConnectSources]
}

/// The fingerprint function body of a materialization.
pub open spec fn fingerprint_body_of(m: TrendMaterialization) -> Seq<char> {
    match m {
        TrendMaterialization::View(v) => v.fingerprint_function@,
        TrendMaterialization::Function(f) => f.fingerprint_function@,
    }
}

/// The actions that replace the fingerprint function of a materialization.
pub open spec fn update_fingerprint_plan(m: TrendMaterialization) -> Seq<ActionView> {
    seq![
        ActionView::Run(drop_fingerprint_step_view(target_of(m))),
        ActionView::Run(create_fingerprint_step_view(target_of(m), fingerprint_body_of(m))),
    ]
}

/// Appends an action.
fn push_action(actions: &mut Vec<MaterializationAction>, action: MaterializationAction)
    ensures
        actions_view(final(actions)@) == actions_view(old(actions)@).push(action@),
{
    let ghost prev = actions@;
    actions.push(action);
    assert forall|k: int| 0 <= k < prev.len() implies actions_view(actions@)[k] == actions_view(prev)[k] by {
        assert(actions@[k] == prev[k]);
    }
    assert(actions_view(actions@) =~= actions_view(prev).push(action@));
}

/// The action of running a statement.
fn run(step: SqlStep) -> (a: MaterializationAction)
    ensures
        a@ == ActionView::Run(step@),
{
    MaterializationAction::Run(step)
}

impl TrendMaterialization {
    /// The actions that create this materialization.
    pub fn create_actions(&self) -> (r: Vec<MaterializationAction>)
        ensures
            actions_view(r@) == create_plan(*self),
    {
        let mut r: Vec<MaterializationAction> = Vec::new();
        match self {
            TrendMaterialization::View(v) => {
                push_action(&mut r, run(create_view_step(v)));
                push_action(&mut r, run(create_fingerprint_step(v.target_trend_store_part.as_str(), v.fingerprint_function.as_str())));
                push_action(&mut r, run(define_view_step(v)));
                if v.enabled {
                    push_action(&mut r, run(enable_step(v.target_trend_store_part.as_str())));
                }
            },
            TrendMaterialization::Function(f) => {
                push_action(&mut r, run(create_function_step(f)));
                push_action(&mut r, run(create_fingerprint_step(f.target_trend_store_part.as_str(), f.fingerprint_function.as_str())));
                push_action(&mut r, run(define_function_step(f)));
                if f.enabled {
                    push_action(&mut r, run(enable_step(f.target_trend_store_part.as_str())));
                }
            },
        }
        push_action(&mut r, MaterializationAction::ConnectSources);
        assert(actions_view(r@) =~= create_plan(*self));
        r
    }

    /// The actions that remove what implements this materialization.
    pub fn delete_actions(&self) -> (r: Vec<MaterializationAction>)
        ensures
            actions_view(r@) == delete_plan(*self),
    {
        let mut r: Vec<MaterializationAction> = Vec::new();
        match self {
            TrendMaterialization::View(v) => {
                push_action(&mut r, run(drop_view_step(v.target_trend_store_part.as_str())));
                push_action(&mut r, run(drop_fingerprint_step(v.target_trend_store_part.as_str())));
            },
            TrendMaterialization::Function(f) => {
                push_action(&mut r, run(remove_old_sources_step(f.target_trend_store_part.as_str())));
                push_action(&mut r, run(delete_record_step(f.target_trend_store_part.as_str())));
                push_action(&mut r, run(drop_fingerprint_step(f.target_trend_store_part.as_str())));
            },
        }
        assert(actions_view(r@) =~= delete_plan(*self));
        r
    }

    /// The actions that replace the definition of this materialization.
    pub fn update_definition_actions(&self) -> (r: Vec<MaterializationAction>)
        ensures
            actions_view(r@) == update_definition_plan(*self),
    {
        let mut r: Vec<MaterializationAction> = Vec::new();
        match self {
            TrendMaterialization::View(v) => {
                push_action(&mut r, run(create_view_step(v)));
                push_action(&mut r, run(init_view_step(v.target_trend_store_part.as_str())));
                push_action(&mut r, run(create_fingerprint_step(v.target_trend_store_part.as_str(), v.fingerprint_function.as_str())));
                push_action(&mut r, MaterializationAction::ConnectSources);
            },
            TrendMaterialization::Function(f) => {
                push_action(&mut r, run(drop_function_step(f.target_trend_store_part.as_str())));
                push_action(&mut r, run(create_function_step(f)));
            },
        }
        assert(actions_view(r@) =~= update_definition_plan(*self));
        r
    }

    /// The action that updates the settings of this materialization.
    pub fn update_attributes_actions(&self) -> (r: Vec<MaterializationAction>)
        ensures
            actions_view(r@) == update_attributes_plan(*self),
    {
        let settings = match self {
            TrendMaterialization::View(v) => view_settings(v),
            TrendMaterialization::Function(f) => function_settings(f),
        };
        let mut r: Vec<MaterializationAction> = Vec::new();
        push_action(&mut r, run(update_attributes_step(&settings)));
        assert(actions_view(r@) =~= update_attributes_plan(*self));
        r
    }

    /// The actions that replace the definition of this materialization, then update its
    /// settings.
    pub fn update_actions(&self) -> (r: Vec<MaterializationAction>)
        ensures
            actions_view(r@) == update_definition_plan(*self) + update_attributes_plan(*self),
    {
        let mut r = self.update_definition_actions();
        let mut more = self.update_attributes_actions();
        r.append(&mut more);
        assert(actions_view(r@) =~= update_definition_plan(*self) + update_attributes_plan(*self));
        r
    }

    /// The actions that link this materialization to its sources anew.
    pub fn update_sources_actions(&self) -> (r: Vec<MaterializationAction>)
        ensures
            actions_view(r@) == update_sources_plan(*self),
    {
        let mut r: Vec<MaterializationAction> = Vec::new();
        push_action(&mut r, run(remove_old_sources_step(self.name())));
        push_action(&mut r, MaterializationAction::ConnectSources);
        assert(actions_view(r@) =~= update_sources_plan(*self));
        r
    }

    /// The actions that replace the fingerprint function of this materialization.
    pub fn update_fingerprint_actions(&self) -> (r: Vec<MaterializationAction>)
        ensures
            actions_view(r@) == update_fingerprint_plan(*self),
    {
        let body = match self {
            TrendMaterialization::View(v) => v.fingerprint_function.as_str(),
            TrendMaterialization::Function(f) => f.fingerprint_function.as_str(),
        };
        let mut r: Vec<MaterializationAction> = Vec::new();
        push_action(&mut r, run(drop_fingerprint_step(self.name())));
        push_action(&mut r, run(create_fingerprint_step(self.name(), body)));
        assert(actions_view(r@) =~= update_fingerprint_plan(*self));
        r
    }
}

/// A message about a materialization: `text`, the materialization as it is written
/// between quotes, and `tail`.
fn quoted_message(text: &str, m: &TrendMaterialization, tail: &str) -> (r: String)
    ensures
        r@ == text@ + materialization_text(m@) + "'"@ + tail@,
{
    let mut s = concat(text, m.to_display_string().as_str());
    s.append("'");
    s.append(tail);
    proof {
        reveal_strlit("'");
    }
    s
}

impl AddTrendMaterialization {
    /// The actions that apply the change: creating the materialization.
    pub fn apply_actions(&self) -> (r: Vec<MaterializationAction>)
        ensures
            actions_view(r@) == create_plan(self.trend_materialization),
    {
        self.trend_materialization.create_actions()
    }

    /// What applying the change reports.
    pub fn outcome_message(&self) -> (r: String)
        ensures
            r@ == "Added trend materialization '"@ + materialization_text(self.trend_materialization@) + "'"@,
    {
        proof {
            reveal_strlit("Added trend materialization '");
            reveal_strlit("");
        }
        quoted_message("Added trend materialization '", &self.trend_materialization, "")
    }

    /// The message of a failure to apply the change, given the error's message.
    pub fn failure_message(&self, error: &str) -> (r: String)
        ensures
            r@ == "Error adding trend materialization '"@ + materialization_text(self.trend_materialization@) + "': "@
                + error@,
    {
        proof {
            reveal_strlit("Error adding trend materialization '");
            reveal_strlit(": ");
            reveal_strlit("': ");
            reveal_strlit("'");
        }
        let mut s = quoted_message("Error adding trend materialization '", &self.trend_materialization, ": ");
        s.append(error);
        s
    }
}

impl UpdateTrendMaterialization {
    /// The actions that apply the change: replacing the definition, then updating the
    /// settings.
    pub fn apply_actions(&self) -> (r: Vec<MaterializationAction>)
        ensures
            actions_view(r@) == update_definition_plan(self.trend_materialization) + update_attributes_plan(
                self.trend_materialization,
            ),
    {
        self.trend_materialization.update_actions()
    }

    /// What applying the change reports.
    pub fn outcome_message(&self) -> (r: String)
        ensures
            r@ == "Updated trend materialization '"@ + materialization_text(self.trend_materialization@) + "'"@,
    {
        proof {
            reveal_strlit("Updated trend materialization '");
            reveal_strlit("");
        }
        quoted_message("Updated trend materialization '", &self.trend_materialization, "")
    }

    /// The message of a failure to apply the change, given the error's message.
    pub fn failure_message(&self, error: &str) -> (r: String)
        ensures
            r@ == "Error updating trend materialization '"@ + materialization_text(self.trend_materialization@)
                + "': "@ + error@,
    {
        proof {
            reveal_strlit("Error updating trend materialization '");
            reveal_strlit(": ");
            reveal_strlit("': ");
            reveal_strlit("'");
        }
        let mut s = quoted_message("Error updating trend materialization '", &self.trend_materialization, ": ");
        s.append(error);
        s
    }
}

/// The text that introduces a failure to drop the view of a removed materialization.
pub const REMOVE_VIEW_FAILURE: &'static str = "error while trying to remove materialization view";

/// The text that introduces a failure to drop the fingerprint function of a removed
/// materialization.
pub const REMOVE_FINGERPRINT_FAILURE: &'static str = "error while trying to remove fingerprint function";

impl RemoveTrendMaterialization {
    /// The statements that apply the change, in order: deleting the record (exactly one
    /// must go, see `removal_outcome`), dropping the view and dropping the fingerprint
    /// function.
    pub fn apply_steps(&self) -> (r: (SqlStep, SqlStep, SqlStep))
        ensures
            r.0@ == delete_record_step_view(self.name@),
            r.1@ == drop_view_step_view(self.name@),
            r.2@ == drop_fingerprint_step_view(self.name@),
    {
        (
            delete_record_step(self.name.as_str()),
            drop_view_step(self.name.as_str()),
            drop_fingerprint_step(self.name.as_str()),
        )
    }

    /// What applying the change reports.
    pub fn outcome_message(&self) -> (r: String)
        ensures
            r@ == "Removed trend materialization '"@ + self.name@ + "'"@,
    {
        let mut s = concat("Removed trend materialization '", self.name.as_str());
        s.append("'");
        proof {
            reveal_strlit("Removed trend materialization '");
            reveal_strlit("'");
        }
        s
    }

    /// The message of a failure to apply the change, given the error's message.
    pub fn failure_message(&self, error: &str) -> (r: String)
        ensures
            r@ == "Error removing trend materialization '"@ + self.name@ + "': "@ + error@,
    {
        let mut s = concat("Error removing trend materialization '", self.name.as_str());
        s.append("': ");
        s.append(error);
        proof {
            reveal_strlit("Error removing trend materialization '");
            reveal_strlit("': ");
        }
        s
    }
}

impl UpdateView {
    /// The statements that apply the change: dropping the view and creating it anew.
    pub fn apply_steps(&self) -> (r: (SqlStep, SqlStep))
        ensures
            r.0@ == drop_view_step_view(self.trend_view_materialization.target_trend_store_part@),
            r.1@ == create_view_step_view(
                self.trend_view_materialization.target_trend_store_part@,
                self.trend_view_materialization.view@,
            ),
    {
        (
            drop_view_step(self.trend_view_materialization.target_trend_store_part.as_str()),
            create_view_step(&self.trend_view_materialization),
        )
    }

    /// What applying the change reports.
    pub fn outcome_message(&self) -> (r: String)
        ensures
            r@ == "Updated view "@ + view_name_of(self.trend_view_materialization.target_trend_store_part@),
    {
        proof {
            reveal_strlit("Updated view ");
        }
        concat(
            "Updated view ",
            materialization_view_name(self.trend_view_materialization.target_trend_store_part.as_str()).as_str(),
        )
    }
}

impl UpdateFunction {
    /// The statements that apply the change: dropping the function and creating it
    /// anew.
    pub fn apply_steps(&self) -> (r: (SqlStep, SqlStep))
        ensures
            r.0@ == drop_function_step_view(self.trend_function_materialization.target_trend_store_part@),
            r.1@ == create_function_step_view(self.trend_function_materialization),
    {
        (
            drop_function_step(self.trend_function_materialization.target_trend_store_part.as_str()),
            create_function_step(&self.trend_function_materialization),
        )
    }

    /// What applying the change reports.
    pub fn outcome_message(&self) -> (r: String)
        ensures
            r@ == "Updated function '"@ + self.trend_function_materialization.target_trend_store_part@ + "'"@,
    {
        let mut s = concat("Updated function '", self.trend_function_materialization.target_trend_store_part.as_str());
        s.append("'");
        proof {
            reveal_strlit("Updated function '");
            reveal_strlit("'");
        }
        s
    }
}

impl UpdateTrendViewMaterializationAttributes {
    /// The statement that applies the change.
    pub fn apply_step(&self) -> (r: SqlStep)
        ensures
            r@ == update_attributes_step_view(view_settings_of(self.trend_view_materialization)),
    {
        let settings = view_settings(&self.trend_view_materialization);
        update_attributes_step(&settings)
    }

    /// What applying the change reports.
    pub fn outcome_message(&self) -> (r: String)
        ensures
            r@ == "Updated attributes of view materialization"@,
    {
        proof {
            reveal_strlit("Updated attributes of view materialization");
        }
        "Updated attributes of view materialization".to_owned()
    }
}

impl UpdateTrendFunctionMaterializationAttributes {
    /// The statement that applies the change.
    pub fn apply_step(&self) -> (r: SqlStep)
        ensures
            r@ == update_attributes_step_view(function_settings_of(self.trend_function_materialization)),
    {
        let settings = function_settings(&self.trend_function_materialization);
        update_attributes_step(&settings)
    }

    /// What applying the change reports.
    pub fn outcome_message(&self) -> (r: String)
        ensures
            r@ == "Updated attributes of function materialization"@,
    {
        proof {
            reveal_strlit("Updated attributes of function materialization");
        }
        "Updated attributes of function materialization".to_owned()
    }
}

} // verus!
