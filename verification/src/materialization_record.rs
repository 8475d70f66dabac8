use vstd::prelude::*;

use serde_json::Value;

use crate::error::{error_text, ConfigurationError, Error, RuntimeError};
use crate::humantime_text::parsed_duration;
use crate::interval::{
    humantime_interval, interval_can_be_read_safely, interval_reads_safely, parse_interval,
    pattern_message, unparsable_message,
};
use crate::time::Duration;
use crate::trend_materialization::{
    coerced_function, coorce_to_plpgsql, duplicate_description, duplicate_sources, sources_view,
    LoadTrendMaterializationError, TrendFunctionMaterialization, TrendFunctionMaterializationView,
    TrendMaterialization, TrendMaterializationFunction, TrendMaterializationSource,
    TrendViewMaterialization, TrendViewMaterializationView,
};

verus! {

/// A trend materialization as the database lists it: its id, its settings as interval
/// texts, whether it is enabled, its description, its target trend store part, the
/// view or function it is defined by, if any, and its optional old-data settings.
pub struct MaterializationRecord {
    pub id: i32,
    pub processing_delay: String,
    pub stability_delay: String,
    pub reprocessing_period: String,
    pub enabled: bool,
    pub description: Option<Value>,
    pub target_trend_store_part: String,
    pub src_view: Option<String>,
    pub src_function: Option<String>,
    pub old_data_threshold: Option<String>,
    pub old_data_stability_delay: Option<String>,
}

/// What the database gives, besides its record, for a materialization: the language
/// and source of its fingerprint function, the definition of its view, the language
/// and source of its function and the function's return type (each where it was
/// found), and its trend sources or the error in loading them.
pub struct MaterializationLookups {
    pub fingerprint_function: Option<(String, String)>,
    pub view_definition: Option<String>,
    pub function_definition: Option<(String, String)>,
    pub return_type: Option<String>,
    pub sources: Result<Vec<TrendMaterializationSource>, Error>,
}

/// The span that `parse_interval` reads from an interval text, as seconds and
/// nanoseconds, or the message of its error.
pub open spec fn interval_reading(text: Seq<char>) -> Result<(nat, nat), Seq<char>> {
    match humantime_interval(text) {
        Some(t) => match parsed_duration(t) {
            Ok(d) => Ok(d),
            Err(e) => Err(unparsable_message(t, e)),
        },
        None => Err(pattern_message()),
    }
}

/// The message of a setting of materialization `target` that could not be read.
pub open spec fn setting_failure(target: Seq<char>, field: Seq<char>, message: Seq<char>) -> Seq<char> {
    "Could not load materialization '"@ + target + "' due to failure in parsing of "@ + field + ": "@
        + message
}

/// The message of the first of the processing delay, the reprocessing period and the
/// stability delay (in that order) that cannot be read, if any.
pub open spec fn required_settings_failure(record: MaterializationRecord) -> Option<Seq<char>> {
    let target = record.target_trend_store_part@;
    match interval_reading(record.processing_delay@) {
        Err(m) => Some(setting_failure(target, "processing_delay"@, m)),
        Ok(_) => match interval_reading(record.reprocessing_period@) {
            Err(m) => Some(setting_failure(target, "reprocessing_period"@, m)),
            Ok(_) => match interval_reading(record.stability_delay@) {
                Err(m) => Some(setting_failure(target, "stability_delay"@, m)),
                Ok(_) => None,
            },
        },
    }
}

/// Whether an optional interval text is absent or can be read.
pub open spec fn optional_readable(text: Option<String>) -> bool {
    match text {
        Some(t) => interval_reading(t@) is Ok,
        None => true,
    }
}

/// Whether both old-data settings are absent or can be read.
pub open spec fn old_settings_readable(record: MaterializationRecord) -> bool {
    optional_readable(record.old_data_threshold) && optional_readable(record.old_data_stability_delay)
}

/// Whether an optional interval text is absent or can be handed to humantime.
pub open spec fn optional_reads_safely(text: Option<String>) -> bool {
    match text {
        Some(t) => interval_reads_safely(t@),
        None => true,
    }
}

/// Whether every interval setting of a record can be handed to humantime.
pub open spec fn record_reads_safely(record: MaterializationRecord) -> bool {
    &&& interval_reads_safely(record.processing_delay@)
    &&& interval_reads_safely(record.reprocessing_period@)
    &&& interval_reads_safely(record.stability_delay@)
    &&& optional_reads_safely(record.old_data_threshold)
    &&& optional_reads_safely(record.old_data_stability_delay)
}

/// Whether a span is the one read from a text.
pub open spec fn read_as(text: String, d: Duration) -> bool {
    interval_reading(text@) == Ok::<(nat, nat), Seq<char>>(d@)
}

/// Whether an optional span is the one read from an optional text.
pub open spec fn optional_read_as(text: Option<String>, d: Option<Duration>) -> bool {
    match text {
        Some(t) => d matches Some(v) && read_as(t, v),
        None => d is None,
    }
}

/// A looked-up language and source, or the texts that stand in for them when the
/// lookup failed.
pub open spec fn function_or_placeholder(f: Option<(String, String)>) -> (Seq<char>, Seq<char>) {
    match f {
        Some(p) => (p.0@, p.1@),
        None => ("failed getting language"@, "failed getting sources"@),
    }
}

/// A looked-up return type, or the text that stands in for it when the lookup failed.
pub open spec fn return_type_or_placeholder(t: Option<String>) -> Seq<char> {
    match t {
        Some(s) => s@,
        None => "failed getting return type"@,
    }
}

/// Whether settings are those of the record.
pub open spec fn settings_of_record(
    record: MaterializationRecord,
    processing_delay: Duration,
    stability_delay: Duration,
    reprocessing_period: Duration,
    old_data_threshold: Option<Duration>,
    old_data_stability_delay: Option<Duration>,
) -> bool {
    &&& read_as(record.processing_delay, processing_delay)
    &&& read_as(record.stability_delay, stability_delay)
    &&& read_as(record.reprocessing_period, reprocessing_period)
    &&& optional_read_as(record.old_data_threshold, old_data_threshold)
    &&& optional_read_as(record.old_data_stability_delay, old_data_stability_delay)
}

/// Whether `m` is the view materialization of the record with what was looked up.
pub open spec fn view_loaded(
    m: TrendViewMaterializationView,
    record: MaterializationRecord,
    lookups: MaterializationLookups,
) -> bool {
    &&& m.target_trend_store_part == record.target_trend_store_part@
    &&& m.enabled == record.enabled
    &&& m.description == record.description
    &&& m.fingerprint_function == function_or_placeholder(lookups.fingerprint_function).1
    &&& settings_of_record(
        record,
        m.processing_delay,
        m.stability_delay,
        m.reprocessing_period,
        m.old_data_threshold,
        m.old_data_stability_delay,
    )
    &&& lookups.sources matches Ok(s) && m.sources == sources_view(s@)
    &&& lookups.view_definition matches Some(v) && m.view == v@
}

/// Whether `m` is the function materialization of the record with what was looked
/// up: its function is the looked-up one, turned into PL/pgSQL.
pub open spec fn function_loaded(
    m: TrendFunctionMaterializationView,
    record: MaterializationRecord,
    lookups: MaterializationLookups,
) -> bool {
    let f = function_or_placeholder(lookups.function_definition);
    &&& m.target_trend_store_part == record.target_trend_store_part@
    &&& m.enabled == record.enabled
    &&& m.description == record.description
    &&& m.fingerprint_function == function_or_placeholder(lookups.fingerprint_function).1
    &&& settings_of_record(
        record,
        m.processing_delay,
        m.stability_delay,
        m.reprocessing_period,
        m.old_data_threshold,
        m.old_data_stability_delay,
    )
    &&& lookups.sources matches Ok(s) && m.sources == sources_view(s@)
    &&& coerced_function(f.0, f.1) == Ok::<(Seq<char>, Seq<char>), Seq<char>>((m.function.2, m.function.1))
    &&& m.function.0 == return_type_or_placeholder(lookups.return_type)
}

/// The message of a materialization that is defined by neither a view nor a function.
pub open spec fn neither_message() -> Seq<char> {
    "Unexpected configuration where materialization is not a view and not a function materialization"@
}

/// The settings read from a record.
struct Settings {
    processing_delay: Duration,
    stability_delay: Duration,
    reprocessing_period: Duration,
    old_data_threshold: Option<Duration>,
    old_data_stability_delay: Option<Duration>,
}

/// Reads one setting of materialization `target`; a text that cannot be read gives the
/// message that names the setting.
fn read_setting(target: &str, field: &str, text: &str) -> (r: Result<Duration, String>)
    requires
        interval_reads_safely(text@),
    ensures
        match interval_reading(text@) {
            Ok(d) => r matches Ok(v) && v@ == d,
            Err(m) => r matches Err(s) && s@ == setting_failure(target@, field@, m),
        },
{
    match parse_interval(text) {
        Ok(d) => Ok(d),
        Err(e) => {
            let mut s = "Could not load materialization '".to_owned();
            s.append(target);
            s.append("' due to failure in parsing of ");
            s.append(field);
            s.append(": ");
            s.append(e.message().as_str());
            proof {
                reveal_strlit("Could not load materialization '");
                reveal_strlit("' due to failure in parsing of ");
                reveal_strlit(": ");
            }
            Err(s)
        },
    }
}

/// Reads an optional old-data setting that is known to be readable.
fn read_optional(text: &Option<String>) -> (r: Option<Duration>)
    requires
        optional_reads_safely(*text),
        optional_readable(*text),
    ensures
        optional_read_as(*text, r),
{
    match text {
        Some(t) => match parse_interval(t.as_str()) {
            Ok(d) => Some(d),
            Err(_) => {
                proof {
                    assert(false);
                }
                None
            },
        },
        None => None,
    }
}

/// Reads the settings of a record whose old-data settings are readable, or gives the
/// message of the first required setting that is not.
fn read_settings(record: &MaterializationRecord) -> (r: Result<Settings, String>)
    requires
        record_reads_safely(*record),
        old_settings_readable(*record),
    ensures
        match required_settings_failure(*record) {
            Some(m) => r matches Err(s) && s@ == m,
            None => r matches Ok(v) && settings_of_record(
                *record,
                v.processing_delay,
                v.stability_delay,
                v.reprocessing_period,
                v.old_data_threshold,
                v.old_data_stability_delay,
            ),
        },
{
    proof {
        reveal_strlit("processing_delay");
        reveal_strlit("reprocessing_period");
        reveal_strlit("stability_delay");
    }
    let target = record.target_trend_store_part.as_str();
    let processing_delay = match read_setting(target, "processing_delay", record.processing_delay.as_str()) {
        Ok(d) => d,
        Err(s) => {
            return Err(s);
        },
    };
    let reprocessing_period = match read_setting(
        target,
        "reprocessing_period",
        record.reprocessing_period.as_str(),
    ) {
        Ok(d) => d,
        Err(s) => {
            return Err(s);
        },
    };
    let stability_delay = match read_setting(target, "stability_delay", record.stability_delay.as_str()) {
        Ok(d) => d,
        Err(s) => {
            return Err(s);
        },
    };
    Ok(
        Settings {
            processing_delay,
            stability_delay,
            reprocessing_period,
            old_data_threshold: read_optional(&record.old_data_threshold),
            old_data_stability_delay: read_optional(&record.old_data_stability_delay),
        },
    )
}

/// A looked-up language and source, or the stand-in texts.
fn function_or_stand_in(f: &Option<(String, String)>) -> (r: (String, String))
    ensures
        (r.0@, r.1@) == function_or_placeholder(*f),
{
    proof {
        reveal_strlit("failed getting language");
        reveal_strlit("failed getting sources");
    }
    match f {
        Some(p) => (p.0.clone(), p.1.clone()),
        None => ("failed getting language".to_owned(), "failed getting sources".to_owned()),
    }
}

/// The view materialization of a record.
fn build_view(
    record: &MaterializationRecord,
    settings: Settings,
    view: String,
    sources: Vec<TrendMaterializationSource>,
    fingerprint: &Option<(String, String)>,
) -> (m: TrendViewMaterialization)
    ensures
        m.target_trend_store_part@ == record.target_trend_store_part@,
        m.enabled == record.enabled,
        m.description == record.description,
        m.fingerprint_function@ == function_or_placeholder(*fingerprint).1,
        m.processing_delay == settings.processing_delay,
        m.stability_delay == settings.stability_delay,
        m.reprocessing_period == settings.reprocessing_period,
        m.old_data_threshold == settings.old_data_threshold,
        m.old_data_stability_delay == settings.old_data_stability_delay,
        m.sources@ == sources@,
        m.view@ == view@,
{
    TrendViewMaterialization {
        target_trend_store_part: record.target_trend_store_part.clone(),
        enabled: record.enabled,
        processing_delay: settings.processing_delay,
        stability_delay: settings.stability_delay,
        old_data_stability_delay: settings.old_data_stability_delay,
        old_data_threshold: settings.old_data_threshold,
        reprocessing_period: settings.reprocessing_period,
        sources,
        view,
        fingerprint_function: function_or_stand_in(fingerprint).1,
        description: duplicate_description(&record.description),
    }
}

/// The function materialization of a record.
fn build_function(
    record: &MaterializationRecord,
    settings: Settings,
    function: (String, String),
    return_type: &Option<String>,
    sources: Vec<TrendMaterializationSource>,
    fingerprint: &Option<(String, String)>,
) -> (m: TrendFunctionMaterialization)
    ensures
        m.target_trend_store_part@ == record.target_trend_store_part@,
        m.enabled == record.enabled,
        m.description == record.description,
        m.fingerprint_function@ == function_or_placeholder(*fingerprint).1,
        m.processing_delay == settings.processing_delay,
        m.stability_delay == settings.stability_delay,
        m.reprocessing_period == settings.reprocessing_period,
        m.old_data_threshold == settings.old_data_threshold,
        m.old_data_stability_delay == settings.old_data_stability_delay,
        m.sources@ == sources@,
        m.function.language@ == function.0@,
        m.function.src@ == function.1@,
        m.function.return_type@ == return_type_or_placeholder(*return_type),
{
    proof {
        reveal_strlit("failed getting return type");
    }
    let return_type = match return_type {
        Some(t) => t.clone(),
        None => "failed getting return type".to_owned(),
    };
    TrendFunctionMaterialization {
        target_trend_store_part: record.target_trend_store_part.clone(),
        enabled: record.enabled,
        processing_delay: settings.processing_delay,
        stability_delay: settings.stability_delay,
        old_data_stability_delay: settings.old_data_stability_delay,
        old_data_threshold: settings.old_data_threshold,
        reprocessing_period: settings.reprocessing_period,
        sources,
        function: TrendMaterializationFunction { return_type, src: function.1, language: function.0 },
        fingerprint_function: function_or_stand_in(fingerprint).1,
        description: duplicate_description(&record.description),
    }
}

/// What the loader by name gives for a record and its lookups (see
/// `materialization_from_row`).
pub open spec fn row_outcome(
    record: MaterializationRecord,
    lookups: MaterializationLookups,
    r: Result<TrendMaterialization, LoadTrendMaterializationError>,
) -> bool {
    match required_settings_failure(record) {
        Some(m) => r matches Err(LoadTrendMaterializationError::ParseError(s)) && s@ == m,
        None => match record.src_view {
            Some(v) => match lookups.view_definition {
                None => r matches Err(LoadTrendMaterializationError::NoSuchView(s)) && s@ == v@,
                Some(_) => match lookups.sources {
                    Err(e) => r matches Err(LoadTrendMaterializationError::Sources(s)) && s@ == error_text(e),
                    Ok(_) => r matches Ok(TrendMaterialization::View(m)) && view_loaded(m@, record, lookups),
                },
            },
            None => match record.src_function {
                Some(_) => match coerced_function(
                    function_or_placeholder(lookups.function_definition).0,
                    function_or_placeholder(lookups.function_definition).1,
                ) {
                    Err(msg) => r matches Err(LoadTrendMaterializationError::MaterializationFunction(s))
                        && s@ == "could not load function definition: "@ + msg,
                    Ok(_) => match lookups.sources {
                        Err(e) => r matches Err(LoadTrendMaterializationError::Sources(s)) && s@ == error_text(e),
                        Ok(_) => r matches Ok(TrendMaterialization::Function(m)) && function_loaded(m@, record, lookups),
                    },
                },
                None => r matches Err(LoadTrendMaterializationError::Configuration(s))
                    && s@ == "No function or view materialization could be loaded"@,
            },
        },
    }
}

/// The materialization that a record and its lookups describe, with the errors of the
/// loader by name: an unreadable required setting; a view that was not found; sources
/// that could not be loaded; a function in a language that is neither SQL nor
/// PL/pgSQL; and a record with neither a view nor a function. A record's view comes
/// before its function. The old-data settings must be readable.
pub fn materialization_from_row(record: MaterializationRecord, lookups: MaterializationLookups) -> (r: Result<
    TrendMaterialization,
    LoadTrendMaterializationError,
>)
    requires
        record_reads_safely(record),
        old_settings_readable(record),
    ensures
        row_outcome(record, lookups, r),
{
    let settings = match read_settings(&record) {
        Ok(s) => s,
        Err(m) => {
            return Err(LoadTrendMaterializationError::ParseError(m));
        },
    };
    match &record.src_view {
        Some(v) => {
            let view = match &lookups.view_definition {
                Some(d) => d.clone(),
                None => {
                    return Err(LoadTrendMaterializationError::NoSuchView(v.clone()));
                },
            };
            match &lookups.sources {
                Err(e) => Err(LoadTrendMaterializationError::Sources(e.message())),
                Ok(sources) => {
                    let m = build_view(
                        &record,
                        settings,
                        view,
                        duplicate_sources(sources),
                        &lookups.fingerprint_function,
                    );
                    Ok(TrendMaterialization::View(m))
                },
            }
        },
        None => {
            if record.src_function.is_none() {
                proof {
                    reveal_strlit("No function or view materialization could be loaded");
                }
                return Err(
                    LoadTrendMaterializationError::Configuration(
                        "No function or view materialization could be loaded".to_owned(),
                    ),
                );
            }
            let function = match coorce_to_plpgsql(function_or_stand_in(&lookups.function_definition)) {
                Ok(f) => f,
                Err(e) => {
                    let mut s = "could not load function definition: ".to_owned();
                    s.append(e.message().as_str());
                    proof {
                        reveal_strlit("could not load function definition: ");
                    }
                    return Err(LoadTrendMaterializationError::MaterializationFunction(s));
                },
            };
            match &lookups.sources {
                Err(e) => Err(LoadTrendMaterializationError::Sources(e.message())),
                Ok(sources) => {
                    let m = build_function(
                        &record,
                        settings,
                        function,
                        &lookups.return_type,
                        duplicate_sources(sources),
                        &lookups.fingerprint_function,
                    );
                    Ok(TrendMaterialization::Function(m))
                },
            }
        },
    }
}

/// Whether an optional interval text is absent or can be read, as `parse_interval`
/// reads it.
fn optional_text_readable(text: &Option<String>) -> (r: bool)
    requires
        optional_reads_safely(*text),
    ensures
        r == optional_readable(*text),
{
    match text {
        Some(t) => parse_interval(t.as_str()).is_ok(),
        None => true,
    }
}

/// Whether an optional interval text is absent or can be handed to humantime.
fn optional_text_reads_safely(text: &Option<String>) -> (r: bool)
    ensures
        r == optional_reads_safely(*text),
{
    match text {
        Some(t) => interval_can_be_read_safely(t.as_str()),
        None => true,
    }
}

/// Whether every interval setting of a record can be handed to humantime.
pub fn record_can_be_read_safely(record: &MaterializationRecord) -> (r: bool)
    ensures
        r == record_reads_safely(*record),
{
    interval_can_be_read_safely(record.processing_delay.as_str()) && interval_can_be_read_safely(
        record.reprocessing_period.as_str(),
    ) && interval_can_be_read_safely(record.stability_delay.as_str()) && optional_text_reads_safely(
        &record.old_data_threshold,
    ) && optional_text_reads_safely(&record.old_data_stability_delay)
}

/// Whether both old-data settings of a record are absent or can be read.
pub fn old_settings_can_be_read(record: &MaterializationRecord) -> (r: bool)
    requires
        record_reads_safely(*record),
    ensures
        r == old_settings_readable(*record),
{
    optional_text_readable(&record.old_data_threshold) && optional_text_readable(&record.old_data_stability_delay)
}

/// `materialization_from_row` where the settings can be handed to humantime and the
/// old-data settings can be read, and nothing otherwise (the loader stops there).
pub fn checked_materialization_from_row(record: MaterializationRecord, lookups: MaterializationLookups) -> (r: Option<
    Result<TrendMaterialization, LoadTrendMaterializationError>,
>)
    ensures
        r is None <==> !(record_reads_safely(record) && old_settings_readable(record)),
        r matches Some(x) ==> row_outcome(record, lookups, x),
{
    if record_can_be_read_safely(&record) && old_settings_can_be_read(&record) {
        Some(materialization_from_row(record, lookups))
    } else {
        None
    }
}

/// What loading one materialization gives for a record and its lookups (see
/// `materialization_from_record`).
pub open spec fn record_outcome(
    record: MaterializationRecord,
    lookups: MaterializationLookups,
    r: Result<TrendMaterialization, Error>,
) -> bool {
    match required_settings_failure(record) {
        Some(m) => r matches Err(Error::Runtime(e)) && e.msg@ == m,
        None => match record.src_view {
            Some(_) => match lookups.sources {
                Err(e) => r == Err::<TrendMaterialization, Error>(e),
                Ok(_) => r matches Ok(TrendMaterialization::View(m)) && view_loaded(m@, record, lookups),
            },
            None => match record.src_function {
                Some(_) => match coerced_function(
                    function_or_placeholder(lookups.function_definition).0,
                    function_or_placeholder(lookups.function_definition).1,
                ) {
                    Err(msg) => r matches Err(Error::Runtime(e)) && e.msg@ == msg,
                    Ok(_) => match lookups.sources {
                        Err(e) => r == Err::<TrendMaterialization, Error>(e),
                        Ok(_) => r matches Ok(TrendMaterialization::Function(m)) && function_loaded(m@, record, lookups),
                    },
                },
                None => r matches Err(Error::Runtime(e)) && e.msg@ == neither_message(),
            },
        },
    }
}

/// The materialization that a record and its lookups describe, with the errors of the
/// loader by name as library errors: an unreadable required setting, a function in a
/// language that is neither SQL nor PL/pgSQL (as `coorce_to_plpgsql` refuses it), the
/// error in loading the sources, and a record with neither a view nor a function. A
/// record's view comes before its function. The old-data settings must be readable, and
/// a record with a view must come with the view's definition.
pub fn materialization_from_record(record: MaterializationRecord, lookups: MaterializationLookups) -> (r: Result<
    TrendMaterialization,
    Error,
>)
    requires
        record_reads_safely(record),
        old_settings_readable(record),
        record.src_view is Some ==> lookups.view_definition is Some,
    ensures
        record_outcome(record, lookups, r),
{
    let settings = match read_settings(&record) {
        Ok(s) => s,
        Err(m) => {
            return Err(Error::Runtime(RuntimeError::from_msg(m)));
        },
    };
    if record.src_view.is_some() {
        let view = match &lookups.view_definition {
            Some(d) => d.clone(),
            None => {
                proof {
                    assert(false);
                }
                String::new()
            },
        };
        match lookups.sources {
            Err(e) => Err(e),
            Ok(sources) => {
                let ghost s = sources@;
                let m = build_view(&record, settings, view, sources, &lookups.fingerprint_function);
                assert(sources_view(m.sources@) == sources_view(s));
                Ok(TrendMaterialization::View(m))
            },
        }
    } else if record.src_function.is_some() {
        let function = match coorce_to_plpgsql(function_or_stand_in(&lookups.function_definition)) {
            Ok(f) => f,
            Err(e) => {
                return Err(e);
            },
        };
        match lookups.sources {
            Err(e) => Err(e),
            Ok(sources) => {
                let m = build_function(
                    &record,
                    settings,
                    function,
                    &lookups.return_type,
                    sources,
                    &lookups.fingerprint_function,
                );
                Ok(TrendMaterialization::Function(m))
            },
        }
    } else {
        proof {
            reveal_strlit(
                "Unexpected configuration where materialization is not a view and not a function materialization",
            );
        }
        Err(
            Error::Runtime(
                RuntimeError::from_msg(
                    "Unexpected configuration where materialization is not a view and not a function materialization".to_owned(),
                ),
            ),
        )
    }
}

/// `materialization_from_record` where the settings can be handed to humantime, the
/// old-data settings can be read and a view comes with its definition, and nothing otherwise (the loader stops there).
pub fn checked_materialization_from_record(record: MaterializationRecord, lookups: MaterializationLookups) -> (r: Option<
    Result<TrendMaterialization, Error>,
>)
    ensures
        r is None <==> !(record_reads_safely(record) && old_settings_readable(record) && (
        record.src_view is Some ==> lookups.view_definition is Some)),
        r matches Some(x) ==> record_outcome(record, lookups, x),
{
    if record_can_be_read_safely(&record) && old_settings_can_be_read(&record) && (
    record.src_view.is_none() || lookups.view_definition.is_some()) {
        Some(materialization_from_record(record, lookups))
    } else {
        None
    }
}

/// The message of a name that no materialization matches.
pub fn no_materialization_error(name: &str) -> (r: Error)
    ensures
        r matches Error::Configuration(e) && e.msg@ == "No materialization that matches name '"@ + name@
            + "'"@,
{
    let mut s = "No materialization that matches name '".to_owned();
    s.append(name);
    s.append("'");
    proof {
        reveal_strlit("No materialization that matches name '");
        reveal_strlit("'");
    }
    Error::Configuration(ConfigurationError::from_msg(s))
}

/// The error of a name that no trend materialization matches.
pub fn no_trend_materialization_error(name: &str) -> (r: LoadTrendMaterializationError)
    ensures
        r matches LoadTrendMaterializationError::NotFound(s) && s@ == "No trend materialization found matching name '"@
            + name@ + "'"@,
{
    let mut s = "No trend materialization found matching name '".to_owned();
    s.append(name);
    s.append("'");
    proof {
        reveal_strlit("No trend materialization found matching name '");
        reveal_strlit("'");
    }
    LoadTrendMaterializationError::NotFound(s)
}

/// Whether `v` holds the view materialization of the record if it has a view, then its
/// function materialization if it has a function, and nothing else.
pub open spec fn all_loaded(
    v: Seq<TrendMaterialization>,
    record: MaterializationRecord,
    lookups: MaterializationLookups,
) -> bool {
    &&& v.len() == (if record.src_view is Some {
        1int
    } else {
        0int
    }) + (if record.src_function is Some {
        1int
    } else {
        0int
    })
    &&& record.src_view is Some ==> (v[0] matches TrendMaterialization::View(m) && view_loaded(
        m@,
        record,
        lookups,
    ))
    &&& record.src_function is Some ==> (v[v.len() - 1] matches TrendMaterialization::Function(m)
        && function_loaded(m@, record, lookups))
}

/// What the loader of all materializations gives for one record and its lookups (see
/// `materializations_from_record`).
pub open spec fn records_outcome(
    record: MaterializationRecord,
    lookups: MaterializationLookups,
    r: Result<Vec<TrendMaterialization>, Error>,
) -> bool {
    match required_settings_failure(record) {
        Some(m) => r matches Err(Error::Runtime(e)) && e.msg@ == m,
        None => match lookups.sources {
            Err(e) => if record.src_view is Some || (record.src_function is Some && coerced_function(
                function_or_placeholder(lookups.function_definition).0,
                function_or_placeholder(lookups.function_definition).1,
            ) is Ok) {
                r == Err::<Vec<TrendMaterialization>, Error>(e)
            } else if record.src_function is Some {
                r matches Err(Error::Runtime(re)) && Err::<(Seq<char>, Seq<char>), Seq<char>>(re.msg@)
                    == coerced_function(
                    function_or_placeholder(lookups.function_definition).0,
                    function_or_placeholder(lookups.function_definition).1,
                )
            } else {
                r matches Ok(v) && v.len() == 0
            },
            Ok(_) => if record.src_function is Some && coerced_function(
                function_or_placeholder(lookups.function_definition).0,
                function_or_placeholder(lookups.function_definition).1,
            ) is Err {
                r matches Err(Error::Runtime(re)) && Err::<(Seq<char>, Seq<char>), Seq<char>>(re.msg@)
                    == coerced_function(
                    function_or_placeholder(lookups.function_definition).0,
                    function_or_placeholder(lookups.function_definition).1,
                )
            } else {
                r matches Ok(v) && all_loaded(v@, record, lookups)
            },
        },
    }
}

/// The materializations that one listed record gives, as the loader of all
/// materializations reads them: its view materialization if it has a view, then its
/// function materialization if it has a function (so none, one or both). An
/// unreadable required setting, a function in a language that is neither SQL nor
/// PL/pgSQL and the error in loading the sources stop it. The old-data settings must
/// be readable, and a record with a view must come with the view's definition.
pub fn materializations_from_record(record: MaterializationRecord, lookups: MaterializationLookups) -> (r: Result<
    Vec<TrendMaterialization>,
    Error,
>)
    requires
        record_reads_safely(record),
        old_settings_readable(record),
        record.src_view is Some ==> lookups.view_definition is Some,
    ensures
        records_outcome(record, lookups, r),
{
    let settings = match read_settings(&record) {
        Ok(s) => s,
        Err(m) => {
            return Err(Error::Runtime(RuntimeError::from_msg(m)));
        },
    };
    let mut found: Vec<TrendMaterialization> = Vec::new();
    if record.src_view.is_some() {
        let view = match &lookups.view_definition {
            Some(d) => d.clone(),
            None => {
                proof {
                    assert(false);
                }
                String::new()
            },
        };
        match &lookups.sources {
            Err(e) => {
                return Err(e.duplicate());
            },
            Ok(sources) => {
                let m = build_view(
                    &record,
                    Settings {
                        processing_delay: settings.processing_delay,
                        stability_delay: settings.stability_delay,
                        reprocessing_period: settings.reprocessing_period,
                        old_data_threshold: settings.old_data_threshold,
                        old_data_stability_delay: settings.old_data_stability_delay,
                    },
                    view,
                    duplicate_sources(sources),
                    &lookups.fingerprint_function,
                );
                found.push(TrendMaterialization::View(m));
            },
        }
    }
    if record.src_function.is_some() {
        let function = match coorce_to_plpgsql(function_or_stand_in(&lookups.function_definition)) {
            Ok(f) => f,
            Err(e) => {
                return Err(e);
            },
        };
        match &lookups.sources {
            Err(e) => {
                return Err(e.duplicate());
            },
            Ok(sources) => {
                let m = build_function(
                    &record,
                    settings,
                    function,
                    &lookups.return_type,
                    duplicate_sources(sources),
                    &lookups.fingerprint_function,
                );
                found.push(TrendMaterialization::Function(m));
            },
        }
    }
    Ok(found)
}

/// `materializations_from_record` where the settings can be handed to humantime, the
/// old-data settings can be read and a view comes with its definition, and nothing otherwise (the loader stops there).
pub fn checked_materializations_from_record(record: MaterializationRecord, lookups: MaterializationLookups) -> (r: Option<
    Result<Vec<TrendMaterialization>, Error>,
>)
    ensures
        r is None <==> !(record_reads_safely(record) && old_settings_readable(record) && (
        record.src_view is Some ==> lookups.view_definition is Some)),
        r matches Some(x) ==> records_outcome(record, lookups, x),
{
    if record_can_be_read_safely(&record) && old_settings_can_be_read(&record) && (
    record.src_view.is_none() || lookups.view_definition.is_some()) {
        Some(materializations_from_record(record, lookups))
    } else {
        None
    }
}

} // verus!
