use vstd::prelude::*;

use crate::error::DatabaseError;
use crate::text::{
    concat3, find_first, lemma_find_first_at, lemma_find_first_none, lemma_find_first_none_all, same_text,
};
use crate::time::Duration;
use crate::trigger::{thresholds_view, Threshold, ThresholdView, TriggerError};

verus! {

/// The data type given to a threshold derived from a parameter that names none.
pub const DEFAULT_THRESHOLD_DATA_TYPE: &'static str = "numeric";

/// The value given to a threshold derived from a parameter that names no default.
pub const DEFAULT_THRESHOLD_VALUE: &'static str = "0";

/// Why a templated trigger could not be made.
pub enum TriggerTemplateError {
    DatabaseError(DatabaseError),
    TriggerError(TriggerError),
    MissingParameter(String),
    ExtraneousParameter(String),
    MissingThreshold(String),
    NotAThreshold(String),
    NoCounter(String),
    CounterNotUnique(String),
    TriggerExists(String),
    NoTemplate(String),
    UnexpectedError,
}

impl TriggerTemplateError {
    /// Wraps a database error.
    pub fn from_database_error(e: DatabaseError) -> (r: TriggerTemplateError)
        ensures
            r == TriggerTemplateError::DatabaseError(e),
    {
        TriggerTemplateError::DatabaseError(e)
    }

    /// Wraps a trigger error; a database error inside it is passed on as such.
    pub fn from_trigger_error(e: TriggerError) -> (r: TriggerTemplateError)
        ensures
            match e {
                TriggerError::DatabaseError(d) => r == TriggerTemplateError::DatabaseError(d),
                _ => r == TriggerTemplateError::TriggerError(e),
            },
    {
        match e {
            TriggerError::DatabaseError(d) => TriggerTemplateError::DatabaseError(d),
            te => TriggerTemplateError::TriggerError(te),
        }
    }
}

/// The role of a parameter in a template.
#[derive(Clone, Copy, Debug, PartialEq, Eq, Structural)]
pub enum ParameterType {
    Default,
    Counter,
    ThresholdVariable,
    LookbackVariable,
}

/// Whether parameters of this type are backed by a threshold.
pub open spec fn is_threshold_type(t: ParameterType) -> bool {
    t == ParameterType::ThresholdVariable || t == ParameterType::LookbackVariable
}

/// A parameter declared by a template.
#[derive(Clone, Debug)]
pub struct TemplateParameter {
    pub name: String,
    pub parameter_type: ParameterType,
    pub has_lookback: bool,
    pub lookback_parameter: Option<String>,
}

pub struct TemplateParameterView {
    pub name: Seq<char>,
    pub parameter_type: ParameterType,
    pub has_lookback: bool,
    pub lookback_parameter: Option<Seq<char>>,
}

impl View for TemplateParameter {
    type V = TemplateParameterView;

    open spec fn view(&self) -> TemplateParameterView {
        TemplateParameterView {
            name: self.name@,
            parameter_type: self.parameter_type,
            has_lookback: self.has_lookback,
            lookback_parameter: self.lookback_parameter.deep_view(),
        }
    }
}

pub open spec fn template_parameters_view(v: Seq<TemplateParameter>) -> Seq<TemplateParameterView> {
    v.map_values(|p: TemplateParameter| p@)
}

/// The first template parameter called `name`.
pub open spec fn find_parameter(ps: Seq<TemplateParameterView>, name: Seq<char>) -> Option<
    TemplateParameterView,
> {
    find_first(ps, |p: TemplateParameterView| p.name == name)
}

/// A trigger template: a condition with named parameters.
#[derive(Clone, Debug)]
pub struct Template {
    pub id: i32,
    pub name: String,
    pub description: String,
    pub sql: String,
    pub parameters: Vec<TemplateParameter>,
}

/// A template without its parameters.
#[derive(Clone, Debug)]
pub struct BareTemplate {
    pub id: i32,
    pub name: String,
    pub body: String,
    pub sql_body: String,
}

/// The value given to a template parameter.
#[derive(Clone, Debug)]
pub struct ParameterValue {
    pub name: String,
    pub value: String,
}

pub struct ParameterValueView {
    pub name: Seq<char>,
    pub value: Seq<char>,
}

impl View for ParameterValue {
    type V = ParameterValueView;

    open spec fn view(&self) -> ParameterValueView {
        ParameterValueView { name: self.name@, value: self.value@ }
    }
}

pub open spec fn parameter_values_view(v: Seq<ParameterValue>) -> Seq<ParameterValueView> {
    v.map_values(|p: ParameterValue| p@)
}

/// The value given to a template parameter, with the data type and default value of the
/// threshold it stands for.
#[derive(Clone, Debug)]
pub struct ExtendedParameterValue {
    pub name: String,
    pub value: String,
    pub data_type: Option<String>,
    pub default_value: Option<String>,
}

pub struct ExtendedParameterValueView {
    pub name: Seq<char>,
    pub value: Seq<char>,
    pub data_type: Option<Seq<char>>,
    pub default_value: Option<Seq<char>>,
}

impl View for ExtendedParameterValue {
    type V = ExtendedParameterValueView;

    open spec fn view(&self) -> ExtendedParameterValueView {
        ExtendedParameterValueView {
            name: self.name@,
            value: self.value@,
            data_type: self.data_type.deep_view(),
            default_value: self.default_value.deep_view(),
        }
    }
}

pub open spec fn extended_values_view(v: Seq<ExtendedParameterValue>) -> Seq<
    ExtendedParameterValueView,
> {
    v.map_values(|p: ExtendedParameterValue| p@)
}

/// A trigger made from a template, with thresholds that may still have to be derived.
#[derive(Clone, Debug)]
pub struct TemplatedTrigger {
    pub template: Template,
    pub name: String,
    pub description: Option<String>,
    pub parameters: Vec<ExtendedParameterValue>,
    pub thresholds: Option<Vec<Threshold>>,
    pub entity_type: String,
    pub granularity: Duration,
    pub weight: i32,
    pub enabled: bool,
}

/// A trigger made from a template, with all of its thresholds.
#[derive(Clone, Debug)]
pub struct FullTemplatedTrigger {
    pub template: Template,
    pub name: String,
    pub description: Option<String>,
    pub parameters: Vec<ParameterValue>,
    pub thresholds: Vec<Threshold>,
    pub entity_type: String,
    pub granularity: Duration,
    pub weight: i32,
    pub enabled: bool,
}

impl Template {
    /// The first parameter of the template called `parameter_name`.
    pub fn get_parameter(self, parameter_name: &str) -> (r: Option<TemplateParameter>)
        ensures
            match r {
                Some(p) => find_parameter(template_parameters_view(self.parameters@), parameter_name@)
                    == Some(p@),
                None => find_parameter(
                    template_parameters_view(self.parameters@),
                    parameter_name@,
                ) is None,
            },
    {
        match find_parameter_index(&self.parameters, parameter_name) {
            Some(i) => {
                let mut parameters = self.parameters;
                Some(parameters.swap_remove(i))
            },
            None => None,
        }
    }
}

/// The position of the first parameter in `ps` called `name`.
pub fn find_parameter_index(ps: &Vec<TemplateParameter>, name: &str) -> (r: Option<usize>)
    ensures
        match r {
            Some(i) => i < ps.len() && find_parameter(template_parameters_view(ps@), name@) == Some(
                ps@[i as int]@,
            ),
            None => find_parameter(template_parameters_view(ps@), name@) is None,
        },
{
    let ghost views = template_parameters_view(ps@);
    let ghost pred = |p: TemplateParameterView| p.name == name@;
    let mut i: usize = 0;
    while i < ps.len()
        invariant
            i <= ps.len(),
            views == template_parameters_view(ps@),
            pred == (|p: TemplateParameterView| p.name == name@),
            forall|j: int| 0 <= j < i ==> !pred(#[trigger] views[j]),
        decreases ps.len() - i,
    {
        if same_text(&ps[i].name, name) {
            proof {
                lemma_find_first_at(views, pred, i as int);
            }
            return Some(i);
        }
        assert(!pred(views[i as int]));
        i = i + 1;
    }
    proof {
        lemma_find_first_none(views, pred);
    }
    None
}


/// Whether some parameter value is called `name`.
pub open spec fn has_value_named(ps: Seq<ParameterValueView>, name: Seq<char>) -> bool {
    exists|i: int| 0 <= i < ps.len() && #[trigger] ps[i].name == name
}

/// Whether the parameter value stands for a threshold: its template parameter is a
/// threshold or lookback variable.
pub open spec fn needs_threshold(tps: Seq<TemplateParameterView>, p: ParameterValueView) -> bool {
    match find_parameter(tps, p.name) {
        Some(tp) => is_threshold_type(tp.parameter_type),
        None => false,
    }
}

/// Whether some threshold is called `name`.
pub open spec fn has_threshold_named(ths: Seq<ThresholdView>, name: Seq<char>) -> bool {
    exists|i: int| 0 <= i < ths.len() && #[trigger] ths[i].name == name
}

/// Whether `name` is the value of a parameter that stands for a threshold.
pub open spec fn is_needed_threshold(
    tps: Seq<TemplateParameterView>,
    ps: Seq<ParameterValueView>,
    name: Seq<char>,
) -> bool {
    exists|i: int|
        0 <= i < ps.len() && needs_threshold(tps, #[trigger] ps[i]) && ps[i].value == name
}

/// The kinds of inconsistency between a trigger and its template.
#[derive(Clone, Copy, Debug, PartialEq, Eq, Structural)]
pub enum CheckFailureKind {
    MissingParameter,
    ExtraneousParameter,
    MissingThreshold,
    NotAThreshold,
}

/// Template parameters that have no value.
pub open spec fn lacks_value(ps: Seq<ParameterValueView>) -> spec_fn(TemplateParameterView) -> bool {
    |tp: TemplateParameterView| !has_value_named(ps, tp.name)
}

/// Values that belong to no template parameter.
pub open spec fn lacks_parameter(tps: Seq<TemplateParameterView>) -> spec_fn(
    ParameterValueView,
) -> bool {
    |p: ParameterValueView| find_parameter(tps, p.name) is None
}

/// Threshold parameters whose threshold is missing.
pub open spec fn lacks_threshold(tps: Seq<TemplateParameterView>, ths: Seq<ThresholdView>) -> spec_fn(
    ParameterValueView,
) -> bool {
    |p: ParameterValueView| needs_threshold(tps, p) && !has_threshold_named(ths, p.value)
}

/// Thresholds that no parameter stands for.
pub open spec fn unneeded_threshold(
    tps: Seq<TemplateParameterView>,
    ps: Seq<ParameterValueView>,
) -> spec_fn(ThresholdView) -> bool {
    |th: ThresholdView| !is_needed_threshold(tps, ps, th.name)
}

/// The first inconsistency between the template's parameters `tps`, the trigger's
/// parameter values `ps` and its thresholds `ths`, with the name it concerns: a template
/// parameter without a value, then a value for no template parameter, then a threshold
/// parameter without a threshold, then a threshold that no parameter stands for.
pub open spec fn check_failure(
    tps: Seq<TemplateParameterView>,
    ps: Seq<ParameterValueView>,
    ths: Seq<ThresholdView>,
) -> Option<(CheckFailureKind, Seq<char>)> {
    match find_first(tps, lacks_value(ps)) {
        Some(tp) => Some((CheckFailureKind::MissingParameter, tp.name)),
        None => match find_first(ps, lacks_parameter(tps)) {
            Some(p) => Some((CheckFailureKind::ExtraneousParameter, p.name)),
            None => match find_first(ps, lacks_threshold(tps, ths)) {
                Some(p) => Some((CheckFailureKind::MissingThreshold, p.value)),
                None => match find_first(ths, unneeded_threshold(tps, ps)) {
                    Some(th) => Some((CheckFailureKind::NotAThreshold, th.name)),
                    None => None,
                },
            },
        },
    }
}

/// The error that reports an inconsistency of the given kind about `name`.
pub open spec fn check_error_matches(
    e: TriggerTemplateError,
    kind: CheckFailureKind,
    name: Seq<char>,
) -> bool {
    match kind {
        CheckFailureKind::MissingParameter => e matches TriggerTemplateError::MissingParameter(
            n,
        ) && n@ == name,
        CheckFailureKind::ExtraneousParameter => e matches TriggerTemplateError::ExtraneousParameter(
            n,
        ) && n@ == name,
        CheckFailureKind::MissingThreshold => e matches TriggerTemplateError::MissingThreshold(
            n,
        ) && n@ == name,
        CheckFailureKind::NotAThreshold => e matches TriggerTemplateError::NotAThreshold(n)
            && n@ == name,
    }
}

fn has_value_named_exec(ps: &Vec<ParameterValue>, name: &String) -> (r: bool)
    ensures
        r == has_value_named(parameter_values_view(ps@), name@),
{
    let ghost v = parameter_values_view(ps@);
    let mut i: usize = 0;
    while i < ps.len()
        invariant
            i <= ps.len(),
            v == parameter_values_view(ps@),
            forall|j: int| 0 <= j < i ==> #[trigger] v[j].name != name@,
        decreases ps.len() - i,
    {
        if ps[i].name == *name {
            assert(v[i as int].name == name@);
            return true;
        }
        i = i + 1;
    }
    false
}

fn has_threshold_named_exec(ths: &Vec<Threshold>, name: &String) -> (r: bool)
    ensures
        r == has_threshold_named(thresholds_view(ths@), name@),
{
    let ghost v = thresholds_view(ths@);
    let mut i: usize = 0;
    while i < ths.len()
        invariant
            i <= ths.len(),
            v == thresholds_view(ths@),
            forall|j: int| 0 <= j < i ==> #[trigger] v[j].name != name@,
        decreases ths.len() - i,
    {
        if ths[i].name == *name {
            assert(v[i as int].name == name@);
            return true;
        }
        i = i + 1;
    }
    false
}

fn needs_threshold_exec(tps: &Vec<TemplateParameter>, p: &ParameterValue) -> (r: bool)
    ensures
        r == needs_threshold(template_parameters_view(tps@), p@),
{
    match find_parameter_index(tps, p.name.as_str()) {
        Some(i) => {
            let t = tps[i].parameter_type;
            t == ParameterType::ThresholdVariable || t == ParameterType::LookbackVariable
        },
        None => false,
    }
}

fn is_needed_threshold_exec(
    tps: &Vec<TemplateParameter>,
    ps: &Vec<ParameterValue>,
    name: &String,
) -> (r: bool)
    ensures
        r == is_needed_threshold(
            template_parameters_view(tps@),
            parameter_values_view(ps@),
            name@,
        ),
{
    let ghost tv = template_parameters_view(tps@);
    let ghost v = parameter_values_view(ps@);
    let mut i: usize = 0;
    while i < ps.len()
        invariant
            i <= ps.len(),
            v == parameter_values_view(ps@),
            tv == template_parameters_view(tps@),
            forall|j: int|
                0 <= j < i ==> !(needs_threshold(tv, #[trigger] v[j]) && v[j].value == name@),
        decreases ps.len() - i,
    {
        if needs_threshold_exec(tps, &ps[i]) && ps[i].value == *name {
            assert(needs_threshold(tv, v[i as int]) && v[i as int].value == name@);
            return true;
        }
        i = i + 1;
    }
    false
}

impl FullTemplatedTrigger {
    /// Checks the trigger against its template: every template parameter has a value,
    /// every value belongs to a template parameter, every threshold parameter has a
    /// threshold and every threshold belongs to a threshold parameter. The first
    /// inconsistency found, in that order, is returned as the error.
    pub fn check_trigger(&self) -> (r: Result<(), TriggerTemplateError>)
        ensures
            match check_failure(
                template_parameters_view(self.template.parameters@),
                parameter_values_view(self.parameters@),
                thresholds_view(self.thresholds@),
            ) {
                None => r is Ok,
                Some((kind, name)) => r matches Err(e) && check_error_matches(e, kind, name),
            },
    {
        let tps = &self.template.parameters;
        let ps = &self.parameters;
        let ths = &self.thresholds;
        let ghost tv = template_parameters_view(tps@);
        let ghost pv = parameter_values_view(ps@);
        let ghost hv = thresholds_view(ths@);

        let ghost p1 = lacks_value(pv);
        let mut i: usize = 0;
        while i < tps.len()
            invariant
                i <= tps.len(),
                tv == template_parameters_view(tps@),
                pv == parameter_values_view(ps@),
                tps == &self.template.parameters,
                ps == &self.parameters,
                ths == &self.thresholds,
                hv == thresholds_view(ths@),
                p1 == lacks_value(pv),
                forall|j: int| 0 <= j < i ==> !p1(#[trigger] tv[j]),
            decreases tps.len() - i,
        {
            if !has_value_named_exec(ps, &tps[i].name) {
                proof {
                    lemma_find_first_at(tv, p1, i as int);
                }
                return Err(TriggerTemplateError::MissingParameter(tps[i].name.clone()));
            }
            assert(!p1(tv[i as int]));
            i = i + 1;
        }
        proof {
            lemma_find_first_none(tv, p1);
        }

        let ghost p2 = lacks_parameter(tv);
        let mut i: usize = 0;
        while i < ps.len()
            invariant
                i <= ps.len(),
                tv == template_parameters_view(tps@),
                pv == parameter_values_view(ps@),
                tps == &self.template.parameters,
                ps == &self.parameters,
                ths == &self.thresholds,
                hv == thresholds_view(ths@),
                p2 == lacks_parameter(tv),
                find_first(tv, lacks_value(pv)) is None,
                forall|j: int| 0 <= j < i ==> !p2(#[trigger] pv[j]),
            decreases ps.len() - i,
        {
            if find_parameter_index(tps, ps[i].name.as_str()).is_none() {
                proof {
                    lemma_find_first_at(pv, p2, i as int);
                }
                return Err(TriggerTemplateError::ExtraneousParameter(ps[i].name.clone()));
            }
            assert(!p2(pv[i as int]));
            i = i + 1;
        }
        proof {
            lemma_find_first_none(pv, p2);
        }

        let ghost p3 = lacks_threshold(tv, hv);
        let mut i: usize = 0;
        while i < ps.len()
            invariant
                i <= ps.len(),
                tv == template_parameters_view(tps@),
                pv == parameter_values_view(ps@),
                tps == &self.template.parameters,
                ps == &self.parameters,
                ths == &self.thresholds,
                hv == thresholds_view(ths@),
                hv == thresholds_view(ths@),
                p3 == lacks_threshold(tv, hv),
                find_first(tv, lacks_value(pv)) is None,
                find_first(pv, lacks_parameter(tv)) is None,
                forall|j: int| 0 <= j < i ==> !p3(#[trigger] pv[j]),
            decreases ps.len() - i,
        {
            if needs_threshold_exec(tps, &ps[i]) && !has_threshold_named_exec(ths, &ps[i].value) {
                proof {
                    lemma_find_first_at(pv, p3, i as int);
                }
                return Err(TriggerTemplateError::MissingThreshold(ps[i].value.clone()));
            }
            assert(!p3(pv[i as int]));
            i = i + 1;
        }
        proof {
            lemma_find_first_none(pv, p3);
        }

        let ghost p4 = unneeded_threshold(tv, pv);
        let mut i: usize = 0;
        while i < ths.len()
            invariant
                i <= ths.len(),
                tv == template_parameters_view(tps@),
                pv == parameter_values_view(ps@),
                tps == &self.template.parameters,
                ps == &self.parameters,
                ths == &self.thresholds,
                hv == thresholds_view(ths@),
                hv == thresholds_view(ths@),
                p4 == unneeded_threshold(tv, pv),
                find_first(tv, lacks_value(pv)) is None,
                find_first(pv, lacks_parameter(tv)) is None,
                find_first(pv, lacks_threshold(tv, hv)) is None,
                forall|j: int| 0 <= j < i ==> !p4(#[trigger] hv[j]),
            decreases ths.len() - i,
        {
            if !is_needed_threshold_exec(tps, ps, &ths[i].name) {
                proof {
                    lemma_find_first_at(hv, p4, i as int);
                }
                return Err(TriggerTemplateError::NotAThreshold(ths[i].name.clone()));
            }
            assert(!p4(hv[i as int]));
            i = i + 1;
        }
        proof {
            lemma_find_first_none(hv, p4);
        }
        Ok(())
    }
}


/// The name a parameter value takes in the condition: counters are quoted as
/// identifiers, other values are used as they are.
pub open spec fn adapted_name(tps: Seq<TemplateParameterView>, p: ParameterValueView) -> Seq<char> {
    match find_parameter(tps, p.name) {
        Some(tp) => if tp.parameter_type == ParameterType::Counter {
            seq!['"'] + p.value + seq!['"']
        } else {
            p.value
        },
        None => p.value,
    }
}

/// The name of a derived column of a parameter value: the value, an underscore and the
/// extension, quoted as an identifier for counters.
pub open spec fn adapted_extended_name(
    tps: Seq<TemplateParameterView>,
    p: ParameterValueView,
    ext: Seq<char>,
) -> Seq<char> {
    let base = p.value + seq!['_'] + ext;
    match find_parameter(tps, p.name) {
        Some(tp) => if tp.parameter_type == ParameterType::Counter {
            seq!['"'] + base + seq!['"']
        } else {
            base
        },
        None => base,
    }
}

impl FullTemplatedTrigger {
    /// The name under which `parameter` appears in the trigger condition.
    pub fn adapted_parameter_name(&self, parameter: &ParameterValue) -> (r: String)
        ensures
            r@ == adapted_name(template_parameters_view(self.template.parameters@), parameter@),
    {
        proof {
            reveal_strlit("\"");
        }
        match find_parameter_index(&self.template.parameters, parameter.name.as_str()) {
            Some(i) => match self.template.parameters[i].parameter_type {
                ParameterType::Counter => concat3("\"", parameter.value.as_str(), "\""),
                _ => parameter.value.clone(),
            },
            None => parameter.value.clone(),
        }
    }

    /// The name under which the `extension` column of `parameter` appears in the
    /// trigger condition.
    pub fn adapted_extended_parameter_name(&self, parameter: &ParameterValue, extension: &str) -> (r:
        String)
        ensures
            r@ == adapted_extended_name(
                template_parameters_view(self.template.parameters@),
                parameter@,
                extension@,
            ),
    {
        proof {
            reveal_strlit("\"");
            reveal_strlit("_");
        }
        let base = concat3(parameter.value.as_str(), "_", extension);
        match find_parameter_index(&self.template.parameters, parameter.name.as_str()) {
            Some(i) => match self.template.parameters[i].parameter_type {
                ParameterType::Counter => concat3("\"", base.as_str(), "\""),
                _ => base,
            },
            None => base,
        }
    }
}

/// Whether the template parameter called `name` is a threshold or lookback variable.
pub open spec fn param_needs_threshold(tps: Seq<TemplateParameterView>, name: Seq<char>) -> bool {
    match find_parameter(tps, name) {
        Some(tp) => is_threshold_type(tp.parameter_type),
        None => false,
    }
}

/// The threshold that a parameter value stands for: named by the value, with the data
/// type and default given, or else `numeric` and `0`.
pub open spec fn threshold_of(p: ExtendedParameterValueView) -> ThresholdView {
    ThresholdView {
        name: p.value,
        data_type: match p.data_type {
            Some(d) => d,
            None => DEFAULT_THRESHOLD_DATA_TYPE@,
        },
        value: match p.default_value {
            Some(v) => v,
            None => DEFAULT_THRESHOLD_VALUE@,
        },
    }
}

/// The thresholds derived from the parameter values that stand for thresholds, in order.
pub open spec fn derived_thresholds(
    tps: Seq<TemplateParameterView>,
    ps: Seq<ExtendedParameterValueView>,
) -> Seq<ThresholdView>
    decreases ps.len(),
{
    if ps.len() == 0 {
        Seq::empty()
    } else {
        let rest = derived_thresholds(tps, ps.drop_last());
        if param_needs_threshold(tps, ps.last().name) {
            rest.push(threshold_of(ps.last()))
        } else {
            rest
        }
    }
}

/// The plain parameter values of extended ones.
pub open spec fn plain_values(ps: Seq<ExtendedParameterValueView>) -> Seq<ParameterValueView> {
    ps.map_values(|p: ExtendedParameterValueView| ParameterValueView { name: p.name, value: p.value })
}

/// Extended parameter values without data type or default value.
pub open spec fn extended_values(ps: Seq<ParameterValueView>) -> Seq<ExtendedParameterValueView> {
    ps.map_values(
        |p: ParameterValueView|
            ExtendedParameterValueView {
                name: p.name,
                value: p.value,
                data_type: None,
                default_value: None,
            },
    )
}

/// Whether a templated trigger comes with at least one threshold.
pub open spec fn has_thresholds(t: TemplatedTrigger) -> bool {
    t.thresholds matches Some(v) && v.len() > 0
}

/// Whether every parameter value of the trigger names a parameter of its template.
pub open spec fn parameters_in_template(t: TemplatedTrigger) -> bool {
    forall|i: int|
        0 <= i < t.parameters.len() ==> find_parameter(
            template_parameters_view(t.template.parameters@),
            (#[trigger] t.parameters@[i])@.name,
        ) is Some
}

impl From<ExtendedParameterValue> for ParameterValue {
    fn from(epv: ExtendedParameterValue) -> (r: ParameterValue) {
        ParameterValue { name: epv.name, value: epv.value }
    }
}

impl vstd::std_specs::convert::FromSpecImpl<ExtendedParameterValue> for ParameterValue {
    open spec fn obeys_from_spec() -> bool {
        true
    }

    open spec fn from_spec(epv: ExtendedParameterValue) -> ParameterValue {
        ParameterValue { name: epv.name, value: epv.value }
    }
}

impl From<ParameterValue> for ExtendedParameterValue {
    fn from(pv: ParameterValue) -> (r: ExtendedParameterValue) {
        ExtendedParameterValue { name: pv.name, value: pv.value, default_value: None, data_type: None }
    }
}

impl vstd::std_specs::convert::FromSpecImpl<ParameterValue> for ExtendedParameterValue {
    open spec fn obeys_from_spec() -> bool {
        true
    }

    open spec fn from_spec(pv: ParameterValue) -> ExtendedParameterValue {
        ExtendedParameterValue { name: pv.name, value: pv.value, default_value: None, data_type: None }
    }
}

impl From<Template> for BareTemplate {
    fn from(template: Template) -> (r: BareTemplate) {
        BareTemplate {
            id: template.id,
            name: template.name,
            body: template.description,
            sql_body: template.sql,
        }
    }
}

impl vstd::std_specs::convert::FromSpecImpl<Template> for BareTemplate {
    open spec fn obeys_from_spec() -> bool {
        true
    }

    open spec fn from_spec(template: Template) -> BareTemplate {
        BareTemplate {
            id: template.id,
            name: template.name,
            body: template.description,
            sql_body: template.sql,
        }
    }
}

/// Plain copies of extended parameter values.
fn to_plain_values(ps: &Vec<ExtendedParameterValue>) -> (r: Vec<ParameterValue>)
    ensures
        parameter_values_view(r@) == plain_values(extended_values_view(ps@)),
{
    let ghost ev = extended_values_view(ps@);
    let mut r: Vec<ParameterValue> = Vec::new();
    let mut i: usize = 0;
    while i < ps.len()
        invariant
            i <= ps.len(),
            ev == extended_values_view(ps@),
            parameter_values_view(r@) == plain_values(ev.take(i as int)),
        decreases ps.len() - i,
    {
        r.push(ParameterValue { name: ps[i].name.clone(), value: ps[i].value.clone() });
        proof {
            assert(plain_values(ev.take(i + 1)) =~= plain_values(ev.take(i as int)).push(
                ParameterValueView { name: ev[i as int].name, value: ev[i as int].value },
            ));
            assert(parameter_values_view(r@) =~= plain_values(ev.take(i + 1)));
        }
        i = i + 1;
    }
    assert(ev.take(ps.len() as int) =~= ev);
    r
}

/// Extended copies of plain parameter values, without data type or default value.
fn to_extended_values(ps: &Vec<ParameterValue>) -> (r: Vec<ExtendedParameterValue>)
    ensures
        extended_values_view(r@) == extended_values(parameter_values_view(ps@)),
{
    let ghost pv = parameter_values_view(ps@);
    let mut r: Vec<ExtendedParameterValue> = Vec::new();
    let mut i: usize = 0;
    while i < ps.len()
        invariant
            i <= ps.len(),
            pv == parameter_values_view(ps@),
            extended_values_view(r@) == extended_values(pv.take(i as int)),
        decreases ps.len() - i,
    {
        r.push(
            ExtendedParameterValue {
                name: ps[i].name.clone(),
                value: ps[i].value.clone(),
                data_type: None,
                default_value: None,
            },
        );
        proof {
            assert(extended_values(pv.take(i + 1)) =~= extended_values(pv.take(i as int)).push(
                ExtendedParameterValueView {
                    name: pv[i as int].name,
                    value: pv[i as int].value,
                    data_type: None,
                    default_value: None,
                },
            ));
            assert(extended_values_view(r@) =~= extended_values(pv.take(i + 1)));
        }
        i = i + 1;
    }
    assert(pv.take(ps.len() as int) =~= pv);
    r
}

/// The thresholds derived from the parameter values that stand for thresholds.
fn derive_thresholds(tps: &Vec<TemplateParameter>, ps: &Vec<ExtendedParameterValue>) -> (r: Vec<
    Threshold,
>)
    requires
        forall|i: int|
            0 <= i < ps.len() ==> find_parameter(
                template_parameters_view(tps@),
                (#[trigger] ps@[i])@.name,
            ) is Some,
    ensures
        thresholds_view(r@) == derived_thresholds(
            template_parameters_view(tps@),
            extended_values_view(ps@),
        ),
{
    let ghost tv = template_parameters_view(tps@);
    let ghost ev = extended_values_view(ps@);
    let mut r: Vec<Threshold> = Vec::new();
    let mut i: usize = 0;
    proof {
        reveal_strlit("numeric");
        reveal_strlit("0");
    }
    while i < ps.len()
        invariant
            i <= ps.len(),
            tv == template_parameters_view(tps@),
            ev == extended_values_view(ps@),
            thresholds_view(r@) == derived_thresholds(tv, ev.take(i as int)),
            forall|i: int|
                0 <= i < ps.len() ==> find_parameter(tv, (#[trigger] ps@[i])@.name) is Some,
        decreases ps.len() - i,
    {
        assert(ev.take(i + 1).drop_last() =~= ev.take(i as int));
        assert(ev.take(i + 1).last() == ev[i as int]);
        let p = &ps[i];
        let k = find_parameter_index(tps, p.name.as_str());
        match k {
            Some(j) => {
                let t = tps[j].parameter_type;
                if t == ParameterType::ThresholdVariable || t == ParameterType::LookbackVariable {
                    let data_type = match &p.data_type {
                        Some(d) => d.clone(),
                        None => DEFAULT_THRESHOLD_DATA_TYPE.to_string(),
                    };
                    let value = match &p.default_value {
                        Some(v) => v.clone(),
                        None => DEFAULT_THRESHOLD_VALUE.to_string(),
                    };
                    r.push(Threshold { name: p.value.clone(), data_type, value });
                    assert(thresholds_view(r@) =~= derived_thresholds(tv, ev.take(i + 1)));
                } else {
                    assert(thresholds_view(r@) =~= derived_thresholds(tv, ev.take(i + 1)));
                }
            },
            None => {
                assert(false);
            },
        }
        i = i + 1;
    }
    assert(ev.take(ps.len() as int) =~= ev);
    r
}

/// The thresholds that a full trigger made from `t` gets: those of `t` where it has any,
/// or else those derived from its threshold parameters.
pub open spec fn full_thresholds(t: TemplatedTrigger) -> Seq<ThresholdView> {
    if has_thresholds(t) {
        thresholds_view(t.thresholds.unwrap()@)
    } else {
        derived_thresholds(
            template_parameters_view(t.template.parameters@),
            extended_values_view(t.parameters@),
        )
    }
}

impl FullTemplatedTrigger {
    /// Completes a templated trigger. Where it comes with thresholds, they are kept;
    /// otherwise a threshold is derived from each parameter value whose template
    /// parameter is a threshold or lookback variable. Deriving them needs each parameter
    /// value to name a template parameter.
    pub fn from_templated(t: TemplatedTrigger) -> (r: FullTemplatedTrigger)
        requires
            !has_thresholds(t) ==> parameters_in_template(t),
        ensures
            r.template == t.template,
            r.name == t.name,
            r.description == t.description,
            r.entity_type == t.entity_type,
            r.granularity == t.granularity,
            r.weight == t.weight,
            r.enabled == t.enabled,
            parameter_values_view(r.parameters@) == plain_values(extended_values_view(t.parameters@)),
            thresholds_view(r.thresholds@) == full_thresholds(t),
            has_thresholds(t) ==> r.thresholds == t.thresholds.unwrap(),
    {
        let any_thresholds = match &t.thresholds {
            Some(ths) => ths.len() > 0,
            None => false,
        };
        let parameters = to_plain_values(&t.parameters);
        if any_thresholds {
            let thresholds = match t.thresholds {
                Some(ths) => ths,
                None => Vec::new(),
            };
            FullTemplatedTrigger {
                template: t.template,
                name: t.name,
                description: t.description,
                parameters,
                thresholds,
                entity_type: t.entity_type,
                granularity: t.granularity,
                weight: t.weight,
                enabled: t.enabled,
            }
        } else {
            let thresholds = derive_thresholds(&t.template.parameters, &t.parameters);
            FullTemplatedTrigger {
                template: t.template,
                name: t.name,
                description: t.description,
                parameters,
                thresholds,
                entity_type: t.entity_type,
                granularity: t.granularity,
                weight: t.weight,
                enabled: t.enabled,
            }
        }
    }
}

impl TemplatedTrigger {
    /// A templated trigger with the thresholds and parameter values of a full one.
    pub fn from_full(full: FullTemplatedTrigger) -> (r: TemplatedTrigger)
        ensures
            r.template == full.template,
            r.name == full.name,
            r.description == full.description,
            r.entity_type == full.entity_type,
            r.granularity == full.granularity,
            r.weight == full.weight,
            r.enabled == full.enabled,
            extended_values_view(r.parameters@) == extended_values(
                parameter_values_view(full.parameters@),
            ),
            r.thresholds == Some(full.thresholds),
    {
        let parameters = to_extended_values(&full.parameters);
        TemplatedTrigger {
            template: full.template,
            name: full.name,
            description: full.description,
            parameters,
            thresholds: Some(full.thresholds),
            entity_type: full.entity_type,
            granularity: full.granularity,
            weight: full.weight,
            enabled: full.enabled,
        }
    }
}


/// Every parameter value that stands for a threshold has its derived threshold.
proof fn lemma_derived_complete(
    tps: Seq<TemplateParameterView>,
    ps: Seq<ExtendedParameterValueView>,
    i: int,
)
    requires
        0 <= i < ps.len(),
        param_needs_threshold(tps, ps[i].name),
    ensures
        exists|k: int|
            0 <= k < derived_thresholds(tps, ps).len() && #[trigger] derived_thresholds(tps, ps)[k]
                == threshold_of(ps[i]),
    decreases ps.len(),
{
    let d = derived_thresholds(tps, ps);
    let rest = derived_thresholds(tps, ps.drop_last());
    if i == ps.len() - 1 {
        assert(d[rest.len() as int] == threshold_of(ps[i]));
    } else {
        lemma_derived_complete(tps, ps.drop_last(), i);
        let k = choose|k: int| 0 <= k < rest.len() && #[trigger] rest[k] == threshold_of(ps[i]);
        assert(d[k] == rest[k]);
    }
}

/// Every derived threshold comes from a parameter value that stands for a threshold.
proof fn lemma_derived_sound(tps: Seq<TemplateParameterView>, ps: Seq<ExtendedParameterValueView>, k: int)
    requires
        0 <= k < derived_thresholds(tps, ps).len(),
    ensures
        exists|i: int|
            0 <= i < ps.len() && param_needs_threshold(tps, #[trigger] ps[i].name)
                && derived_thresholds(tps, ps)[k] == threshold_of(ps[i]),
    decreases ps.len(),
{
    let d = derived_thresholds(tps, ps);
    let rest = derived_thresholds(tps, ps.drop_last());
    if k < rest.len() {
        lemma_derived_sound(tps, ps.drop_last(), k);
        let i = choose|i: int|
            0 <= i < ps.drop_last().len() && param_needs_threshold(tps, #[trigger] ps.drop_last()[i].name)
                && rest[k] == threshold_of(ps.drop_last()[i]);
        assert(ps[i] == ps.drop_last()[i]);
    } else {
        assert(ps[ps.len() - 1] == ps.last());
    }
}

/// Completing a trigger undoes turning it into a templated one: a full trigger with
/// thresholds, made templated and completed again, has the same parameter values and
/// thresholds.
pub proof fn lemma_full_templated_round_trip(t: TemplatedTrigger, full: FullTemplatedTrigger)
    requires
        full.thresholds.len() > 0,
        t.thresholds == Some(full.thresholds),
        extended_values_view(t.parameters@) == extended_values(parameter_values_view(full.parameters@)),
    ensures
        has_thresholds(t),
        full_thresholds(t) == thresholds_view(full.thresholds@),
        plain_values(extended_values_view(t.parameters@)) == parameter_values_view(full.parameters@),
{
    assert(plain_values(extended_values(parameter_values_view(full.parameters@))) =~= parameter_values_view(
        full.parameters@,
    ));
}

/// A trigger without thresholds whose parameter values match its template exactly (each
/// template parameter has a value and each value names a template parameter) passes the
/// template check once its thresholds are derived.
pub proof fn lemma_derived_thresholds_pass_check(
    tps: Seq<TemplateParameterView>,
    ps: Seq<ExtendedParameterValueView>,
)
    requires
        forall|i: int| 0 <= i < ps.len() ==> find_parameter(tps, (#[trigger] ps[i]).name) is Some,
        forall|j: int| 0 <= j < tps.len() ==> has_value_named(plain_values(ps), (#[trigger] tps[j]).name),
    ensures
        check_failure(tps, plain_values(ps), derived_thresholds(tps, ps)) is None,
{
    let pv = plain_values(ps);
    let d = derived_thresholds(tps, ps);
    assert forall|j: int| 0 <= j < tps.len() implies !lacks_value(pv)(#[trigger] tps[j]) by {
        assert(has_value_named(pv, tps[j].name));
    }
    crate::text::lemma_find_first_none(tps, lacks_value(pv));
    assert forall|i: int| 0 <= i < pv.len() implies !lacks_parameter(tps)(#[trigger] pv[i]) by {
        assert(find_parameter(tps, ps[i].name) is Some);
    }
    crate::text::lemma_find_first_none(pv, lacks_parameter(tps));
    assert forall|i: int| 0 <= i < pv.len() implies !lacks_threshold(tps, d)(#[trigger] pv[i]) by {
        if needs_threshold(tps, pv[i]) {
            lemma_derived_complete(tps, ps, i);
            let k = choose|k: int| 0 <= k < d.len() && #[trigger] d[k] == threshold_of(ps[i]);
            assert(d[k].name == pv[i].value);
        }
    }
    crate::text::lemma_find_first_none(pv, lacks_threshold(tps, d));
    assert forall|k: int| 0 <= k < d.len() implies !unneeded_threshold(tps, pv)(#[trigger] d[k]) by {
        lemma_derived_sound(tps, ps, k);
        let i = choose|i: int|
            0 <= i < ps.len() && param_needs_threshold(tps, #[trigger] ps[i].name) && d[k]
                == threshold_of(ps[i]);
        assert(needs_threshold(tps, pv[i]) && pv[i].value == d[k].name);
    }
    crate::text::lemma_find_first_none(d, unneeded_threshold(tps, pv));
}


/// A trigger that passes the check needs each of its thresholds: for every threshold
/// there is a parameter value called like it whose template parameter is a threshold or
/// lookback variable.
pub proof fn lemma_checked_thresholds_needed(
    tps: Seq<TemplateParameterView>,
    ps: Seq<ParameterValueView>,
    ths: Seq<ThresholdView>,
)
    requires
        check_failure(tps, ps, ths) is None,
    ensures
        forall|i: int|
            0 <= i < ths.len() ==> exists|k: int|
                0 <= k < ps.len() && #[trigger] ps[k].value == (#[trigger] ths[i]).name
                    && needs_threshold(tps, ps[k]),
{
    assert(find_first(ths, unneeded_threshold(tps, ps)) is None);
    lemma_find_first_none_all(ths, unneeded_threshold(tps, ps));
    assert forall|i: int| 0 <= i < ths.len() implies exists|k: int|
        0 <= k < ps.len() && #[trigger] ps[k].value == (#[trigger] ths[i]).name && needs_threshold(tps, ps[k]) by {
        assert(!unneeded_threshold(tps, ps)(ths[i]));
        assert(is_needed_threshold(tps, ps, ths[i].name));
        let k = choose|k: int| 0 <= k < ps.len() && needs_threshold(tps, #[trigger] ps[k]) && ps[k].value == ths[i].name;
        assert(ps[k].value == ths[i].name);
    }
}

/// A trigger with a threshold that no parameter value stands for fails the check with
/// `NotAThreshold` and the name of the first such threshold, when every template
/// parameter has a value, every value has a template parameter and every threshold
/// parameter has its threshold.
pub proof fn lemma_check_reports_unneeded_threshold(
    tps: Seq<TemplateParameterView>,
    ps: Seq<ParameterValueView>,
    ths: Seq<ThresholdView>,
    i: int,
)
    requires
        forall|t: int| 0 <= t < tps.len() ==> has_value_named(ps, (#[trigger] tps[t]).name),
        forall|k: int| 0 <= k < ps.len() ==> find_parameter(tps, (#[trigger] ps[k]).name) is Some,
        forall|k: int|
            0 <= k < ps.len() && needs_threshold(tps, #[trigger] ps[k]) ==> has_threshold_named(ths, ps[k].value),
        0 <= i < ths.len(),
        forall|k: int| 0 <= k < ps.len() ==> !(needs_threshold(tps, #[trigger] ps[k]) && ps[k].value == ths[i].name),
        forall|j: int|
            0 <= j < i ==> exists|k: int|
                0 <= k < ps.len() && #[trigger] ps[k].value == (#[trigger] ths[j]).name && needs_threshold(tps, ps[k]),
    ensures
        check_failure(tps, ps, ths) == Some((CheckFailureKind::NotAThreshold, ths[i].name)),
{
    assert forall|t: int| 0 <= t < tps.len() implies !lacks_value(ps)(#[trigger] tps[t]) by {
        assert(has_value_named(ps, tps[t].name));
    }
    lemma_find_first_none(tps, lacks_value(ps));
    assert forall|k: int| 0 <= k < ps.len() implies !lacks_parameter(tps)(#[trigger] ps[k]) by {
        assert(find_parameter(tps, ps[k].name) is Some);
    }
    lemma_find_first_none(ps, lacks_parameter(tps));
    assert forall|k: int| 0 <= k < ps.len() implies !lacks_threshold(tps, ths)(#[trigger] ps[k]) by {
        if needs_threshold(tps, ps[k]) {
            assert(has_threshold_named(ths, ps[k].value));
        }
    }
    lemma_find_first_none(ps, lacks_threshold(tps, ths));
    assert(unneeded_threshold(tps, ps)(ths[i])) by {
        if is_needed_threshold(tps, ps, ths[i].name) {
            let k = choose|k: int| 0 <= k < ps.len() && needs_threshold(tps, #[trigger] ps[k]) && ps[k].value == ths[i].name;
            assert(!(needs_threshold(tps, ps[k]) && ps[k].value == ths[i].name));
        }
    }
    assert forall|j: int| 0 <= j < i implies !unneeded_threshold(tps, ps)(#[trigger] ths[j]) by {
        let k = choose|k: int| 0 <= k < ps.len() && #[trigger] ps[k].value == ths[j].name && needs_threshold(tps, ps[k]);
        assert(needs_threshold(tps, ps[k]) && ps[k].value == ths[j].name);
    }
    lemma_find_first_at(ths, unneeded_threshold(tps, ps), i);
}

/// A trigger that passes the check is consistent with its template: every template
/// parameter has a value, every value has a template parameter, and every value that
/// stands for a threshold has that threshold.
pub proof fn lemma_checked_trigger_consistent(
    tps: Seq<TemplateParameterView>,
    ps: Seq<ParameterValueView>,
    ths: Seq<ThresholdView>,
)
    requires
        check_failure(tps, ps, ths) is None,
    ensures
        forall|t: int| 0 <= t < tps.len() ==> has_value_named(ps, (#[trigger] tps[t]).name),
        forall|k: int| 0 <= k < ps.len() ==> find_parameter(tps, (#[trigger] ps[k]).name) is Some,
        forall|k: int|
            0 <= k < ps.len() && needs_threshold(tps, #[trigger] ps[k]) ==> has_threshold_named(ths, ps[k].value),
{
    lemma_find_first_none_all(tps, lacks_value(ps));
    lemma_find_first_none_all(ps, lacks_parameter(tps));
    lemma_find_first_none_all(ps, lacks_threshold(tps, ths));
    assert forall|t: int| 0 <= t < tps.len() implies has_value_named(ps, (#[trigger] tps[t]).name) by {
        assert(!lacks_value(ps)(tps[t]));
    }
    assert forall|k: int| 0 <= k < ps.len() implies find_parameter(tps, (#[trigger] ps[k]).name) is Some by {
        assert(!lacks_parameter(tps)(ps[k]));
    }
    assert forall|k: int| 0 <= k < ps.len() && needs_threshold(tps, #[trigger] ps[k]) implies has_threshold_named(
        ths,
        ps[k].value,
    ) by {
        assert(!lacks_threshold(tps, ths)(ps[k]));
    }
}
} // verus!
