use vstd::prelude::*;

use crate::text::{
    concat3, decimal, escape_identifier, find_first, lemma_find_first_at, lemma_find_first_none,
    quote_ident, replace_all, replace_str, signed_decimal, i64_to_decimal, u64_to_decimal,
};
use crate::trigger::{
    kpi_columns_view, thresholds_view, KPIDataColumn, KPIDataColumnView, Threshold,
    ThresholdView, Trigger, TrendStoreLink,
};
use crate::trigger_template::{
    adapted_extended_name, adapted_name, check_error_matches, check_failure, find_parameter,
    find_parameter_index, parameter_values_view, template_parameters_view, FullTemplatedTrigger,
    ParameterType, ParameterValue, ParameterValueView, TemplateParameter, TemplateParameterView,
    TriggerTemplateError,
};

verus! {

/// Whether the template parameter called `name` is a counter.
pub open spec fn is_counter(tps: Seq<TemplateParameterView>, name: Seq<char>) -> bool {
    find_parameter(tps, name) matches Some(tp) && tp.parameter_type == ParameterType::Counter
}

/// Whether the template parameter called `name` is a counter with a lookback.
pub open spec fn is_lookback_counter(tps: Seq<TemplateParameterView>, name: Seq<char>) -> bool {
    find_parameter(tps, name) matches Some(tp) && tp.parameter_type == ParameterType::Counter
        && tp.has_lookback
}

/// The parameter values, in order, whose template parameter satisfies `keep`.
pub open spec fn values_where(
    tps: Seq<TemplateParameterView>,
    ps: Seq<ParameterValueView>,
    lookback_only: bool,
) -> Seq<ParameterValueView>
    decreases ps.len(),
{
    if ps.len() == 0 {
        Seq::empty()
    } else {
        let rest = values_where(tps, ps.drop_last(), lookback_only);
        let keep = if lookback_only {
            is_lookback_counter(tps, ps.last().name)
        } else {
            is_counter(tps, ps.last().name)
        };
        if keep {
            rest.push(ps.last())
        } else {
            rest
        }
    }
}

/// Whether every parameter value names a parameter of the template.
pub open spec fn all_in_template(tps: Seq<TemplateParameterView>, ps: Seq<ParameterValueView>) -> bool {
    forall|i: int| 0 <= i < ps.len() ==> find_parameter(tps, (#[trigger] ps[i]).name) is Some
}

fn copy_value(p: &ParameterValue) -> (r: ParameterValue)
    ensures
        r@ == p@,
{
    ParameterValue { name: p.name.clone(), value: p.value.clone() }
}

/// The parameter values whose template parameter is a counter (with a lookback, when
/// `lookback_only`).
fn select_counters(tps: &Vec<TemplateParameter>, ps: &Vec<ParameterValue>, lookback_only: bool) -> (r:
    Vec<ParameterValue>)
    requires
        all_in_template(template_parameters_view(tps@), parameter_values_view(ps@)),
    ensures
        parameter_values_view(r@) == values_where(
            template_parameters_view(tps@),
            parameter_values_view(ps@),
            lookback_only,
        ),
{
    let ghost tv = template_parameters_view(tps@);
    let ghost pv = parameter_values_view(ps@);
    let mut r: Vec<ParameterValue> = Vec::new();
    let mut i: usize = 0;
    while i < ps.len()
        invariant
            i <= ps.len(),
            tv == template_parameters_view(tps@),
            pv == parameter_values_view(ps@),
            all_in_template(tv, pv),
            parameter_values_view(r@) == values_where(tv, pv.take(i as int), lookback_only),
        decreases ps.len() - i,
    {
        assert(pv.take(i + 1).drop_last() =~= pv.take(i as int));
        assert(pv.take(i + 1).last() == pv[i as int]);
        assert(find_parameter(tv, pv[i as int].name) is Some);
        let j = find_parameter_index(tps, ps[i].name.as_str());
        match j {
            Some(j) => {
                let keep = if lookback_only {
                    tps[j].parameter_type == ParameterType::Counter && tps[j].has_lookback
                } else {
                    tps[j].parameter_type == ParameterType::Counter
                };
                if keep {
                    r.push(copy_value(&ps[i]));
                }
                assert(parameter_values_view(r@) =~= values_where(tv, pv.take(i + 1), lookback_only));
            },
            None => {},
        }
        i = i + 1;
    }
    assert(pv.take(ps.len() as int) =~= pv);
    r
}

impl FullTemplatedTrigger {
    /// The parameter values that are counters, in order.
    pub fn counters(&self) -> (r: Vec<ParameterValue>)
        requires
            all_in_template(
                template_parameters_view(self.template.parameters@),
                parameter_values_view(self.parameters@),
            ),
        ensures
            parameter_values_view(r@) == values_where(
                template_parameters_view(self.template.parameters@),
                parameter_values_view(self.parameters@),
                false,
            ),
    {
        select_counters(&self.template.parameters, &self.parameters, false)
    }

    /// The parameter values that are counters with a lookback, in order.
    pub fn lookback_counters(&self) -> (r: Vec<ParameterValue>)
        requires
            all_in_template(
                template_parameters_view(self.template.parameters@),
                parameter_values_view(self.parameters@),
            ),
        ensures
            parameter_values_view(r@) == values_where(
                template_parameters_view(self.template.parameters@),
                parameter_values_view(self.parameters@),
                true,
            ),
    {
        select_counters(&self.template.parameters, &self.parameters, true)
    }
}

/// The trend store parts that the counters of a trigger are read from: each part once,
/// in the order first found, and for each part the counter that found it.
pub struct CounterSources {
    pub sources: Vec<String>,
    pub counter_source: Vec<(String, String)>,
}

pub open spec fn pairs_view(v: Seq<(String, String)>) -> Seq<(Seq<char>, Seq<char>)> {
    v.map_values(|p: (String, String)| (p.0@, p.1@))
}

/// The parts and counter-to-part pairs found from the first part of each counter, in
/// order: a part seen before is skipped.
pub open spec fn resolved_sources(cs: Seq<ParameterValueView>, firsts: Seq<Seq<char>>) -> (
    Seq<Seq<char>>,
    Seq<(Seq<char>, Seq<char>)>,
)
    decreases firsts.len(),
{
    if firsts.len() == 0 {
        (Seq::empty(), Seq::empty())
    } else {
        let prev = resolved_sources(cs, firsts.drop_last());
        let s = firsts.last();
        if prev.0.contains(s) {
            prev
        } else {
            (prev.0.push(s), prev.1.push((cs[firsts.len() - 1].value, s)))
        }
    }
}

/// The part in which the counter with value `v` was found: the last pair for it.
pub open spec fn source_of(pairs: Seq<(Seq<char>, Seq<char>)>, v: Seq<char>) -> Option<Seq<char>>
    decreases pairs.len(),
{
    if pairs.len() == 0 {
        None
    } else if pairs.last().0 == v {
        Some(pairs.last().1)
    } else {
        source_of(pairs.drop_last(), v)
    }
}

pub open spec fn strings_of(v: Seq<String>) -> Seq<Seq<char>> {
    v.map_values(|s: String| s@)
}

fn contains_string(v: &Vec<String>, s: &String) -> (r: bool)
    ensures
        r == strings_of(v@).contains(s@),
{
    let mut i: usize = 0;
    while i < v.len()
        invariant
            i <= v.len(),
            forall|j: int| 0 <= j < i ==> strings_of(v@)[j] != s@,
        decreases v.len() - i,
    {
        if v[i] == *s {
            assert(strings_of(v@)[i as int] == s@);
            return true;
        }
        i = i + 1;
    }
    false
}

/// The error for a counter with value `v` whose lookup returned `n` rows.
pub open spec fn lookup_error(e: TriggerTemplateError, n: nat, v: Seq<char>) -> bool {
    if n == 0 {
        e matches TriggerTemplateError::NoCounter(x) && x@ == v
    } else if n > 1 {
        e matches TriggerTemplateError::CounterNotUnique(x) && x@ == v
    } else {
        false
    }
}

/// Finds the trend store part of each counter from the rows that the lookup of that
/// counter returned (`lookups[i]` for `counters[i]`). A counter with no row is
/// `NoCounter`, one with several rows `CounterNotUnique`; the first such counter decides.
pub fn resolve_counter_sources(counters: &Vec<ParameterValue>, lookups: &Vec<Vec<String>>) -> (r:
    Result<CounterSources, TriggerTemplateError>)
    requires
        lookups.len() == counters.len(),
    ensures
        match r {
            Ok(res) => (forall|i: int| 0 <= i < lookups.len() ==> (#[trigger] lookups@[i]).len()
                == 1) && ({
                let firsts = Seq::new(lookups.len() as nat, |i: int| lookups@[i]@[0]@);
                let exp = resolved_sources(parameter_values_view(counters@), firsts);
                strings_of(res.sources@) == exp.0 && pairs_view(res.counter_source@) == exp.1
            }),
            Err(e) => exists|i: int|
                0 <= i < lookups.len() && (forall|j: int|
                    0 <= j < i ==> (#[trigger] lookups@[j]).len() == 1) && lookup_error(
                    e,
                    lookups@[i]@.len(),
                    counters@[i]@.value,
                ),
        },
{
    let ghost cv = parameter_values_view(counters@);
    let ghost firsts = Seq::new(lookups.len() as nat, |i: int| lookups@[i]@[0]@);
    let mut sources: Vec<String> = Vec::new();
    let mut pairs: Vec<(String, String)> = Vec::new();
    let mut i: usize = 0;
    while i < counters.len()
        invariant
            i <= counters.len(),
            lookups.len() == counters.len(),
            cv == parameter_values_view(counters@),
            firsts == Seq::new(lookups.len() as nat, |i: int| lookups@[i]@[0]@),
            forall|j: int| 0 <= j < i ==> (#[trigger] lookups@[j]).len() == 1,
            strings_of(sources@) == resolved_sources(cv, firsts.take(i as int)).0,
            pairs_view(pairs@) == resolved_sources(cv, firsts.take(i as int)).1,
        decreases counters.len() - i,
    {
        let rows = &lookups[i];
        if rows.len() == 0 {
            return Err(TriggerTemplateError::NoCounter(counters[i].value.clone()));
        } else if rows.len() > 1 {
            return Err(TriggerTemplateError::CounterNotUnique(counters[i].value.clone()));
        }
        let source = &rows[0];
        assert(firsts.take(i + 1).drop_last() =~= firsts.take(i as int));
        assert(firsts.take(i + 1).last() == source@);
        if !contains_string(&sources, source) {
            sources.push(source.clone());
            pairs.push((counters[i].value.clone(), source.clone()));
            assert(strings_of(sources@) =~= resolved_sources(cv, firsts.take(i + 1)).0);
            assert(pairs_view(pairs@) =~= resolved_sources(cv, firsts.take(i + 1)).1);
        }
        i = i + 1;
    }
    assert(firsts.take(counters.len() as int) =~= firsts);
    Ok(CounterSources { sources, counter_source: pairs })
}

/// The part in which the counter with value `v` was found.
fn lookup_source(pairs: &Vec<(String, String)>, v: &String) -> (r: Option<String>)
    ensures
        match r {
            Some(s) => source_of(pairs_view(pairs@), v@) == Some(s@),
            None => source_of(pairs_view(pairs@), v@) is None,
        },
{
    let ghost pv = pairs_view(pairs@);
    let mut i: usize = pairs.len();
    assert(pv.take(i as int) =~= pv);
    while i > 0
        invariant
            i <= pairs.len(),
            pv == pairs_view(pairs@),
            source_of(pv, v@) == source_of(pv.take(i as int), v@),
        decreases i,
    {
        assert(pv.take(i as int).drop_last() =~= pv.take(i - 1));
        assert(pv.take(i as int).last() == pv[i - 1]);
        if pairs[i - 1].0 == *v {
            return Some(pairs[i - 1].1.clone());
        }
        i = i - 1;
    }
    None
}


/// The KPI data column called `name`, of type `numeric`.
pub open spec fn numeric_column(name: Seq<char>) -> KPIDataColumnView {
    KPIDataColumnView { name: name, data_type: "numeric"@ }
}

/// The statistics columns of a counter with a lookback.
pub open spec fn lookback_stat_columns(v: Seq<char>) -> Seq<KPIDataColumnView> {
    seq![
        numeric_column(v + "_count"@),
        numeric_column(v + "_avg"@),
        numeric_column(v + "_max"@),
        numeric_column(v + "_min"@),
        numeric_column(v + "_sum"@),
        numeric_column(v + "_stddev"@),
        numeric_column(v + "_var"@),
    ]
}

/// The statistics columns of all counters with a lookback, in order.
pub open spec fn all_lookback_stat_columns(lbs: Seq<ParameterValueView>) -> Seq<KPIDataColumnView>
    decreases lbs.len(),
{
    if lbs.len() == 0 {
        Seq::empty()
    } else {
        all_lookback_stat_columns(lbs.drop_last()) + lookback_stat_columns(lbs.last().value)
    }
}

/// The KPI data of a templated trigger: a numeric column per counter, then the
/// statistics columns of each counter with a lookback.
pub open spec fn kpi_columns(cs: Seq<ParameterValueView>, lbs: Seq<ParameterValueView>) -> Seq<
    KPIDataColumnView,
> {
    cs.map_values(|c: ParameterValueView| numeric_column(c.value)) + all_lookback_stat_columns(lbs)
}

fn numeric_col(name: String) -> (r: KPIDataColumn)
    ensures
        r@ == numeric_column(name@),
{
    KPIDataColumn { name, data_type: "numeric".to_string() }
}

fn suffixed(v: &String, suffix: &str) -> (r: String)
    ensures
        r@ == v@ + suffix@,
{
    v.clone().concat(suffix)
}

/// The KPI data columns of a trigger with counters `cs` and lookback counters `lbs`.
pub fn kpi_data_columns(cs: &Vec<ParameterValue>, lbs: &Vec<ParameterValue>) -> (r: Vec<KPIDataColumn>)
    ensures
        kpi_columns_view(r@) == kpi_columns(parameter_values_view(cs@), parameter_values_view(lbs@)),
{
    let ghost cv = parameter_values_view(cs@);
    let ghost lv = parameter_values_view(lbs@);
    let mut r: Vec<KPIDataColumn> = Vec::new();
    let mut i: usize = 0;
    while i < cs.len()
        invariant
            i <= cs.len(),
            cv == parameter_values_view(cs@),
            kpi_columns_view(r@) == cv.take(i as int).map_values(
                |c: ParameterValueView| numeric_column(c.value),
            ),
        decreases cs.len() - i,
    {
        let ghost before = kpi_columns_view(r@);
        r.push(numeric_col(cs[i].value.clone()));
        assert(kpi_columns_view(r@) =~= before.push(numeric_column(cv[i as int].value)));
        assert(cv.take(i + 1).map_values(|c: ParameterValueView| numeric_column(c.value))
            =~= cv.take(i as int).map_values(|c: ParameterValueView| numeric_column(c.value)).push(
            numeric_column(cv[i as int].value),
        ));
        assert(kpi_columns_view(r@) =~= cv.take(i + 1).map_values(
            |c: ParameterValueView| numeric_column(c.value),
        ));
        i = i + 1;
    }
    assert(cv.take(cs.len() as int) =~= cv);
    let ghost head = kpi_columns_view(r@);
    let mut k: usize = 0;
    while k < lbs.len()
        invariant
            k <= lbs.len(),
            lv == parameter_values_view(lbs@),
            kpi_columns_view(r@) == head + all_lookback_stat_columns(lv.take(k as int)),
        decreases lbs.len() - k,
    {
        let v = &lbs[k].value;
        let ghost before = kpi_columns_view(r@);
        r.push(numeric_col(suffixed(v, "_count")));
        r.push(numeric_col(suffixed(v, "_avg")));
        r.push(numeric_col(suffixed(v, "_max")));
        r.push(numeric_col(suffixed(v, "_min")));
        r.push(numeric_col(suffixed(v, "_sum")));
        r.push(numeric_col(suffixed(v, "_stddev")));
        r.push(numeric_col(suffixed(v, "_var")));
        assert(lv.take(k + 1).drop_last() =~= lv.take(k as int));
        assert(lv.take(k + 1).last() == lv[k as int]);
        assert(kpi_columns_view(r@) =~= before + lookback_stat_columns(v@));
        assert(all_lookback_stat_columns(lv.take(k + 1)) == all_lookback_stat_columns(lv.take(k as int))
            + lookback_stat_columns(v@));
        assert(kpi_columns_view(r@) =~= head + all_lookback_stat_columns(lv.take(k + 1)));
        k = k + 1;
    }
    assert(lv.take(lbs.len() as int) =~= lv);
    r
}

/// A placeholder of the condition: the name in braces.
pub open spec fn placeholder(name: Seq<char>, tail: Seq<char>) -> Seq<char> {
    "{"@ + name + tail
}

/// Whether a template parameter called `name` has a lookback.
pub open spec fn has_lookback_parameter(tps: Seq<TemplateParameterView>, name: Seq<char>) -> bool {
    exists|j: int| 0 <= j < tps.len() && (#[trigger] tps[j]).name == name && tps[j].has_lookback
}

/// The condition after the placeholders of one parameter value are filled in.
pub open spec fn fill_parameter(tps: Seq<TemplateParameterView>, c: Seq<char>, p: ParameterValueView) -> Seq<
    char,
> {
    let c1 = replace_all(c, placeholder(p.name, "}"@), adapted_name(tps, p));
    if has_lookback_parameter(tps, p.name) {
        let c2 = replace_all(c1, placeholder(p.name, "_count}"@), adapted_extended_name(tps, p, "count"@));
        let c3 = replace_all(c2, placeholder(p.name, "_avg}"@), adapted_extended_name(tps, p, "avg"@));
        let c4 = replace_all(c3, placeholder(p.name, "_max}"@), adapted_extended_name(tps, p, "max"@));
        let c5 = replace_all(c4, placeholder(p.name, "_min}"@), adapted_extended_name(tps, p, "min"@));
        let c6 = replace_all(c5, placeholder(p.name, "_sum}"@), adapted_extended_name(tps, p, "sum"@));
        replace_all(c6, placeholder(p.name, "_stddev}"@), adapted_extended_name(tps, p, "stddev"@))
    } else {
        c1
    }
}

/// The condition of the template with the placeholders of the parameter values filled
/// in, one parameter value after the other.
pub open spec fn filled_condition(tps: Seq<TemplateParameterView>, sql: Seq<char>, ps: Seq<
    ParameterValueView,
>) -> Seq<char>
    decreases ps.len(),
{
    if ps.len() == 0 {
        sql
    } else {
        fill_parameter(tps, filled_condition(tps, sql, ps.drop_last()), ps.last())
    }
}

fn has_lookback_parameter_exec(tps: &Vec<TemplateParameter>, name: &String) -> (r: bool)
    ensures
        r == has_lookback_parameter(template_parameters_view(tps@), name@),
{
    let ghost tv = template_parameters_view(tps@);
    let mut j: usize = 0;
    while j < tps.len()
        invariant
            j <= tps.len(),
            tv == template_parameters_view(tps@),
            forall|k: int| 0 <= k < j ==> !((#[trigger] tv[k]).name == name@ && tv[k].has_lookback),
        decreases tps.len() - j,
    {
        if tps[j].name == *name && tps[j].has_lookback {
            assert(tv[j as int].name == name@ && tv[j as int].has_lookback);
            return true;
        }
        j = j + 1;
    }
    false
}

fn fill_placeholder(c: String, name: &String, tail: &str, value: &String) -> (r: String)
    requires
        tail@.len() > 0,
    ensures
        r@ == replace_all(c@, placeholder(name@, tail@), value@),
{
    let pattern = concat3("{", name.as_str(), tail);
    assert(pattern@ =~= placeholder(name@, tail@));
    replace_str(c.as_str(), pattern.as_str(), value.as_str())
}

impl FullTemplatedTrigger {
    /// The trigger condition: the template's SQL with the placeholder `{name}` of each
    /// parameter value replaced by its adapted name, and for parameters with a lookback
    /// also `{name_count}` up to `{name_stddev}` by the adapted names of those columns.
    pub fn trigger_condition(&self) -> (r: String)
        ensures
            r@ == filled_condition(
                template_parameters_view(self.template.parameters@),
                self.template.sql@,
                parameter_values_view(self.parameters@),
            ),
    {
        let ghost tv = template_parameters_view(self.template.parameters@);
        let ghost pv = parameter_values_view(self.parameters@);
        proof {
            reveal_strlit("}");
            reveal_strlit("_count}");
        }
        let mut condition = self.template.sql.clone();
        let mut i: usize = 0;
        while i < self.parameters.len()
            invariant
                i <= self.parameters.len(),
                tv == template_parameters_view(self.template.parameters@),
                pv == parameter_values_view(self.parameters@),
                condition@ == filled_condition(tv, self.template.sql@, pv.take(i as int)),
            decreases self.parameters.len() - i,
        {
            let parameter = &self.parameters[i];
            assert(pv.take(i + 1).drop_last() =~= pv.take(i as int));
            assert(pv.take(i + 1).last() == parameter@);
            proof {
                reveal_strlit("}");
                reveal_strlit("_count}");
                reveal_strlit("_avg}");
                reveal_strlit("_max}");
                reveal_strlit("_min}");
                reveal_strlit("_sum}");
                reveal_strlit("_stddev}");
            }
            let adapted = self.adapted_parameter_name(parameter);
            condition = fill_placeholder(condition, &parameter.name, "}", &adapted);
            if has_lookback_parameter_exec(&self.template.parameters, &parameter.name) {
                let n = self.adapted_extended_parameter_name(parameter, "count");
                condition = fill_placeholder(condition, &parameter.name, "_count}", &n);
                let n = self.adapted_extended_parameter_name(parameter, "avg");
                condition = fill_placeholder(condition, &parameter.name, "_avg}", &n);
                let n = self.adapted_extended_parameter_name(parameter, "max");
                condition = fill_placeholder(condition, &parameter.name, "_max}", &n);
                let n = self.adapted_extended_parameter_name(parameter, "min");
                condition = fill_placeholder(condition, &parameter.name, "_min}", &n);
                let n = self.adapted_extended_parameter_name(parameter, "sum");
                condition = fill_placeholder(condition, &parameter.name, "_sum}", &n);
                let n = self.adapted_extended_parameter_name(parameter, "stddev");
                condition = fill_placeholder(condition, &parameter.name, "_stddev}", &n);
            }
            i = i + 1;
        }
        assert(pv.take(self.parameters.len() as int) =~= pv);
        condition
    }
}

/// The template description with `{name}` replaced by the value of each parameter value,
/// one after the other.
pub open spec fn filled_description(text: Seq<char>, ps: Seq<ParameterValueView>) -> Seq<char>
    decreases ps.len(),
{
    if ps.len() == 0 {
        text
    } else {
        let p = ps.last();
        replace_all(filled_description(text, ps.drop_last()), placeholder(p.name, "}"@), p.value)
    }
}

impl FullTemplatedTrigger {
    /// The description of the trigger: its own where it has one, else the template's
    /// description with the parameter values filled in.
    pub fn trigger_description(&self) -> (r: String)
        ensures
            r@ == match self.description {
                Some(d) => d@,
                None => filled_description(
                    self.template.description@,
                    parameter_values_view(self.parameters@),
                ),
            },
    {
        match &self.description {
            Some(value) => value.clone(),
            None => {
                let ghost pv = parameter_values_view(self.parameters@);
                let mut text = self.template.description.clone();
                let mut i: usize = 0;
                while i < self.parameters.len()
                    invariant
                        i <= self.parameters.len(),
                        pv == parameter_values_view(self.parameters@),
                        text@ == filled_description(self.template.description@, pv.take(i as int)),
                    decreases self.parameters.len() - i,
                {
                    proof {
                        reveal_strlit("}");
                    }
                    let parameter = &self.parameters[i];
                    assert(pv.take(i + 1).drop_last() =~= pv.take(i as int));
                    assert(pv.take(i + 1).last() == parameter@);
                    text = fill_placeholder(text, &parameter.name, "}", &parameter.value);
                    i = i + 1;
                }
                assert(pv.take(self.parameters.len() as int) =~= pv);
                text
            },
        }
    }
}

/// The counter columns of the data query.
pub open spec fn data_columns(cs: Seq<ParameterValueView>) -> Seq<char>
    decreases cs.len(),
{
    if cs.len() == 0 {
        Seq::empty()
    } else {
        let v = cs.last().value;
        data_columns(cs.drop_last()) + ",\n  '"@ + v + "', $1."@ + quote_ident(v)
    }
}

/// The query that gives the data of a notification: the entity name and the value of
/// each counter, as a JSON object.
pub open spec fn data_query(entity_type: Seq<char>, cs: Seq<ParameterValueView>) -> Seq<char> {
    "SELECT json_build_object(\n  '"@ + entity_type + "', "@ + quote_ident(entity_type) + ".name"@
        + data_columns(cs) + "\n)\nFROM entity."@ + quote_ident(entity_type)
        + " et\nWHERE et.id = $1.entity_id"@
}

impl FullTemplatedTrigger {
    /// The notification data query for counters `counters`.
    pub fn trigger_data_code(&self, counters: &Vec<ParameterValue>) -> (r: String)
        ensures
            r@ == data_query(self.entity_type@, parameter_values_view(counters@)),
    {
        let ghost cv = parameter_values_view(counters@);
        let et = escape_identifier(self.entity_type.as_str());
        let mut s = String::from_str("SELECT json_build_object(\n  '");
        s.append(self.entity_type.as_str());
        s.append("', ");
        s.append(et.as_str());
        s.append(".name");
        let ghost head = s@;
        let mut i: usize = 0;
        while i < counters.len()
            invariant
                i <= counters.len(),
                cv == parameter_values_view(counters@),
                s@ == head + data_columns(cv.take(i as int)),
            decreases counters.len() - i,
        {
            let v = &counters[i].value;
            let q = escape_identifier(v.as_str());
            s.append(",\n  '");
            s.append(v.as_str());
            s.append("', $1.");
            s.append(q.as_str());
            assert(cv.take(i + 1).drop_last() =~= cv.take(i as int));
            assert(s@ =~= head + data_columns(cv.take(i + 1)));
            i = i + 1;
        }
        assert(cv.take(counters.len() as int) =~= cv);
        s.append("\n)\nFROM entity.");
        s.append(et.as_str());
        s.append(" et\nWHERE et.id = $1.entity_id");
        s
    }
}


/// Parameter values called `n`.
pub open spec fn value_called(n: Seq<char>) -> spec_fn(ParameterValueView) -> bool {
    |p: ParameterValueView| p.name == n
}

/// Thresholds called `n`.
pub open spec fn threshold_called(n: Seq<char>) -> spec_fn(ThresholdView) -> bool {
    |t: ThresholdView| t.name == n
}

/// The name of the parameter that gives the lookback of the counter parameter `name`:
/// its declared lookback parameter, or else `lookback`.
pub open spec fn lookback_parameter_name(tps: Seq<TemplateParameterView>, name: Seq<char>) -> Seq<
    char,
> {
    match find_parameter(tps, name) {
        Some(tp) => match tp.lookback_parameter {
            Some(l) => l,
            None => "lookback"@,
        },
        None => "lookback"@,
    }
}

/// The lookback in days of the counter parameter `name`: the value of the threshold named
/// by the value of its lookback parameter, or else `1`.
pub open spec fn lookback_days(
    tps: Seq<TemplateParameterView>,
    ps: Seq<ParameterValueView>,
    ths: Seq<ThresholdView>,
    name: Seq<char>,
) -> Seq<char> {
    match find_first(ps, value_called(lookback_parameter_name(tps, name))) {
        Some(p) => match find_first(ths, threshold_called(p.value)) {
            Some(t) => t.value,
            None => "1"@,
        },
        None => "1"@,
    }
}

fn first_value_called(ps: &Vec<ParameterValue>, n: &String) -> (r: Option<usize>)
    ensures
        match r {
            Some(k) => k < ps.len() && find_first(parameter_values_view(ps@), value_called(n@))
                == Some(ps@[k as int]@),
            None => find_first(parameter_values_view(ps@), value_called(n@)) is None,
        },
{
    let ghost v = parameter_values_view(ps@);
    let ghost pred = value_called(n@);
    let mut i: usize = 0;
    while i < ps.len()
        invariant
            i <= ps.len(),
            v == parameter_values_view(ps@),
            pred == value_called(n@),
            forall|j: int| 0 <= j < i ==> !pred(#[trigger] v[j]),
        decreases ps.len() - i,
    {
        if ps[i].name == *n {
            proof {
                lemma_find_first_at(v, pred, i as int);
            }
            return Some(i);
        }
        assert(!pred(v[i as int]));
        i = i + 1;
    }
    proof {
        lemma_find_first_none(v, pred);
    }
    None
}

fn first_threshold_called(ths: &Vec<Threshold>, n: &String) -> (r: Option<usize>)
    ensures
        match r {
            Some(k) => k < ths.len() && find_first(thresholds_view(ths@), threshold_called(n@))
                == Some(ths@[k as int]@),
            None => find_first(thresholds_view(ths@), threshold_called(n@)) is None,
        },
{
    let ghost v = thresholds_view(ths@);
    let ghost pred = threshold_called(n@);
    let mut i: usize = 0;
    while i < ths.len()
        invariant
            i <= ths.len(),
            v == thresholds_view(ths@),
            pred == threshold_called(n@),
            forall|j: int| 0 <= j < i ==> !pred(#[trigger] v[j]),
        decreases ths.len() - i,
    {
        if ths[i].name == *n {
            proof {
                lemma_find_first_at(v, pred, i as int);
            }
            return Some(i);
        }
        assert(!pred(v[i as int]));
        i = i + 1;
    }
    proof {
        lemma_find_first_none(v, pred);
    }
    None
}

impl FullTemplatedTrigger {
    /// The lookback in days of the counter parameter called `name`.
    pub fn lookback_days_of(&self, name: &String) -> (r: String)
        ensures
            r@ == lookback_days(
                template_parameters_view(self.template.parameters@),
                parameter_values_view(self.parameters@),
                thresholds_view(self.thresholds@),
                name@,
            ),
    {
        let lp: String = match find_parameter_index(&self.template.parameters, name.as_str()) {
            Some(j) => match &self.template.parameters[j].lookback_parameter {
                Some(l) => l.clone(),
                None => "lookback".to_string(),
            },
            None => "lookback".to_string(),
        };
        match first_value_called(&self.parameters, &lp) {
            Some(k) => match first_threshold_called(&self.thresholds, &self.parameters[k].value) {
                Some(t) => self.thresholds[t].value.clone(),
                None => "1".to_string(),
            },
            None => "1".to_string(),
        }
    }
}

/// The common table expression with the statistics of counter `v` over the past `days`
/// days, read from trend store part `src`.
pub open spec fn lookback_cte(v: Seq<char>, src: Seq<char>, days: Seq<char>) -> Seq<char> {
    "WITH \""@ + v + "_past_data\" AS (\nSELECT\nentity_id,\ncount(*) AS "@ + v
        + "_count,\navg("@ + v + ") AS "@ + v + "_avg,\nmax("@ + v + ") AS "@ + v
        + "_max,\nmin("@ + v + ") AS "@ + v + "_min,\nsum("@ + v + ") AS "@ + v
        + "_sum,\nstddev_samp("@ + v + ") AS "@ + v + "_stddev,\nvar_samp("@ + v
        + ") AS "@ + v + "_var\nFROM trend.\""@ + src
        + "\"\nWHERE timestamp < $1 AND timestamp >= $1 - '"@ + days
        + "d'::interval\nGROUP BY entity_id\n)"@
}

/// The common table expressions of the counters with a lookback, separated by commas.
pub open spec fn lookback_ctes(
    tps: Seq<TemplateParameterView>,
    ps: Seq<ParameterValueView>,
    ths: Seq<ThresholdView>,
    pairs: Seq<(Seq<char>, Seq<char>)>,
    lbs: Seq<ParameterValueView>,
) -> Seq<char>
    decreases lbs.len(),
{
    if lbs.len() == 0 {
        Seq::empty()
    } else {
        let prev = lookback_ctes(tps, ps, ths, pairs, lbs.drop_last());
        let c = lbs.last();
        let cte = lookback_cte(
            c.value,
            source_of(pairs, c.value).unwrap(),
            lookback_days(tps, ps, ths, c.name),
        );
        if lbs.len() == 1 {
            prev + cte
        } else {
            prev + ",\n"@ + cte
        }
    }
}

/// The selected value column of a counter.
pub open spec fn counter_select_columns(cs: Seq<ParameterValueView>) -> Seq<char>
    decreases cs.len(),
{
    if cs.len() == 0 {
        Seq::empty()
    } else {
        counter_select_columns(cs.drop_last()) + ",\n      \""@ + cs.last().value + "\"::numeric"@
    }
}

/// A selected statistics column of counter `v`.
pub open spec fn stat_select(v: Seq<char>, tail: Seq<char>) -> Seq<char> {
    ",\n      \""@ + v + "_past_data\".\""@ + v + tail
}

/// The selected statistics columns of the counters with a lookback.
pub open spec fn lookback_select_columns(lbs: Seq<ParameterValueView>) -> Seq<char>
    decreases lbs.len(),
{
    if lbs.len() == 0 {
        Seq::empty()
    } else {
        let v = lbs.last().value;
        lookback_select_columns(lbs.drop_last()) + stat_select(v, "_count\"::numeric"@)
            + stat_select(v, "_avg\"::numeric"@) + stat_select(v, "_max\"::numeric"@)
            + stat_select(v, "_min\"::numeric"@) + stat_select(v, "_sum\"::numeric"@)
            + stat_select(v, "_stddev\"::numeric"@) + stat_select(v, "_var\"::numeric"@)
    }
}

/// The FROM and JOIN clauses of the trend store parts: the first part is `t1`, the
/// `n`-th part is joined as `tn` on the timestamp of `t1`.
pub open spec fn source_clauses(sources: Seq<Seq<char>>) -> Seq<char>
    decreases sources.len(),
{
    if sources.len() == 0 {
        Seq::empty()
    } else {
        let n = decimal(sources.len());
        let s = sources.last();
        let clause = if sources.len() == 1 {
            "\n    FROM trend.\""@ + s + "\" t1\n"@
        } else {
            "    JOIN trend."@ + quote_ident(s) + " t"@ + n + " ON t"@ + n
                + ".timestamp = t1.timestamp AND t"@ + n + ".entity_id = $1\n"@
        };
        source_clauses(sources.drop_last()) + clause
    }
}

/// The joins with the past statistics of the counters with a lookback.
pub open spec fn past_data_joins(lbs: Seq<ParameterValueView>) -> Seq<char>
    decreases lbs.len(),
{
    if lbs.len() == 0 {
        Seq::empty()
    } else {
        let v = lbs.last().value;
        past_data_joins(lbs.drop_last()) + "    JOIN \""@ + v + "_past_data\" ON \""@ + v
            + "_past_data\".entity_id = t1.entity_id\n"@
    }
}

/// The condition that each of the `n` trend store parts is at the timestamp.
pub open spec fn timestamp_conditions(n: nat) -> Seq<char>
    decreases n,
{
    if n == 0 {
        Seq::empty()
    } else if n == 1 {
        "    WHERE t1.timestamp = $1"@
    } else {
        timestamp_conditions((n - 1) as nat) + " AND t"@ + decimal(n) + ".timestamp = $1"@
    }
}

/// The body of the KPI function of a templated trigger.
pub open spec fn kpi_function_text(
    tps: Seq<TemplateParameterView>,
    ps: Seq<ParameterValueView>,
    ths: Seq<ThresholdView>,
    cs: Seq<ParameterValueView>,
    lbs: Seq<ParameterValueView>,
    sources: Seq<Seq<char>>,
    pairs: Seq<(Seq<char>, Seq<char>)>,
) -> Seq<char> {
    "\nBEGIN\n  RETURN query EXECUTE $query$\n"@ + lookback_ctes(tps, ps, ths, pairs, lbs)
        + "    SELECT\n      t1.entity_id,\n      $1"@ + counter_select_columns(cs)
        + lookback_select_columns(lbs) + source_clauses(sources) + past_data_joins(lbs)
        + timestamp_conditions(sources.len()) + "\n  $query$ USING $1;\nEND;"@
}

fn append_cte(s: &mut String, v: &String, src: &String, days: &String)
    ensures
        final(s)@ == old(s)@ + lookback_cte(v@, src@, days@),
{
    let ghost start = s@;
    s.append("WITH \"");
    s.append(v.as_str());
    s.append("_past_data\" AS (\nSELECT\nentity_id,\ncount(*) AS ");
    s.append(v.as_str());
    s.append("_count,\navg(");
    s.append(v.as_str());
    s.append(") AS ");
    s.append(v.as_str());
    s.append("_avg,\nmax(");
    s.append(v.as_str());
    s.append(") AS ");
    s.append(v.as_str());
    s.append("_max,\nmin(");
    s.append(v.as_str());
    s.append(") AS ");
    s.append(v.as_str());
    s.append("_min,\nsum(");
    s.append(v.as_str());
    s.append(") AS ");
    s.append(v.as_str());
    s.append("_sum,\nstddev_samp(");
    s.append(v.as_str());
    s.append(") AS ");
    s.append(v.as_str());
    s.append("_stddev,\nvar_samp(");
    s.append(v.as_str());
    s.append(") AS ");
    s.append(v.as_str());
    s.append("_var\nFROM trend.\"");
    s.append(src.as_str());
    s.append("\"\nWHERE timestamp < $1 AND timestamp >= $1 - '");
    s.append(days.as_str());
    s.append("d'::interval\nGROUP BY entity_id\n)");
    assert(s@ =~= start + lookback_cte(v@, src@, days@));
}

fn append_stat_select(s: &mut String, v: &String, tail: &str)
    ensures
        final(s)@ == old(s)@ + stat_select(v@, tail@),
{
    let ghost start = s@;
    s.append(",\n      \"");
    s.append(v.as_str());
    s.append("_past_data\".\"");
    s.append(v.as_str());
    s.append(tail);
    assert(s@ =~= start + stat_select(v@, tail@));
}

/// Whether every counter with a lookback has a trend store part among `pairs`.
pub open spec fn lookbacks_have_sources(
    lbs: Seq<ParameterValueView>,
    pairs: Seq<(Seq<char>, Seq<char>)>,
) -> bool {
    forall|i: int| 0 <= i < lbs.len() ==> source_of(pairs, (#[trigger] lbs[i]).value) is Some
}

impl FullTemplatedTrigger {
    /// The body of the KPI function: the statistics of the counters with a lookback as
    /// common table expressions, then a query of the counters at the timestamp from the
    /// trend store parts they come from.
    pub fn kpi_function(
        &self,
        counters: &Vec<ParameterValue>,
        lookback_counters: &Vec<ParameterValue>,
        resolved: &CounterSources,
    ) -> (r: String)
        requires
            lookbacks_have_sources(
                parameter_values_view(lookback_counters@),
                pairs_view(resolved.counter_source@),
            ),
        ensures
            r@ == kpi_function_text(
                template_parameters_view(self.template.parameters@),
                parameter_values_view(self.parameters@),
                thresholds_view(self.thresholds@),
                parameter_values_view(counters@),
                parameter_values_view(lookback_counters@),
                strings_of(resolved.sources@),
                pairs_view(resolved.counter_source@),
            ),
    {
        let ghost tv = template_parameters_view(self.template.parameters@);
        let ghost pv = parameter_values_view(self.parameters@);
        let ghost hv = thresholds_view(self.thresholds@);
        let ghost cv = parameter_values_view(counters@);
        let ghost lv = parameter_values_view(lookback_counters@);
        let ghost sv = strings_of(resolved.sources@);
        let ghost qv = pairs_view(resolved.counter_source@);

        let mut s = String::from_str("\nBEGIN\n  RETURN query EXECUTE $query$\n");
        let ghost p0 = s@;
        let mut k: usize = 0;
        while k < lookback_counters.len()
            invariant
                k <= lookback_counters.len(),
                lv == parameter_values_view(lookback_counters@),
                qv == pairs_view(resolved.counter_source@),
                tv == template_parameters_view(self.template.parameters@),
                pv == parameter_values_view(self.parameters@),
                hv == thresholds_view(self.thresholds@),
                lookbacks_have_sources(lv, qv),
                s@ == p0 + lookback_ctes(tv, pv, hv, qv, lv.take(k as int)),
            decreases lookback_counters.len() - k,
        {
            let counter = &lookback_counters[k];
            assert(lv.take(k + 1).drop_last() =~= lv.take(k as int));
            assert(lv.take(k + 1).last() == counter@);
            assert(source_of(qv, lv[k as int].value) is Some);
            let days = self.lookback_days_of(&counter.name);
            let src = match lookup_source(&resolved.counter_source, &counter.value) {
                Some(x) => x,
                None => {
                    assert(false);
                    String::new()
                },
            };
            let ghost before = s@;
            if k > 0 {
                s.append(",\n");
            }
            append_cte(&mut s, &counter.value, &src, &days);
            assert(s@ =~= p0 + lookback_ctes(tv, pv, hv, qv, lv.take(k + 1)));
            k = k + 1;
        }
        assert(lv.take(lookback_counters.len() as int) =~= lv);
        s.append("    SELECT\n      t1.entity_id,\n      $1");
        let ghost p1 = s@;
        let mut i: usize = 0;
        while i < counters.len()
            invariant
                i <= counters.len(),
                cv == parameter_values_view(counters@),
                s@ == p1 + counter_select_columns(cv.take(i as int)),
            decreases counters.len() - i,
        {
            s.append(",\n      \"");
            s.append(counters[i].value.as_str());
            s.append("\"::numeric");
            assert(cv.take(i + 1).drop_last() =~= cv.take(i as int));
            assert(s@ =~= p1 + counter_select_columns(cv.take(i + 1)));
            i = i + 1;
        }
        assert(cv.take(counters.len() as int) =~= cv);
        let ghost p2 = s@;
        let mut k: usize = 0;
        while k < lookback_counters.len()
            invariant
                k <= lookback_counters.len(),
                lv == parameter_values_view(lookback_counters@),
                s@ == p2 + lookback_select_columns(lv.take(k as int)),
            decreases lookback_counters.len() - k,
        {
            let v = &lookback_counters[k].value;
            append_stat_select(&mut s, v, "_count\"::numeric");
            append_stat_select(&mut s, v, "_avg\"::numeric");
            append_stat_select(&mut s, v, "_max\"::numeric");
            append_stat_select(&mut s, v, "_min\"::numeric");
            append_stat_select(&mut s, v, "_sum\"::numeric");
            append_stat_select(&mut s, v, "_stddev\"::numeric");
            append_stat_select(&mut s, v, "_var\"::numeric");
            assert(lv.take(k + 1).drop_last() =~= lv.take(k as int));
            assert(s@ =~= p2 + lookback_select_columns(lv.take(k + 1)));
            k = k + 1;
        }
        let ghost p3 = s@;
        let mut j: usize = 0;
        while j < resolved.sources.len()
            invariant
                j <= resolved.sources.len(),
                sv == strings_of(resolved.sources@),
                s@ == p3 + source_clauses(sv.take(j as int)),
            decreases resolved.sources.len() - j,
        {
            let source = &resolved.sources[j];
            assert(sv.take(j + 1).drop_last() =~= sv.take(j as int));
            assert(sv.take(j + 1).last() == source@);
            if j == 0 {
                s.append("\n    FROM trend.\"");
                s.append(source.as_str());
                s.append("\" t1\n");
            } else {
                let n = u64_to_decimal((j + 1) as u64);
                let q = escape_identifier(source.as_str());
                s.append("    JOIN trend.");
                s.append(q.as_str());
                s.append(" t");
                s.append(n.as_str());
                s.append(" ON t");
                s.append(n.as_str());
                s.append(".timestamp = t1.timestamp AND t");
                s.append(n.as_str());
                s.append(".entity_id = $1\n");
            }
            assert(s@ =~= p3 + source_clauses(sv.take(j + 1)));
            j = j + 1;
        }
        assert(sv.take(resolved.sources.len() as int) =~= sv);
        let ghost p4 = s@;
        let mut k: usize = 0;
        while k < lookback_counters.len()
            invariant
                k <= lookback_counters.len(),
                lv == parameter_values_view(lookback_counters@),
                s@ == p4 + past_data_joins(lv.take(k as int)),
            decreases lookback_counters.len() - k,
        {
            let v = &lookback_counters[k].value;
            s.append("    JOIN \"");
            s.append(v.as_str());
            s.append("_past_data\" ON \"");
            s.append(v.as_str());
            s.append("_past_data\".entity_id = t1.entity_id\n");
            assert(lv.take(k + 1).drop_last() =~= lv.take(k as int));
            assert(s@ =~= p4 + past_data_joins(lv.take(k + 1)));
            k = k + 1;
        }
        let ghost p5 = s@;
        let mut j: usize = 0;
        while j < resolved.sources.len()
            invariant
                j <= resolved.sources.len(),
                s@ == p5 + timestamp_conditions(j as nat),
            decreases resolved.sources.len() - j,
        {
            if j == 0 {
                s.append("    WHERE t1.timestamp = $1");
            } else {
                let n = u64_to_decimal((j + 1) as u64);
                s.append(" AND t");
                s.append(n.as_str());
                s.append(".timestamp = $1");
            }
            assert(s@ =~= p5 + timestamp_conditions((j + 1) as nat));
            j = j + 1;
        }
        s.append("\n  $query$ USING $1;\nEND;");
        s
    }
}


/// The link to a trend store part that a trigger reads.
pub open spec fn source_link(s: Seq<char>) -> (Seq<char>, Seq<char>) {
    (s, "mapping_id"@)
}

pub open spec fn links_view(v: Seq<TrendStoreLink>) -> Seq<(Seq<char>, Seq<char>)> {
    v.map_values(|l: TrendStoreLink| (l.part_name@, l.mapping_function@))
}

/// Whether `t` is the trigger defined by templated trigger `f` whose counters `cs`
/// (those with a lookback `lbs`) were found in trend store parts `sources`, each counter
/// that found a new part recorded in `pairs`.
pub open spec fn trigger_built(
    f: FullTemplatedTrigger,
    cs: Seq<ParameterValueView>,
    lbs: Seq<ParameterValueView>,
    sources: Seq<Seq<char>>,
    pairs: Seq<(Seq<char>, Seq<char>)>,
    t: Trigger,
) -> bool {
    let tps = template_parameters_view(f.template.parameters@);
    let ps = parameter_values_view(f.parameters@);
    let ths = thresholds_view(f.thresholds@);
    &&& t.name@ == f.name@
    &&& kpi_columns_view(t.kpi_data@) == kpi_columns(cs, lbs)
    &&& t.kpi_function@ == kpi_function_text(tps, ps, ths, cs, lbs, sources, pairs)
    &&& thresholds_view(t.thresholds@) == ths
    &&& t.condition@ == filled_condition(tps, f.template.sql@, ps)
    &&& t.weight@ == signed_decimal(f.weight as int)
    &&& t.notification@ == "SELECT 'obsolete'"@
    &&& t.tags@.len() == 0
    &&& t.fingerprint@ == "SELECT 'obsolete'"@
    &&& t.notification_store@ == "template-trigger-notification"@
    &&& t.data@ == data_query(f.entity_type@, cs)
    &&& links_view(t.trend_store_links@) == sources.map_values(|s: Seq<char>| source_link(s))
    &&& t.mapping_functions@.len() == 0
    &&& t.description@ == match f.description {
        Some(d) => d@,
        None => filled_description(f.template.description@, ps),
    }
    &&& t.granularity == f.granularity
    &&& t.enabled == f.enabled
}

fn copy_thresholds(v: &Vec<Threshold>) -> (r: Vec<Threshold>)
    ensures
        thresholds_view(r@) == thresholds_view(v@),
{
    let mut r: Vec<Threshold> = Vec::new();
    let mut i: usize = 0;
    while i < v.len()
        invariant
            i <= v.len(),
            thresholds_view(r@) == thresholds_view(v@).take(i as int),
        decreases v.len() - i,
    {
        let ghost before = thresholds_view(r@);
        let t = Threshold {
            name: v[i].name.clone(),
            data_type: v[i].data_type.clone(),
            value: v[i].value.clone(),
        };
        assert(t@ == v@[i as int]@);
        r.push(t);
        assert(thresholds_view(r@) =~= before.push(v@[i as int]@));
        assert(thresholds_view(v@).take(i + 1) =~= thresholds_view(v@).take(i as int).push(
            v@[i as int]@,
        ));
        assert(thresholds_view(r@) =~= thresholds_view(v@).take(i + 1));
        i = i + 1;
    }
    assert(thresholds_view(v@).take(v.len() as int) =~= thresholds_view(v@));
    r
}

fn source_links(sources: &Vec<String>) -> (r: Vec<TrendStoreLink>)
    ensures
        links_view(r@) == strings_of(sources@).map_values(|s: Seq<char>| source_link(s)),
{
    let ghost sv = strings_of(sources@);
    let mut r: Vec<TrendStoreLink> = Vec::new();
    let mut i: usize = 0;
    while i < sources.len()
        invariant
            i <= sources.len(),
            sv == strings_of(sources@),
            links_view(r@) == sv.take(i as int).map_values(|s: Seq<char>| source_link(s)),
        decreases sources.len() - i,
    {
        let ghost before = links_view(r@);
        r.push(
            TrendStoreLink {
                part_name: sources[i].clone(),
                mapping_function: "mapping_id".to_string(),
            },
        );
        assert(links_view(r@) =~= before.push(source_link(sv[i as int])));
        assert(sv.take(i + 1).map_values(|s: Seq<char>| source_link(s)) =~= sv.take(
            i as int,
        ).map_values(|s: Seq<char>| source_link(s)).push(source_link(sv[i as int])));
        assert(links_view(r@) =~= sv.take(i + 1).map_values(|s: Seq<char>| source_link(s)));
        i = i + 1;
    }
    assert(sv.take(sources.len() as int) =~= sv);
    r
}

impl FullTemplatedTrigger {
    /// The trigger defined by this templated trigger, once the trend store parts of its
    /// counters are known.
    pub fn build_trigger(
        &self,
        counters: &Vec<ParameterValue>,
        lookback_counters: &Vec<ParameterValue>,
        resolved: &CounterSources,
    ) -> (r: Trigger)
        requires
            lookbacks_have_sources(
                parameter_values_view(lookback_counters@),
                pairs_view(resolved.counter_source@),
            ),
        ensures
            trigger_built(
                *self,
                parameter_values_view(counters@),
                parameter_values_view(lookback_counters@),
                strings_of(resolved.sources@),
                pairs_view(resolved.counter_source@),
                r,
            ),
    {
        let kpi_data = kpi_data_columns(counters, lookback_counters);
        let kpi_function = self.kpi_function(counters, lookback_counters, resolved);
        let condition = self.trigger_condition();
        let data = self.trigger_data_code(counters);
        let description = self.trigger_description();
        Trigger {
            name: self.name.clone(),
            kpi_data,
            kpi_function,
            thresholds: copy_thresholds(&self.thresholds),
            condition,
            weight: i64_to_decimal(self.weight as i64),
            notification: "SELECT 'obsolete'".to_string(),
            tags: Vec::new(),
            fingerprint: "SELECT 'obsolete'".to_string(),
            notification_store: "template-trigger-notification".to_string(),
            data,
            trend_store_links: source_links(&resolved.sources),
            mapping_functions: Vec::new(),
            description,
            granularity: self.granularity,
            enabled: self.enabled,
        }
    }
}

/// Whether every counter lookup returned exactly one row.
pub open spec fn all_single(lookups: Seq<Vec<String>>) -> bool {
    forall|i: int| 0 <= i < lookups.len() ==> (#[trigger] lookups[i])@.len() == 1
}

/// The first row of each counter lookup.
pub open spec fn first_rows(lookups: Seq<Vec<String>>) -> Seq<Seq<char>> {
    Seq::new(lookups.len(), |i: int| lookups[i]@[0]@)
}

impl FullTemplatedTrigger {
    /// Creates the trigger that this templated trigger defines, given whether a trigger
    /// of that name exists already and the rows that the lookup of the trend store part
    /// of each counter returned (`lookups[i]` for the `i`-th counter). The template check
    /// comes first, then the name, then the counters.
    pub fn create_trigger_from_lookups(&self, trigger_exists: bool, lookups: &Vec<Vec<String>>) -> (r:
        Result<Trigger, TriggerTemplateError>)
        requires
            check_failure(
                template_parameters_view(self.template.parameters@),
                parameter_values_view(self.parameters@),
                thresholds_view(self.thresholds@),
            ) is None ==> lookups.len() == values_where(
                template_parameters_view(self.template.parameters@),
                parameter_values_view(self.parameters@),
                false,
            ).len(),
            check_failure(
                template_parameters_view(self.template.parameters@),
                parameter_values_view(self.parameters@),
                thresholds_view(self.thresholds@),
            ) is None && all_single(lookups@) ==> lookbacks_have_sources(
                values_where(
                    template_parameters_view(self.template.parameters@),
                    parameter_values_view(self.parameters@),
                    true,
                ),
                resolved_sources(
                    values_where(
                        template_parameters_view(self.template.parameters@),
                        parameter_values_view(self.parameters@),
                        false,
                    ),
                    first_rows(lookups@),
                ).1,
            ),
        ensures
            ({
                let tps = template_parameters_view(self.template.parameters@);
                let ps = parameter_values_view(self.parameters@);
                let cs = values_where(tps, ps, false);
                let lbs = values_where(tps, ps, true);
                match check_failure(tps, ps, thresholds_view(self.thresholds@)) {
                    Some((kind, name)) => r matches Err(e) && check_error_matches(e, kind, name),
                    None => if trigger_exists {
                        r matches Err(e) && e matches TriggerTemplateError::TriggerExists(n) && n@
                            == self.name@
                    } else if all_single(lookups@) {
                        let res = resolved_sources(cs, first_rows(lookups@));
                        r matches Ok(t) && trigger_built(*self, cs, lbs, res.0, res.1, t)
                    } else {
                        r matches Err(e) && exists|i: int|
                            0 <= i < lookups.len() && (forall|j: int|
                                0 <= j < i ==> (#[trigger] lookups@[j])@.len() == 1)
                                && lookup_error(e, lookups@[i]@.len(), cs[i].value)
                    },
                }
            }),
    {
        let ghost tps = template_parameters_view(self.template.parameters@);
        let ghost ps = parameter_values_view(self.parameters@);
        match self.check_trigger() {
            Err(e) => {
                return Err(e);
            },
            Ok(()) => {},
        }
        if trigger_exists {
            return Err(TriggerTemplateError::TriggerExists(self.name.clone()));
        }
        proof {
            crate::text::lemma_find_first_none_all(ps, crate::trigger_template::lacks_parameter(tps));
            assert forall|i: int| 0 <= i < ps.len() implies find_parameter(tps, (#[trigger] ps[i]).name) is Some by {
                assert(!crate::trigger_template::lacks_parameter(tps)(ps[i]));
            }
        }
        let counters = self.counters();
        let lookback_counters = self.lookback_counters();
        let resolved = match resolve_counter_sources(&counters, lookups) {
            Ok(res) => res,
            Err(e) => {
                proof {
                    let i = choose|i: int|
                        0 <= i < lookups.len() && (forall|j: int|
                            0 <= j < i ==> (#[trigger] lookups@[j]).len() == 1) && lookup_error(
                            e,
                            lookups@[i]@.len(),
                            counters@[i]@.value,
                        );
                    assert(parameter_values_view(counters@)[i] == counters@[i]@);
                    assert(lookups@[i]@.len() != 1);
                }
                return Err(e);
            },
        };
        proof {
            assert(first_rows(lookups@) =~= Seq::new(lookups.len() as nat, |i: int| lookups@[i]@[0]@));
        }
        Ok(self.build_trigger(&counters, &lookback_counters, &resolved))
    }
}

} // verus!
