use vstd::prelude::*;

use serde_json::Value;

verus! {

/// A parameter of an SQL statement.
pub enum SqlParam {
    Text(String),
    OptionalText(Option<String>),
    Boolean(bool),
    Json(Value),
}

/// A parameter, mathematically.
pub enum SqlParamView {
    Text(Seq<char>),
    OptionalText(Option<Seq<char>>),
    Boolean(bool),
    Json(Value),
}

impl View for SqlParam {
    type V = SqlParamView;

    open spec fn view(&self) -> SqlParamView {
        match self {
            SqlParam::Text(s) => SqlParamView::Text(s@),
            SqlParam::OptionalText(o) => SqlParamView::OptionalText(
                match o {
                    Some(s) => Some(s@),
                    None => None,
                },
            ),
            SqlParam::Boolean(b) => SqlParamView::Boolean(*b),
            SqlParam::Json(v) => SqlParamView::Json(*v),
        }
    }
}

/// The views of parameters.
pub open spec fn params_view(ps: Seq<SqlParam>) -> Seq<SqlParamView> {
    ps.map_values(|p: SqlParam| p@)
}

/// An SQL statement to run with its parameters, and the text that introduces the
/// message of its failure (the database's message follows it after `: `).
pub struct SqlStep {
    pub statement: String,
    pub params: Vec<SqlParam>,
    pub failure: String,
}

/// A statement, mathematically: its text, its parameters and its failure text.
pub type SqlStepView = (Seq<char>, Seq<SqlParamView>, Seq<char>);

impl View for SqlStep {
    type V = SqlStepView;

    open spec fn view(&self) -> SqlStepView {
        (self.statement@, params_view(self.params@), self.failure@)
    }
}

/// A statement without parameters.
pub fn bare_step(statement: String, failure: &str) -> (s: SqlStep)
    ensures
        s@ == (statement@, Seq::<SqlParamView>::empty(), failure@),
{
    let params: Vec<SqlParam> = Vec::new();
    let s = SqlStep { statement, params, failure: failure.to_owned() };
    assert(params_view(s.params@) =~= Seq::<SqlParamView>::empty());
    s
}

/// A statement with one text parameter.
pub fn text_step(statement: String, param: String, failure: &str) -> (s: SqlStep)
    ensures
        s@ == (statement@, seq![SqlParamView::Text(param@)], failure@),
{
    let mut params: Vec<SqlParam> = Vec::new();
    params.push(SqlParam::Text(param));
    let s = SqlStep { statement, params, failure: failure.to_owned() };
    assert(params_view(s.params@) =~= seq![SqlParamView::Text(param@)]);
    s
}

/// `a + b` as a string.
pub fn concat(a: &str, b: &str) -> (r: String)
    ensures
        r@ == a@ + b@,
{
    let mut s = a.to_owned();
    s.append(b);
    s
}

} // verus!
