use vstd::prelude::*;

verus! {

/// The text of capture group `group` of the first match of the regular expression
/// `pattern` in `text`; none when the pattern is not a valid expression, when it does
/// not match or when the group took no part in the match.
pub uninterp spec fn regex_group_text(pattern: Seq<char>, text: Seq<char>, group: usize) -> Option<
    Seq<char>,
>;

/// `regex::Regex::new` and `regex::Regex::captures`, then `Captures::get`: the text of
/// one capture group of the first match. What matches is not written out here, only
/// that the outcome depends on the pattern, the text and the group alone.
#[verifier::external_body]
pub(crate) fn regex_group(pattern: &str, text: &str, group: usize) -> (r: Option<String>)
    ensures
        match r {
            Some(t) => regex_group_text(pattern@, text@, group) == Some(t@),
            None => regex_group_text(pattern@, text@, group) is None,
        },
{
    let re = match regex::Regex::new(pattern) {
        Ok(re) => re,
        Err(_) => return None,
    };
    re.captures(text)?.get(group).map(|m| m.as_str().to_owned())
}

/// The text with the first match of the regular expression `pattern` replaced by
/// `replacement` (in which `$` names groups of the match); none when the pattern is not
/// a valid expression.
pub uninterp spec fn regex_replaced(pattern: Seq<char>, text: Seq<char>, replacement: Seq<char>) -> Option<
    Seq<char>,
>;

/// `regex::Regex::new` and `regex::Regex::replace`: the first match replaced. What
/// matches and how `$` references expand is not written out here, only that the
/// outcome depends on the pattern, the text and the replacement alone.
#[verifier::external_body]
pub(crate) fn regex_replace_first(pattern: &str, text: &str, replacement: &str) -> (r: Option<String>)
    ensures
        match r {
            Some(t) => regex_replaced(pattern@, text@, replacement@) == Some(t@),
            None => regex_replaced(pattern@, text@, replacement@) is None,
        },
{
    match regex::Regex::new(pattern) {
        Ok(re) => Some(re.replace(text, replacement).to_string()),
        Err(_) => None,
    }
}

} // verus!
