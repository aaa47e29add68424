//! Matching rules: regular expressions compiled and run by the `regex` crate.
//!
//! Nothing in this module is proved. Each item states what the `regex` crate
//! does, in terms of the names declared here, and the rest of the library is
//! verified against those statements.
use vstd::prelude::*;
use regex::Regex;
use crate::text::optional_texts;
use crate::text::texts;

verus! {

/// A compiled regular expression of the `regex` crate.
#[verifier::external_type_specification]
#[verifier::external_body]
pub struct ExRegex(regex::Regex);

/// The error that the `regex` crate reports for a pattern it cannot compile.
#[verifier::external_type_specification]
#[verifier::external_body]
pub struct ExRegexError(regex::Error);

/// Whether `Regex::new` accepts `pattern`.
pub uninterp spec fn rule_compiles(pattern: Seq<char>) -> bool;

/// The pattern text that `Regex::as_str` reports for `rule`.
pub uninterp spec fn rule_text(rule: Regex) -> Seq<char>;

/// The matched substrings that `Regex::find_iter` yields for `rule` on
/// `text`, in the order in which it yields them: non-overlapping matches from
/// left to right.
pub uninterp spec fn rule_matches(rule: Regex, text: Seq<char>) -> Seq<Seq<char>>;

/// What `Regex::capture_names` yields for `rule`: one entry per capture
/// group in group order, `None` for a group without a name.
pub uninterp spec fn rule_group_names(rule: Regex) -> Seq<Option<Seq<char>>>;

/// What `Regex::captures` finds for `rule` in `text`: `None` without a match,
/// else for the first match one entry per capture group in group order, the
/// text the group matched or `None` for a group that took no part.
pub uninterp spec fn rule_captures(rule: Regex, text: Seq<char>) -> Option<
    Seq<Option<Seq<char>>>,
>;

/// Why a pattern was not accepted as a rule.
#[derive(Debug)]
pub enum RuleError {
    /// The pattern is not a valid regular expression; the text says why.
    Syntax(String),
    /// The compiled rule would exceed the size limit given here, in bytes.
    CompiledTooBig(usize),
    /// The pattern was refused for a reason this library has no name for.
    Other,
}

/// `Regex::new`: compiles `pattern`. It succeeds exactly on the patterns
/// that `rule_compiles` names, and the compiled rule reports `pattern` as its
/// text.
#[verifier::external_body]
pub(crate) fn compile_rule(pattern: &str) -> (compiled: Result<Regex, regex::Error>)
    ensures
        compiled is Ok <==> rule_compiles(pattern@),
        compiled matches Ok(rule) ==> rule_text(rule) == pattern@,
{
    Regex::new(pattern)
}

/// Tells the variants of `regex::Error` apart and moves their fields into a
/// `RuleError`.
#[verifier::external_body]
pub(crate) fn describe_error(error: regex::Error) -> (described: RuleError) {
    match error {
        regex::Error::Syntax(message) => RuleError::Syntax(message),
        regex::Error::CompiledTooBig(limit) => RuleError::CompiledTooBig(limit),
        _ => RuleError::Other,
    }
}

/// `Regex::as_str`: the pattern text of `rule`.
#[verifier::external_body]
pub(crate) fn rule_source(rule: &Regex) -> (text: String)
    ensures
        text@ == rule_text(*rule),
{
    rule.as_str().to_string()
}

/// `Regex::find_iter`: every match of `rule` in `text`, each handed out as
/// the substring it covers (`Match::as_str`), in the order of the iterator.
#[verifier::external_body]
pub(crate) fn find_matches(rule: &Regex, text: &str) -> (found: Vec<String>)
    ensures
        texts(found@) == rule_matches(*rule, text@),
{
    rule.find_iter(text).map(|m| m.as_str().to_string()).collect()
}

/// `Regex::capture_names`: the name of every capture group of `rule`, in
/// group order.
#[verifier::external_body]
pub(crate) fn group_names(rule: &Regex) -> (names: Vec<Option<String>>)
    ensures
        optional_texts(names@) == rule_group_names(*rule),
{
    rule.capture_names().map(|name| name.map(|n| n.to_string())).collect()
}

/// `Regex::captures`: the first match of `rule` in `text`, handed out as the
/// text of every capture group in group order (`Captures::iter`).
#[verifier::external_body]
pub(crate) fn capture_groups(rule: &Regex, text: &str) -> (groups: Option<Vec<Option<String>>>)
    ensures
        match groups {
            Some(values) => rule_captures(*rule, text@) == Some(optional_texts(values@)),
            None => rule_captures(*rule, text@) is None,
        },
{
    rule.captures(text).map(
        |caps| caps.iter().map(|group| group.map(|m| m.as_str().to_string())).collect(),
    )
}

} // verus!
