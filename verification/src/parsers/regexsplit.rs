//! The capture-splitting transform.
use vstd::prelude::*;
use regex::Regex;
use crate::parsers::traits::Parser;
use crate::record::LINE_FIELD;
use crate::record::Record;
use crate::rule::capture_groups;
use crate::rule::compile_rule;
use crate::rule::describe_error;
use crate::rule::group_names;
use crate::rule::rule_captures;
use crate::rule::rule_compiles;
use crate::rule::rule_group_names;
use crate::rule::rule_source;
use crate::rule::rule_text;
use crate::rule::RuleError;
use crate::text::optional_texts;

verus! {

/// A transform that runs a rule on one field of the record and adds a field
/// for every named capture group that took part in the match.
pub struct RegexSplitParser {
    regex: Regex,
    field_to_split: String,
}

/// `record` with a field for every named group that matched: for each
/// position, in order, the group's name set to the group's text, where both
/// are present.
pub open spec fn with_groups(
    record: Map<Seq<char>, Seq<char>>,
    names: Seq<Option<Seq<char>>>,
    values: Seq<Option<Seq<char>>>,
) -> Map<Seq<char>, Seq<char>>
    decreases names.len(),
{
    if names.len() == 0 {
        record
    } else {
        let earlier = with_groups(record, names.drop_last(), values);
        let at = names.len() - 1;
        if at < values.len() && names[at] is Some && values[at] is Some {
            earlier.insert(names[at]->0, values[at]->0)
        } else {
            earlier
        }
    }
}

/// What splitting makes of `record`, given what the rule captured in the
/// field to split: nothing changes where the field is absent or the rule
/// found no match.
pub open spec fn split_output(
    record: Map<Seq<char>, Seq<char>>,
    names: Seq<Option<Seq<char>>>,
    captured: Option<Seq<Option<Seq<char>>>>,
) -> Map<Seq<char>, Seq<char>> {
    match captured {
        Some(values) => with_groups(record, names, values),
        None => record,
    }
}

/// Adds to `record` a field for every named group that matched.
pub fn add_groups(record: Record, names: &Vec<Option<String>>, values: &Vec<Option<String>>) -> (output:
    Record)
    ensures
        output@ == with_groups(record@, optional_texts(names@), optional_texts(values@)),
{
    let ghost all_names = optional_texts(names@);
    let ghost all_values = optional_texts(values@);
    let mut current = record;
    let mut i: usize = 0;
    while i < names.len()
        invariant
            i <= names.len(),
            all_names == optional_texts(names@),
            all_values == optional_texts(values@),
            current@ == with_groups(record@, all_names.take(i as int), all_values),
        decreases names.len() - i,
    {
        assert(all_names.take(i + 1).drop_last() =~= all_names.take(i as int));
        if i < values.len() {
            match (&names[i], &values[i]) {
                (Some(name), Some(value)) => {
                    current.insert(name.clone(), value.clone());
                },
                _ => {},
            }
        }
        i = i + 1;
    }
    assert(all_names.take(i as int) =~= all_names);
    current
}

impl RegexSplitParser {
    /// The rule that is run on the field.
    pub closed spec fn rule(&self) -> Regex {
        self.regex
    }

    /// The name of the field that is split.
    pub closed spec fn field(&self) -> Seq<char> {
        self.field_to_split@
    }

    /// A transform that splits the field `field_name`, or the reserved field
    /// where none is given, by the rule `pattern`.
    pub fn new(pattern: &str, field_name: Option<&str>) -> (parser: RegexSplitParser)
        requires
            rule_compiles(pattern@),
        ensures
            rule_text(parser.rule()) == pattern@,
            parser.field() == match field_name {
                Some(name) => name@,
                None => LINE_FIELD@,
            },
    {
        let field_to_split = match field_name {
            Some(name) => name.to_owned(),
            None => LINE_FIELD.to_owned(),
        };
        match compile_rule(pattern) {
            Ok(regex) => RegexSplitParser { regex, field_to_split },
            Err(_) => vstd::pervasive::unreached(),
        }
    }

    /// The text of the rule that is run on the field.
    pub fn rule_text(&self) -> (text: String)
        ensures
            text@ == rule_text(self.rule()),
    {
        rule_source(&self.regex)
    }

    /// The name of the field that is split.
    pub fn field_name(&self) -> (name: &str)
        ensures
            name@ == self.field(),
    {
        self.field_to_split.as_str()
    }

    /// As `new`, for a pattern that may not be a valid rule: it is compiled
    /// once to test it, and refused with the reason where it is not.
    pub fn try_new(pattern: &str, field_name: Option<&str>) -> (made: Result<
        RegexSplitParser,
        RuleError,
    >)
        ensures
            made is Ok <==> rule_compiles(pattern@),
            made matches Ok(parser) ==> rule_text(parser.rule()) == pattern@ && parser.field()
                == match field_name {
                Some(name) => name@,
                None => LINE_FIELD@,
            },
    {
        match compile_rule(pattern) {
            Ok(_) => Ok(RegexSplitParser::new(pattern, field_name)),
            Err(error) => Err(describe_error(error)),
        }
    }
}

impl Parser for RegexSplitParser {
    /// The input with the named groups of the rule's first match in the
    /// field added; the input itself where the field is absent or does not
    /// match.
    open spec fn transform(&self, input: Map<Seq<char>, Seq<char>>) -> Map<Seq<char>, Seq<char>> {
        if input.contains_key(self.field()) {
            split_output(
                input,
                rule_group_names(self.rule()),
                rule_captures(self.rule(), input[self.field()]),
            )
        } else {
            input
        }
    }

    fn parse(&self, input: Record) -> (output: Record) {
        let captured = match input.get(self.field_to_split.as_str()) {
            Some(text) => capture_groups(&self.regex, text),
            None => None,
        };
        match captured {
            Some(values) => {
                let names = group_names(&self.regex);
                add_groups(input, &names, &values)
            },
            None => input,
        }
    }
}

} // verus!
