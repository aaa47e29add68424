use logpipe::parsers::chain::Chain;
use logpipe::parsers::regexsplit::add_groups;
use logpipe::parsers::DropFieldsParser;
use logpipe::parsers::Parser;
use logpipe::parsers::RegexSplitParser;
use logpipe::record::Record;
use logpipe::rule::RuleError;

const SYSLOG_RULE: &str = r"^(?P<date>\w{3} \d{1,2}) (?P<time>\d{2}:\d{2}:\d{2}) (?P<host>[\w\-]+) (?P<process>[^ ]+): (?P<msg>.*)$";

fn pairs_of(record: &Record) -> Vec<(String, String)> {
    let mut pairs = Vec::new();
    for i in 0..record.len() {
        let field = record.field(i);
        pairs.push((field.name.clone(), field.value.clone()));
    }
    pairs
}

fn pair(name: &str, value: &str) -> (String, String) {
    (name.to_string(), value.to_string())
}

fn sample() -> Record {
    let mut record = Record::from_match("Jan 1 00:00:00 host proc: hello".to_string());
    record.insert("host".to_string(), "alpha".to_string());
    record.insert("msg".to_string(), "hello".to_string());
    record
}

struct Tag;

impl Parser for Tag {
    fn parse(&self, input: Record) -> Record {
        let mut output = input;
        output.insert("tag".to_string(), "seen".to_string());
        output
    }
}

#[test]
fn drop_removes_the_configured_fields_only() {
    let parser = DropFieldsParser::new(vec!["host", "msg"]);
    let output = parser.parse(sample());
    assert_eq!(pairs_of(&output), vec![pair("line", "Jan 1 00:00:00 host proc: hello")]);
}

#[test]
fn drop_of_an_absent_field_is_a_no_op() {
    let parser = DropFieldsParser::new(vec!["nothing", "here"]);
    let output = parser.parse(sample());
    assert_eq!(pairs_of(&output), pairs_of(&sample()));
}

#[test]
fn drop_twice_is_drop_once() {
    let parser = DropFieldsParser::new(vec!["host"]);
    let once = parser.parse(sample());
    let twice = parser.parse(parser.parse(sample()));
    assert_eq!(pairs_of(&once), pairs_of(&twice));
    assert_eq!(once.get("host"), None);
    assert_eq!(once.len(), 2);
}

#[test]
fn drop_with_a_repeated_name_and_with_no_name() {
    let repeated = DropFieldsParser::new(vec!["host", "host"]);
    let output = repeated.parse(sample());
    assert_eq!(output.len(), 2);
    assert_eq!(output.get("host"), None);
    let none = DropFieldsParser::new(vec![]);
    assert_eq!(pairs_of(&none.parse(sample())), pairs_of(&sample()));
}

#[test]
fn drop_may_remove_the_reserved_field() {
    let parser = DropFieldsParser::new(vec!["line"]);
    let output = parser.parse(Record::from_match("text".to_string()));
    assert_eq!(output.len(), 0);
}

#[test]
fn split_adds_the_named_groups() {
    let parser = RegexSplitParser::new(SYSLOG_RULE, None);
    let output = parser.parse(Record::from_match("Jan 1 00:00:00 host proc: hello".to_string()));
    assert_eq!(
        pairs_of(&output),
        vec![
            pair("line", "Jan 1 00:00:00 host proc: hello"),
            pair("date", "Jan 1"),
            pair("time", "00:00:00"),
            pair("host", "host"),
            pair("process", "proc"),
            pair("msg", "hello"),
        ]
    );
}

#[test]
fn split_keeps_its_rule_and_field() {
    let by_default = RegexSplitParser::new(r"(?P<a>\d+)", None);
    assert_eq!(by_default.rule_text(), r"(?P<a>\d+)");
    assert_eq!(by_default.field_name(), "line");
    let named = RegexSplitParser::new(r"(?P<a>\d+)", Some("msg"));
    assert_eq!(named.field_name(), "msg");
}

#[test]
fn split_without_a_match_passes_the_record_through() {
    let parser = RegexSplitParser::new(SYSLOG_RULE, None);
    let output = parser.parse(Record::from_match("no structure here".to_string()));
    assert_eq!(pairs_of(&output), vec![pair("line", "no structure here")]);
}

#[test]
fn split_without_its_field_passes_the_record_through() {
    let parser = RegexSplitParser::new(r"(?P<word>\w+)", Some("msg"));
    let output = parser.parse(Record::from_match("hello".to_string()));
    assert_eq!(pairs_of(&output), vec![pair("line", "hello")]);
}

#[test]
fn split_reads_the_configured_field() {
    let parser = RegexSplitParser::new(r"(?P<word>\w+)", Some("msg"));
    let mut input = Record::from_match("first second".to_string());
    input.insert("msg".to_string(), "third fourth".to_string());
    let output = parser.parse(input);
    assert_eq!(output.get("word"), Some("third"));
    assert_eq!(output.get("line"), Some("first second"));
}

#[test]
fn split_skips_unnamed_groups_and_groups_that_took_no_part() {
    let parser = RegexSplitParser::new(r"(\w+)=(?:(?P<num>\d+)|(?P<word>[a-z]+))", None);
    let output = parser.parse(Record::from_match("key=value".to_string()));
    assert_eq!(pairs_of(&output), vec![pair("line", "key=value"), pair("word", "value")]);
}

#[test]
fn split_overwrites_a_field_of_the_same_name() {
    let parser = RegexSplitParser::new(r"^(?P<line>\w+)", None);
    let output = parser.parse(Record::from_match("first second".to_string()));
    assert_eq!(pairs_of(&output), vec![pair("line", "first")]);
}

#[test]
fn split_uses_the_first_match_only() {
    let parser = RegexSplitParser::new(r"(?P<n>\d+)", None);
    let output = parser.parse(Record::from_match("a 10 b 20".to_string()));
    assert_eq!(output.get("n"), Some("10"));
}

#[test]
fn try_new_accepts_a_valid_rule() {
    let parser = RegexSplitParser::try_new(r"(?P<a>x)", Some("f")).ok().unwrap();
    assert_eq!(parser.rule_text(), r"(?P<a>x)");
    assert_eq!(parser.field_name(), "f");
}

#[test]
fn try_new_refuses_an_invalid_rule() {
    let refused = RegexSplitParser::try_new(r"(?P<a>x", None);
    assert!(matches!(refused.err(), Some(RuleError::Syntax(_))));
}

#[test]
fn add_groups_pairs_names_and_values_by_position() {
    let names = vec![None, Some("a".to_string()), None, Some("b".to_string()), Some("c".to_string())];
    let values = vec![
        Some("whole".to_string()),
        Some("1".to_string()),
        Some("unnamed".to_string()),
        None,
        Some("3".to_string()),
    ];
    let output = add_groups(Record::from_match("whole".to_string()), &names, &values);
    assert_eq!(pairs_of(&output), vec![pair("line", "whole"), pair("a", "1"), pair("c", "3")]);
}

#[test]
fn add_groups_ignores_names_without_a_value_position() {
    let names = vec![None, Some("a".to_string()), Some("b".to_string())];
    let values = vec![Some("whole".to_string()), Some("1".to_string())];
    let output = add_groups(Record::new(), &names, &values);
    assert_eq!(pairs_of(&output), vec![pair("a", "1")]);
}

#[test]
fn empty_chain_hands_the_record_back() {
    let chain = Chain::new();
    let output = chain.apply(sample());
    assert_eq!(pairs_of(&output), pairs_of(&sample()));
}

#[test]
fn chain_runs_in_the_order_of_the_pushes() {
    let mut split_then_drop = Chain::new();
    split_then_drop.push(Box::new(RegexSplitParser::new(SYSLOG_RULE, None)));
    split_then_drop.push(Box::new(DropFieldsParser::new(vec!["host"])));
    let mut drop_then_split = Chain::new();
    drop_then_split.push(Box::new(DropFieldsParser::new(vec!["host"])));
    drop_then_split.push(Box::new(RegexSplitParser::new(SYSLOG_RULE, None)));
    let line = "Jan 1 00:00:00 host proc: hello";
    let first = split_then_drop.apply(Record::from_match(line.to_string()));
    let second = drop_then_split.apply(Record::from_match(line.to_string()));
    assert_eq!(first.get("host"), None);
    assert_eq!(second.get("host"), Some("host"));
    assert_eq!(first.len(), 5);
    assert_eq!(second.len(), 6);
}

#[test]
fn chain_is_deterministic() {
    let mut chain = Chain::new();
    chain.push(Box::new(RegexSplitParser::new(SYSLOG_RULE, None)));
    chain.push(Box::new(Tag));
    chain.push(Box::new(DropFieldsParser::new(vec!["host", "time"])));
    let line = "Feb 12 10:20:30 web-1 sshd: accepted";
    let first = chain.apply(Record::from_match(line.to_string()));
    let second = chain.apply(Record::from_match(line.to_string()));
    assert_eq!(pairs_of(&first), pairs_of(&second));
    assert_eq!(
        pairs_of(&first),
        vec![
            pair("line", line),
            pair("date", "Feb 12"),
            pair("process", "sshd"),
            pair("msg", "accepted"),
            pair("tag", "seen"),
        ]
    );
}

#[test]
fn a_later_transform_overwrites_an_earlier_one() {
    let mut chain = Chain::new();
    chain.push(Box::new(RegexSplitParser::new(r"^(?P<word>\w+)", None)));
    chain.push(Box::new(RegexSplitParser::new(r"(?P<word>\w+)$", None)));
    let output = chain.apply(Record::from_match("first second".to_string()));
    assert_eq!(output.get("word"), Some("second"));
    assert_eq!(output.len(), 2);
}
