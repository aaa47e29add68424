use logpipe::record::Record;
use logpipe::sinks::FileAppendSink;
use logpipe::sources::filetail::TailCursor;
use logpipe::sources::FileTailSource;

#[test]
fn sink_keeps_its_name_and_path() {
    let plain = FileAppendSink::new(None, "/tmp/out.log");
    assert_eq!(plain.name(), "FileAppendSink");
    assert_eq!(plain.path(), "/tmp/out.log");
    let named = FileAppendSink::new(Some("audit"), "relative/out.log");
    assert_eq!(named.name(), "audit");
    assert_eq!(named.path(), "relative/out.log");
}

#[test]
fn source_keeps_its_name_and_path() {
    let plain = FileTailSource::new(None, "/var/log/auth.log");
    assert_eq!(plain.name(), "FileTailSource");
    assert_eq!(plain.path(), "/var/log/auth.log");
    let named = FileTailSource::new(Some("auth"), "auth.log");
    assert_eq!(named.name(), "auth");
    assert_eq!(named.path(), "auth.log");
}

#[test]
fn json_of_an_empty_record() {
    let sink = FileAppendSink::new(None, "unused");
    assert_eq!(sink.record_to_json(&Record::new()), "{}");
}

#[test]
fn json_of_one_field() {
    let sink = FileAppendSink::new(None, "unused");
    let record = Record::from_match("hello".to_string());
    assert_eq!(sink.record_to_json(&record), r#"{"line":"hello"}"#);
}

#[test]
fn json_lists_the_fields_in_stored_order() {
    let sink = FileAppendSink::new(None, "unused");
    let mut record = Record::from_match("Jan 1 proc: hello".to_string());
    record.insert("date".to_string(), "Jan 1".to_string());
    record.insert("msg".to_string(), "hello".to_string());
    record.insert("date".to_string(), "Jan 2".to_string());
    assert_eq!(
        sink.record_to_json(&record),
        r#"{"line":"Jan 1 proc: hello","date":"Jan 2","msg":"hello"}"#
    );
}

#[test]
fn json_escapes_double_quotes_in_values() {
    let sink = FileAppendSink::new(None, "unused");
    let mut record = Record::new();
    record.insert("msg".to_string(), r#"say "hi" now""#.to_string());
    assert_eq!(sink.record_to_json(&record), r#"{"msg":"say \"hi\" now\""}"#);
}

#[test]
fn json_leaves_names_and_other_characters_as_they_are() {
    let sink = FileAppendSink::new(None, "unused");
    let mut record = Record::new();
    record.insert(r#"a"b"#.to_string(), r"back\slash, comma".to_string());
    record.insert("empty".to_string(), String::new());
    assert_eq!(sink.record_to_json(&record), r#"{"a"b":"back\slash, comma","empty":""}"#);
}

#[test]
fn message_drops_the_line_ending() {
    assert_eq!(*FileTailSource::message("hello world\n"), "hello world");
    assert_eq!(*FileTailSource::message("hello world\r\n"), "hello world");
    assert_eq!(*FileTailSource::message("tabs and spaces \t \n"), "tabs and spaces");
    assert_eq!(*FileTailSource::message("  leading stays"), "  leading stays");
    assert_eq!(*FileTailSource::message("\n"), "");
    assert_eq!(*FileTailSource::message(""), "");
}

#[test]
fn cursor_starts_at_the_beginning() {
    let cursor = TailCursor::new();
    assert_eq!(cursor.offset(), 0);
}

#[test]
fn cursor_advances_by_the_bytes_read() {
    let mut cursor = TailCursor::new();
    cursor.advance(12);
    assert_eq!(cursor.offset(), 12);
    cursor.advance(0);
    assert_eq!(cursor.offset(), 12);
    cursor.advance(30);
    assert_eq!(cursor.offset(), 42);
}

#[test]
fn cursor_stays_when_the_file_has_grown_or_not_changed() {
    let mut cursor = TailCursor::new();
    cursor.advance(100);
    assert!(!cursor.resume(100));
    assert_eq!(cursor.offset(), 100);
    assert!(!cursor.resume(250));
    assert_eq!(cursor.offset(), 100);
}

#[test]
fn cursor_starts_over_when_the_file_has_shrunk() {
    let mut cursor = TailCursor::new();
    cursor.advance(100);
    assert!(cursor.resume(99));
    assert_eq!(cursor.offset(), 0);
    assert!(!cursor.resume(0));
    assert_eq!(cursor.offset(), 0);
}
