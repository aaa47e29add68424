//! The sink that appends every record to a file, one line of text each.
use vstd::prelude::*;
use vstd::string::StringExecFns;
use crate::record::Record;
use crate::text::replace_char;
use crate::text::with_char_replaced;

verus! {

/// The name of a sink that was given none.
pub const DEFAULT_SINK_NAME: &'static str = "FileAppendSink";

/// A sink that writes each record as one line to the file at `path`.
pub struct FileAppendSink {
    path: String,
    name: String,
}

/// One field as it stands in a line: the name and the value in double
/// quotes with a colon between them, every double quote inside the value
/// preceded by a backslash.
pub open spec fn json_pair(name: Seq<char>, value: Seq<char>) -> Seq<char> {
    seq!['"'] + name + seq!['"', ':', '"'] + with_char_replaced(value, '"', seq!['\\', '"'])
        + seq!['"']
}

/// The fields of a line in their order, with a comma between neighbours.
pub open spec fn json_pairs(fields: Seq<(Seq<char>, Seq<char>)>) -> Seq<char>
    decreases fields.len(),
{
    if fields.len() == 0 {
        Seq::empty()
    } else if fields.len() == 1 {
        json_pair(fields[0].0, fields[0].1)
    } else {
        json_pairs(fields.drop_last()) + seq![','] + json_pair(fields.last().0, fields.last().1)
    }
}

/// The line for a record with the fields `fields`: the fields between
/// braces.
pub open spec fn json_object(fields: Seq<(Seq<char>, Seq<char>)>) -> Seq<char> {
    seq!['{'] + json_pairs(fields) + seq!['}']
}

impl FileAppendSink {
    /// The sink's name.
    pub closed spec fn label(&self) -> Seq<char> {
        self.name@
    }

    /// The path of the file that the sink appends to.
    pub closed spec fn target(&self) -> Seq<char> {
        self.path@
    }

    /// A sink named `name`, or `FileAppendSink` where no name is given, that
    /// appends to the file at `path`.
    pub fn new(name: Option<&str>, path: &str) -> (sink: FileAppendSink)
        ensures
            sink.target() == path@,
            sink.label() == match name {
                Some(given) => given@,
                None => DEFAULT_SINK_NAME@,
            },
    {
        let name = match name {
            Some(given) => given.to_owned(),
            None => DEFAULT_SINK_NAME.to_owned(),
        };
        FileAppendSink { path: path.to_owned(), name }
    }

    /// The sink's name.
    pub fn name(&self) -> (name: &str)
        ensures
            name@ == self.label(),
    {
        self.name.as_str()
    }

    /// The path of the file that the sink appends to.
    pub fn path(&self) -> (path: &str)
        ensures
            path@ == self.target(),
    {
        self.path.as_str()
    }

    /// The line that the sink writes for `record`: its fields in stored
    /// order, as one object on a single line.
    pub fn record_to_json(&self, record: &Record) -> (json_string: String)
        ensures
            json_string@ == json_object(record.fields()),
    {
        let ghost fields = record.fields();
        let mut json_string = String::from_str("{");
        proof {
            reveal_strlit("{");
            reveal_strlit("}");
            reveal_strlit(",");
            reveal_strlit("\"");
            reveal_strlit("\":\"");
            reveal_strlit("\\\"");
        }
        let count = record.len();
        let mut i: usize = 0;
        while i < count
            invariant
                i <= count,
                count == fields.len(),
                fields == record.fields(),
                json_string@ == seq!['{'] + json_pairs(fields.take(i as int)),
                ","@ == seq![','],
                "\""@ == seq!['"'],
                "\":\""@ == seq!['"', ':', '"'],
                "\\\""@ == seq!['\\', '"'],
            decreases count - i,
        {
            if i > 0 {
                json_string.append(",");
            }
            let field = record.field(i);
            let escaped = replace_char(field.value.as_str(), '"', "\\\"");
            json_string.append("\"");
            json_string.append(field.name.as_str());
            json_string.append("\":\"");
            json_string.append(escaped.as_str());
            json_string.append("\"");
            assert(fields.take(i + 1).drop_last() =~= fields.take(i as int));
            i = i + 1;
        }
        json_string.append("}");
        assert(fields.take(count as int) =~= fields);
        json_string
    }
}

} // verus!
