//! The field-removal transform.
use vstd::prelude::*;
use crate::parsers::traits::Parser;
use crate::record::Record;
use crate::text::texts;

verus! {

/// A transform that removes a configured list of fields from every record.
pub struct DropFieldsParser {
    fields: Vec<String>,
}

/// The character sequences of a list of string slices.
pub open spec fn slice_texts(names: Seq<&str>) -> Seq<Seq<char>> {
    Seq::new(names.len(), |i: int| names[i]@)
}

impl DropFieldsParser {
    /// The names of the fields that this transform removes.
    pub closed spec fn names(&self) -> Seq<Seq<char>> {
        texts(self.fields@)
    }

    /// A transform that removes the fields named in `fields`.
    pub fn new(fields: Vec<&str>) -> (parser: DropFieldsParser)
        ensures
            parser.names() == slice_texts(fields@),
    {
        let mut owned: Vec<String> = Vec::new();
        let mut i: usize = 0;
        while i < fields.len()
            invariant
                i <= fields.len(),
                owned@.len() == i,
                forall|j: int| 0 <= j < i ==> (#[trigger] owned@[j])@ == fields@[j]@,
            decreases fields.len() - i,
        {
            owned.push(fields[i].to_owned());
            i = i + 1;
        }
        DropFieldsParser { fields: owned }
    }
}

impl Parser for DropFieldsParser {
    /// The input without the configured fields; every other field is passed
    /// through.
    open spec fn transform(&self, input: Map<Seq<char>, Seq<char>>) -> Map<Seq<char>, Seq<char>> {
        input.remove_keys(self.names().to_set())
    }

    fn parse(&self, input: Record) -> (output: Record) {
        let mut current = input;
        let mut i: usize = 0;
        while i < self.fields.len()
            invariant
                i <= self.fields.len(),
                self.names() == texts(self.fields@),
                current@ == input@.remove_keys(self.names().take(i as int).to_set()),
            decreases self.fields.len() - i,
        {
            current.remove(self.fields[i].as_str());
            proof {
                let name = self.names()[i as int];
                assert(self.names().take(i + 1) =~= self.names().take(i as int).push(name));
                self.names().take(i as int).lemma_push_to_set_commute(name);
            }
            i = i + 1;
        }
        assert(self.names().take(i as int) =~= self.names());
        current
    }
}

/// Removing absent fields changes nothing: a record that holds none of the
/// configured fields passes through unchanged.
pub proof fn lemma_drop_absent_is_noop(parser: DropFieldsParser, input: Map<Seq<char>, Seq<char>>)
    requires
        forall|i: int| 0 <= i < parser.names().len() ==> !input.contains_key(parser.names()[i]),
    ensures
        parser.transform(input) == input,
{
    assert forall|k: Seq<char>| input.contains_key(k) implies !parser.names().to_set().contains(
        k,
    ) by {
        if parser.names().contains(k) {
            let i = parser.names().index_of(k);
            assert(!input.contains_key(parser.names()[i]));
        }
    }
}

/// Removing fields is idempotent: applying the transform to its own output
/// gives that output again.
pub proof fn lemma_drop_idempotent(parser: DropFieldsParser, input: Map<Seq<char>, Seq<char>>)
    ensures
        parser.transform(parser.transform(input)) == parser.transform(input),
{
}

} // verus!
