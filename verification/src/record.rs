//! Records: the field-name to field-value mappings that a pattern stage hands
//! to its sinks.
use vstd::prelude::*;
use crate::text::same_text;

verus! {

/// The name of the field that holds the full matched text.
pub const LINE_FIELD: &'static str = "line";

/// One stored field of a record.
#[derive(Debug)]
pub struct Field {
    pub name: String,
    pub value: String,
}

/// True when no two entries of `fields` carry the same name.
pub open spec fn names_distinct(fields: Seq<(Seq<char>, Seq<char>)>) -> bool {
    forall|i: int, j: int| 0 <= i < j < fields.len() ==> fields[i].0 != fields[j].0
}

/// True when some entry of `fields` is named `name`.
pub open spec fn has_field(fields: Seq<(Seq<char>, Seq<char>)>, name: Seq<char>) -> bool {
    exists|i: int| 0 <= i < fields.len() && #[trigger] fields[i].0 == name
}

/// The position of an entry named `name`; meaningful only under `has_field`.
pub open spec fn field_index(fields: Seq<(Seq<char>, Seq<char>)>, name: Seq<char>) -> int {
    choose|i: int| 0 <= i < fields.len() && #[trigger] fields[i].0 == name
}

/// The mapping that a list of fields stands for.
pub open spec fn fields_map(fields: Seq<(Seq<char>, Seq<char>)>) -> Map<Seq<char>, Seq<char>> {
    Map::new(
        |name: Seq<char>| has_field(fields, name),
        |name: Seq<char>| fields[field_index(fields, name)].1,
    )
}

/// `fields` with `name` set to `value`: overwritten in place when present,
/// appended otherwise.
pub open spec fn put_field(
    fields: Seq<(Seq<char>, Seq<char>)>,
    name: Seq<char>,
    value: Seq<char>,
) -> Seq<(Seq<char>, Seq<char>)> {
    if has_field(fields, name) {
        fields.update(field_index(fields, name), (name, value))
    } else {
        fields.push((name, value))
    }
}

/// `fields` without the entry named `name`; unchanged when there is none.
pub open spec fn drop_field(fields: Seq<(Seq<char>, Seq<char>)>, name: Seq<char>) -> Seq<
    (Seq<char>, Seq<char>),
> {
    if has_field(fields, name) {
        fields.remove(field_index(fields, name))
    } else {
        fields
    }
}

/// Setting a field keeps names distinct and acts on the mapping as `insert`.
pub proof fn lemma_put_field(fields: Seq<(Seq<char>, Seq<char>)>, name: Seq<char>, value: Seq<char>)
    requires
        names_distinct(fields),
    ensures
        names_distinct(put_field(fields, name, value)),
        fields_map(put_field(fields, name, value)) == fields_map(fields).insert(name, value),
{
    let after = put_field(fields, name, value);
    let at = if has_field(fields, name) {
        field_index(fields, name)
    } else {
        fields.len() as int
    };
    assert forall|i: int| 0 <= i < after.len() && i != at implies #[trigger] after[i]
        == fields[i] by {}
    assert forall|k: Seq<char>| has_field(after, k) <==> (k == name || has_field(fields, k)) by {
        if has_field(after, k) {
            let i = field_index(after, k);
            if i != at {
                assert(fields[i].0 == k);
            }
        }
        if k == name {
            assert(after[at].0 == k);
        } else if has_field(fields, k) {
            let i = field_index(fields, k);
            assert(after[i].0 == k);
        }
    }
    assert forall|k: Seq<char>| has_field(after, k) implies #[trigger] fields_map(after)[k]
        == fields_map(fields).insert(name, value)[k] by {
        if k != name {
            let j = field_index(fields, k);
            assert(after[j].0 == k);
        }
    }
    assert(fields_map(after) =~= fields_map(fields).insert(name, value));
}

/// Removing a field keeps names distinct and acts on the mapping as `remove`.
pub proof fn lemma_drop_field(fields: Seq<(Seq<char>, Seq<char>)>, name: Seq<char>)
    requires
        names_distinct(fields),
    ensures
        names_distinct(drop_field(fields, name)),
        fields_map(drop_field(fields, name)) == fields_map(fields).remove(name),
{
    let after = drop_field(fields, name);
    if has_field(fields, name) {
        let at = field_index(fields, name);
        assert forall|i: int| 0 <= i < after.len() implies #[trigger] after[i] == fields[if i < at {
            i
        } else {
            i + 1
        }] by {}
        assert forall|k: Seq<char>| has_field(after, k) <==> (k != name && has_field(fields, k)) by {
            if has_field(after, k) {
                let i = field_index(after, k);
                let j = if i < at { i } else { i + 1 };
                assert(fields[j].0 == k);
            }
            if k != name && has_field(fields, k) {
                let j = field_index(fields, k);
                let i = if j < at { j } else { j - 1 };
                assert(after[i].0 == k);
            }
        }
        assert forall|k: Seq<char>| has_field(after, k) implies #[trigger] fields_map(after)[k]
            == fields_map(fields).remove(name)[k] by {
            let i = field_index(after, k);
            let j = if i < at { i } else { i + 1 };
            assert(fields[j].0 == k);
            let j2 = field_index(fields, k);
            assert(j2 == j);
        }
        assert(fields_map(after) =~= fields_map(fields).remove(name));
    } else {
        assert(fields_map(after) =~= fields_map(fields).remove(name));
    }
}

/// A list of fields with distinct names stands for a finite mapping with one
/// key per entry.
pub proof fn lemma_fields_map_len(fields: Seq<(Seq<char>, Seq<char>)>)
    requires
        names_distinct(fields),
    ensures
        fields_map(fields).dom().finite(),
        fields_map(fields).dom().len() == fields.len(),
    decreases fields.len(),
{
    if fields.len() == 0 {
        assert(fields_map(fields).dom() =~= Set::<Seq<char>>::empty());
    } else {
        let front = fields.drop_last();
        let last = fields.last();
        lemma_fields_map_len(front);
        assert(!has_field(front, last.0)) by {
            if has_field(front, last.0) {
                let i = field_index(front, last.0);
                assert(fields[i].0 == fields[fields.len() - 1].0);
            }
        }
        assert forall|k: Seq<char>| has_field(fields, k) <==> (k == last.0 || has_field(front, k)) by {
            if has_field(fields, k) {
                let i = field_index(fields, k);
                if i < front.len() {
                    assert(front[i].0 == k);
                }
            }
            if k == last.0 {
                assert(fields[fields.len() - 1].0 == k);
            } else if has_field(front, k) {
                let i = field_index(front, k);
                assert(fields[i].0 == k);
            }
        }
        assert(fields_map(fields).dom() =~= fields_map(front).dom().insert(last.0));
    }
}

/// The record that a stage builds for one match: the reserved field alone,
/// holding the matched text.
pub open spec fn base_record(matched: Seq<char>) -> Map<Seq<char>, Seq<char>> {
    Map::<Seq<char>, Seq<char>>::empty().insert(LINE_FIELD@, matched)
}

/// The (name, value) pairs that a vector of stored fields holds, in order.
pub open spec fn stored_fields(entries: Seq<Field>) -> Seq<(Seq<char>, Seq<char>)> {
    Seq::new(entries.len(), |i: int| (entries[i].name@, entries[i].value@))
}

/// A mapping from field name to field value. Names are unique; the fields
/// keep the order in which their names were first set.
#[derive(Debug)]
pub struct Record {
    entries: Vec<Field>,
}

impl View for Record {
    type V = Map<Seq<char>, Seq<char>>;

    open spec fn view(&self) -> Map<Seq<char>, Seq<char>> {
        fields_map(self.fields())
    }
}

impl Record {
    /// The stored fields as (name, value) pairs, in stored order.
    pub closed spec fn fields(&self) -> Seq<(Seq<char>, Seq<char>)> {
        stored_fields(self.entries@)
    }

    /// Every record that executable code holds has distinct field names.
    #[verifier::type_invariant]
    pub open spec fn well_formed(&self) -> bool {
        names_distinct(self.fields())
    }

    /// The record without any field.
    pub fn new() -> (record: Record)
        ensures
            record.fields() == Seq::<(Seq<char>, Seq<char>)>::empty(),
            record@ == Map::<Seq<char>, Seq<char>>::empty(),
    {
        Record { entries: Vec::new() }
    }

    /// The fresh record for one match: the reserved field set to the matched
    /// text, and nothing else.
    pub fn from_match(matched: String) -> (record: Record)
        ensures
            record.fields() == seq![(LINE_FIELD@, matched@)],
            record@ == base_record(matched@),
    {
        let mut record = Record::new();
        record.insert(LINE_FIELD.to_owned(), matched);
        record
    }

    /// The number of fields.
    pub fn len(&self) -> (n: usize)
        ensures
            n == self.fields().len(),
            n == self@.dom().len(),
    {
        proof {
            use_type_invariant(self);
            lemma_fields_map_len(self.fields());
        }
        self.entries.len()
    }

    /// The field stored at position `i`.
    pub fn field(&self, i: usize) -> (field: &Field)
        requires
            i < self.fields().len(),
        ensures
            (field.name@, field.value@) == self.fields()[i as int],
    {
        &self.entries[i]
    }

    /// Where the field named `name` is stored, if there is one.
    fn position(&self, name: &str) -> (found: Option<usize>)
        ensures
            match found {
                Some(i) => i < self.fields().len() && self.fields()[i as int].0 == name@ && i
                    == field_index(self.fields(), name@) && has_field(self.fields(), name@),
                None => !has_field(self.fields(), name@),
            },
    {
        proof {
            use_type_invariant(self);
        }
        let mut i: usize = 0;
        while i < self.entries.len()
            invariant
                i <= self.entries.len(),
                names_distinct(self.fields()),
                forall|j: int| 0 <= j < i ==> self.fields()[j].0 != name@,
            decreases self.entries.len() - i,
        {
            if same_text(self.entries[i].name.as_str(), name) {
                assert(self.fields()[i as int].0 == name@);
                return Some(i);
            }
            i = i + 1;
        }
        None
    }

    /// Whether a field named `name` is present.
    pub fn contains_key(&self, name: &str) -> (present: bool)
        ensures
            present == self@.contains_key(name@),
    {
        self.position(name).is_some()
    }

    /// The value of the field named `name`, if it is present.
    pub fn get(&self, name: &str) -> (value: Option<&str>)
        ensures
            match value {
                Some(text) => self@.contains_key(name@) && text@ == self@[name@],
                None => !self@.contains_key(name@),
            },
    {
        match self.position(name) {
            Some(i) => Some(self.entries[i].value.as_str()),
            None => None,
        }
    }

    /// Sets the field `name` to `value`, overwriting an earlier value in
    /// place or appending a new field.
    pub fn insert(&mut self, name: String, value: String)
        ensures
            final(self)@ == old(self)@.insert(name@, value@),
            final(self).fields() == put_field(old(self).fields(), name@, value@),
    {
        proof {
            use_type_invariant(&*self);
            lemma_put_field(self.fields(), name@, value@);
        }
        let ghost before = self.fields();
        let found = self.position(name.as_str());
        let mut entries: Vec<Field> = Vec::new();
        core::mem::swap(&mut self.entries, &mut entries);
        match found {
            Some(i) => {
                entries[i].value = value;
            },
            None => {
                entries.push(Field { name, value });
            },
        }
        assert(stored_fields(entries@) =~= put_field(before, name@, value@));
        self.entries = entries;
    }

    /// Removes the field `name`; a record without it is left as it is.
    pub fn remove(&mut self, name: &str)
        ensures
            final(self)@ == old(self)@.remove(name@),
            final(self).fields() == drop_field(old(self).fields(), name@),
    {
        proof {
            use_type_invariant(&*self);
            lemma_drop_field(self.fields(), name@);
        }
        let ghost before = self.fields();
        let found = self.position(name);
        let mut entries: Vec<Field> = Vec::new();
        core::mem::swap(&mut self.entries, &mut entries);
        match found {
            Some(i) => {
                let _ = entries.remove(i);
            },
            None => {},
        }
        assert(stored_fields(entries@) =~= drop_field(before, name@));
        self.entries = entries;
    }
}

} // verus!
