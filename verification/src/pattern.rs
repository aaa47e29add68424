//! The pattern stage: one rule, one chain of transforms, and the sinks that
//! every record of the stage is broadcast to.
use vstd::prelude::*;
use regex::Regex;
use std::sync::mpsc::Receiver;
use std::sync::Arc;
use crate::fanout::shared_value;
use crate::fanout::FanOut;
use crate::fanout::Inbound;
use crate::held::held_items;
use crate::held::Held;
use crate::held::Job;
use crate::parsers::chain::Chain;
use crate::parsers::traits::Parser;
use crate::record::base_record;
use crate::record::Record;
use crate::rule::compile_rule;
use crate::rule::describe_error;
use crate::rule::find_matches;
use crate::rule::rule_compiles;
use crate::rule::rule_matches;
use crate::rule::rule_source;
use crate::rule::rule_text;
use crate::rule::RuleError;
use crate::sinks::traits::Sink;
use crate::text::texts;

verus! {

/// The name of a stage that was given none.
pub const DEFAULT_PATTERN_NAME: &'static str = "Pattern";

/// A pattern stage as configured: its name, its rule, its chain of
/// transforms in the order in which they run, and its sinks.
pub struct Pattern {
    name: String,
    compiled_regex: Regex,
    parsers: Chain,
    sinks: Vec<Held<dyn Sink>>,
}

/// A sink together with the receiving end of its private channel: what one
/// sink thread is started with.
pub type SinkJob = Job<dyn Sink, Receiver<Arc<Record>>>;

/// The mappings that a list of records holds.
pub open spec fn record_views(records: Seq<Record>) -> Seq<Map<Seq<char>, Seq<char>>> {
    Seq::new(records.len(), |i: int| records[i]@)
}

/// The records that a stage with the transforms `chain` makes of a line's
/// matches: one per match and in the order of the matches, each the chain's
/// output on the fresh record of its match.
pub open spec fn stage_output(chain: Chain, matches: Seq<Seq<char>>) -> Seq<
    Map<Seq<char>, Seq<char>>,
> {
    Seq::new(matches.len(), |i: int| chain.output(base_record(matches[i])))
}

impl Pattern {
    /// The stage's name.
    pub closed spec fn label(&self) -> Seq<char> {
        self.name@
    }

    /// The stage's rule.
    pub closed spec fn rule(&self) -> Regex {
        self.compiled_regex
    }

    /// The stage's chain of transforms.
    pub closed spec fn chain(&self) -> Chain {
        self.parsers
    }

    /// The stage's sinks, in the order in which they were added.
    pub closed spec fn sinks(&self) -> Seq<Box<dyn Sink>> {
        held_items(self.sinks@)
    }

    /// What the stage makes of `line`: the records of its matches.
    pub open spec fn output(&self, line: Seq<char>) -> Seq<Map<Seq<char>, Seq<char>>> {
        stage_output(self.chain(), rule_matches(self.rule(), line))
    }

    /// A stage named `name`, or `Pattern` where no name is given, with the
    /// rule `regex` and neither transforms nor sinks. A text that is no valid
    /// rule is refused with the reason.
    pub fn new(name: Option<&str>, regex: &str) -> (made: Result<Pattern, RuleError>)
        ensures
            made is Ok <==> rule_compiles(regex@),
            made matches Ok(pattern) ==> {
                &&& pattern.label() == match name {
                    Some(given) => given@,
                    None => DEFAULT_PATTERN_NAME@,
                }
                &&& rule_text(pattern.rule()) == regex@
                &&& pattern.chain().len() == 0
                &&& forall|input: Map<Seq<char>, Seq<char>>| #[trigger]
                    pattern.chain().output(input) == input
                &&& pattern.sinks().len() == 0
            },
    {
        match compile_rule(regex) {
            Ok(compiled_regex) => {
                let name = match name {
                    Some(given) => given.to_owned(),
                    None => DEFAULT_PATTERN_NAME.to_owned(),
                };
                let pattern = Pattern {
                    name,
                    compiled_regex,
                    parsers: Chain::new(),
                    sinks: Vec::new(),
                };
                Ok(pattern)
            },
            Err(error) => Err(describe_error(error)),
        }
    }

    /// The stage's name.
    pub fn name(&self) -> (name: &str)
        ensures
            name@ == self.label(),
    {
        self.name.as_str()
    }

    /// The text of the stage's rule.
    pub fn rule_text(&self) -> (text: String)
        ensures
            text@ == rule_text(self.rule()),
    {
        rule_source(&self.compiled_regex)
    }

    /// Appends `p` to the chain: it runs after the transforms added before,
    /// on what they made of the record.
    pub fn add_parser(&mut self, p: Box<dyn Parser>)
        ensures
            final(self).chain().len() == old(self).chain().len() + 1,
            forall|input: Map<Seq<char>, Seq<char>>| #[trigger]
                final(self).chain().output(input) == p.transform(old(self).chain().output(input)),
            final(self).label() == old(self).label(),
            final(self).rule() == old(self).rule(),
            final(self).sinks() == old(self).sinks(),
    {
        let held = Held { item: p };
        self.parsers.push_held(held);
    }

    /// Adds `s` to the sinks of the stage.
    pub fn add_sink(&mut self, s: Box<dyn Sink>)
        ensures
            final(self).sinks().len() == old(self).sinks().len() + 1,
            final(self).sinks().last() == s,
            forall|i: int|
                0 <= i < old(self).sinks().len() ==> #[trigger] final(self).sinks()[i] == old(
                    self,
                ).sinks()[i],
            final(self).label() == old(self).label(),
            final(self).rule() == old(self).rule(),
            final(self).chain() == old(self).chain(),
    {
        let held = Held { item: s };
        self.sinks.push(held);
    }

    /// The records of the matches `matches`, one per match and in their
    /// order: the fresh record of each match run through the chain.
    pub fn records_from_matches(&self, matches: Vec<String>) -> (records: Vec<Record>)
        ensures
            records@.len() == matches@.len(),
            record_views(records@) == stage_output(self.chain(), texts(matches@)),
    {
        let mut records: Vec<Record> = Vec::new();
        let mut i: usize = 0;
        while i < matches.len()
            invariant
                i <= matches.len(),
                records@.len() == i,
                forall|j: int|
                    0 <= j < i ==> (#[trigger] records@[j])@ == self.chain().output(
                        base_record(matches@[j]@),
                    ),
            decreases matches.len() - i,
        {
            let fresh = Record::from_match(matches[i].clone());
            let record = self.parsers.apply(fresh);
            records.push(record);
            i = i + 1;
        }
        records
    }

    /// The records that the stage makes of `line`: one for every match of
    /// the rule in `line`, from left to right.
    pub fn process_line(&self, line: &str) -> (records: Vec<Record>)
        ensures
            records@.len() == rule_matches(self.rule(), line@).len(),
            record_views(records@) == self.output(line@),
    {
        let matches = find_matches(&self.compiled_regex, line);
        self.records_from_matches(matches)
    }

    /// Handles one line: makes the records of its matches and offers each,
    /// in order, to every channel of `sinks`. A channel that refuses a record
    /// does not keep the record from the others, nor later records from
    /// anyone. The answer is the number of records made.
    pub fn handle_line(&self, line: &str, sinks: &mut FanOut<Record>) -> (produced: usize)
        ensures
            produced == self.output(line@).len(),
            final(sinks).width() == old(sinks).width(),
            forall|i: int|
                0 <= i < old(sinks).width() ==> record_views(#[trigger] final(sinks).offered(i))
                    == record_views(old(sinks).offered(i)) + self.output(line@),
    {
        let records = self.process_line(line);
        let produced = records.len();
        let ghost all = records@;
        for record in it: records
            invariant
                it.seq() == all,
                sinks.width() == old(sinks).width(),
                forall|i: int|
                    0 <= i < old(sinks).width() ==> #[trigger] sinks.offered(i) == old(
                        sinks,
                    ).offered(i) + all.take(it.index()),
        {
            let ghost sent = it.index();
            let _ = sinks.broadcast(Arc::new(record));
            assert(all.take(sent + 1) =~= all.take(sent).push(all[sent]));
        }
        assert forall|i: int| 0 <= i < old(sinks).width() implies record_views(
            #[trigger] sinks.offered(i),
        ) == record_views(old(sinks).offered(i)) + self.output(line@) by {
            assert(record_views(old(sinks).offered(i) + all) =~= record_views(
                old(sinks).offered(i),
            ) + record_views(all));
        }
        produced
    }

    /// One turn of the stage's loop. A line is handled as `handle_line` says,
    /// and the loop goes on. Closure of the inbound channel is passed on:
    /// every sending end of `sinks` is dropped, which closes the sinks'
    /// channels, and the loop is over.
    pub fn relay(&self, inbound: Inbound<String>, sinks: &mut FanOut<Record>) -> (go_on: bool)
        ensures
            go_on == (inbound is Item),
            inbound matches Inbound::Item(line) ==> {
                &&& final(sinks).width() == old(sinks).width()
                &&& forall|i: int|
                    0 <= i < old(sinks).width() ==> record_views(
                        #[trigger] final(sinks).offered(i),
                    ) == record_views(old(sinks).offered(i)) + self.output(shared_value(line)@)
            },
            inbound is Closed ==> final(sinks).width() == 0,
    {
        match inbound {
            Inbound::Item(line) => {
                let _ = self.handle_line(line.as_str(), sinks);
                true
            },
            Inbound::Closed => {
                sinks.close();
                false
            },
        }
    }

    /// Opens a private channel for every sink of the stage, in the order of
    /// the sinks: the sending ends become the stage's fan-out, and each sink
    /// leaves the stage together with the receiving end of its channel.
    pub fn open_sinks(&mut self) -> (opened: (FanOut<Record>, Vec<SinkJob>))
        ensures
            final(self).sinks().len() == 0,
            final(self).label() == old(self).label(),
            final(self).rule() == old(self).rule(),
            final(self).chain() == old(self).chain(),
            opened.0.width() == old(self).sinks().len(),
            forall|i: int|
                0 <= i < old(self).sinks().len() ==> #[trigger] opened.0.offered(i) == Seq::<
                    Record,
                >::empty(),
            opened.1@.len() == old(self).sinks().len(),
            forall|i: int|
                0 <= i < old(self).sinks().len() ==> (#[trigger] opened.1@[i]).worker == old(
                    self,
                ).sinks()[i],
    {
        let mut sinks: Vec<Held<dyn Sink>> = Vec::new();
        core::mem::swap(&mut self.sinks, &mut sinks);
        let ghost all = sinks@;
        let mut fan_out: FanOut<Record> = FanOut::new();
        let mut jobs: Vec<SinkJob> = Vec::new();
        for held in it: sinks
            invariant
                it.seq() == all,
                fan_out.width() == it.index(),
                jobs@.len() == it.index(),
                forall|i: int|
                    0 <= i < it.index() ==> #[trigger] fan_out.offered(i) == Seq::<Record>::empty(),
                forall|i: int| 0 <= i < it.index() ==> (#[trigger] jobs@[i]).worker == all[i].item,
        {
            let inbox = fan_out.open();
            let job = Job { worker: held.item, channel: inbox };
            jobs.push(job);
        }
        (fan_out, jobs)
    }
}

} // verus!
