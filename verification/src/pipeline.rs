//! The orchestrator: it owns the sources and the pattern stages, merges what
//! the sources emit and broadcasts every line to every stage.
use vstd::prelude::*;
use std::sync::mpsc::Receiver;
use std::sync::mpsc::Sender;
use std::sync::Arc;
use crate::fanout::another_sender;
use crate::fanout::open_channel;
use crate::fanout::FanOut;
use crate::held::held_items;
use crate::held::Held;
use crate::held::Job;
use crate::pattern::Pattern;
use crate::sources::traits::Source;

verus! {

/// The name of an orchestrator that was given none.
pub const DEFAULT_PROCESSOR_NAME: &'static str = "Processor";

/// The orchestrator as configured: its name, its sources and its pattern
/// stages.
pub struct Processor {
    name: String,
    sources: Vec<Held<dyn Source>>,
    patterns: Vec<Box<Pattern>>,
}

/// A pattern stage together with the receiving end of its private inbound
/// channel: what one stage thread is started with.
pub type StageJob = Job<Pattern, Receiver<Arc<String>>>;

/// A source together with its own sending end of the merge channel: what
/// one source thread is started with.
pub type SourceJob = Job<dyn Source, Sender<Arc<String>>>;

/// The channels of a running pipeline. The merge channel closes once every
/// source job has dropped its sending end: no other one is kept.
pub struct Wiring {
    /// The sending ends of the stages' inbound channels.
    pub stages: FanOut<String>,
    /// One job per pattern stage, in the order of the stages.
    pub stage_jobs: Vec<StageJob>,
    /// One job per source, in the order of the sources.
    pub source_jobs: Vec<SourceJob>,
    /// The receiving end of the merge channel.
    pub merged: Receiver<Arc<String>>,
}

impl Processor {
    /// The orchestrator's name.
    pub closed spec fn label(&self) -> Seq<char> {
        self.name@
    }

    /// The sources, in the order in which they were added.
    pub closed spec fn sources(&self) -> Seq<Box<dyn Source>> {
        held_items(self.sources@)
    }

    /// The pattern stages, in the order in which they were added.
    pub closed spec fn patterns(&self) -> Seq<Box<Pattern>> {
        self.patterns@
    }

    /// An orchestrator named `name`, or `Processor` where no name is given,
    /// without sources or stages.
    pub fn new(name: Option<&str>) -> (processor: Processor)
        ensures
            processor.label() == match name {
                Some(given) => given@,
                None => DEFAULT_PROCESSOR_NAME@,
            },
            processor.sources().len() == 0,
            processor.patterns().len() == 0,
    {
        let name = match name {
            Some(given) => given.to_owned(),
            None => DEFAULT_PROCESSOR_NAME.to_owned(),
        };
        Processor { name, sources: Vec::new(), patterns: Vec::new() }
    }

    /// The orchestrator's name.
    pub fn name(&self) -> (name: &str)
        ensures
            name@ == self.label(),
    {
        self.name.as_str()
    }

    /// Adds `src` to the sources.
    pub fn add_source(&mut self, src: Box<dyn Source>)
        ensures
            final(self).sources().len() == old(self).sources().len() + 1,
            final(self).sources().last() == src,
            forall|i: int|
                0 <= i < old(self).sources().len() ==> #[trigger] final(self).sources()[i] == old(
                    self,
                ).sources()[i],
            final(self).patterns() == old(self).patterns(),
            final(self).label() == old(self).label(),
    {
        let held = Held { item: src };
        self.sources.push(held);
    }

    /// Adds `p` to the pattern stages.
    pub fn add_pattern(&mut self, p: Box<Pattern>)
        ensures
            final(self).patterns() == old(self).patterns().push(p),
            final(self).sources() == old(self).sources(),
            final(self).label() == old(self).label(),
    {
        self.patterns.push(p);
    }

    /// Lays out the channels of the pipeline: a private inbound channel for
    /// every pattern stage, whose sending ends become the fan-out, and one
    /// merge channel, of which every source gets a sending end of its own.
    /// The first sending end of the merge channel is dropped here.
    pub fn wire(self) -> (wiring: Wiring)
        ensures
            wiring.stages.width() == self.patterns().len(),
            forall|i: int|
                0 <= i < self.patterns().len() ==> #[trigger] wiring.stages.offered(i) == Seq::<
                    String,
                >::empty(),
            wiring.stage_jobs@.len() == self.patterns().len(),
            forall|i: int|
                0 <= i < self.patterns().len() ==> (#[trigger] wiring.stage_jobs@[i]).worker
                    == self.patterns()[i],
            wiring.source_jobs@.len() == self.sources().len(),
            forall|i: int|
                0 <= i < self.sources().len() ==> (#[trigger] wiring.source_jobs@[i]).worker
                    == self.sources()[i],
    {
        let ghost all_patterns = self.patterns@;
        let ghost all_sources = self.sources@;
        let mut stages: FanOut<String> = FanOut::new();
        let mut stage_jobs: Vec<StageJob> = Vec::new();
        for stage in it: self.patterns
            invariant
                it.seq() == all_patterns,
                stages.width() == it.index(),
                stage_jobs@.len() == it.index(),
                forall|i: int|
                    0 <= i < it.index() ==> #[trigger] stages.offered(i) == Seq::<String>::empty(),
                forall|i: int|
                    0 <= i < it.index() ==> (#[trigger] stage_jobs@[i]).worker == all_patterns[i],
        {
            let inbox = stages.open();
            let job = Job { worker: stage, channel: inbox };
            stage_jobs.push(job);
        }
        let (master, merged) = open_channel::<Arc<String>>();
        let mut source_jobs: Vec<SourceJob> = Vec::new();
        for held in it: self.sources
            invariant
                it.seq() == all_sources,
                source_jobs@.len() == it.index(),
                forall|i: int|
                    0 <= i < it.index() ==> (#[trigger] source_jobs@[i]).worker
                        == all_sources[i].item,
        {
            let outbox = another_sender(&master);
            let job = Job { worker: held.item, channel: outbox };
            source_jobs.push(job);
        }
        Wiring { stages, stage_jobs, source_jobs, merged }
    }
}

} // verus!
