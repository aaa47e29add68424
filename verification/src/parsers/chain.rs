//! Chains: transforms composed in a fixed order.
use vstd::prelude::*;
use crate::held::Held;
use crate::parsers::traits::Parser;
use crate::record::Record;

verus! {

/// What the transforms `steps` make of `input` when they run from the first
/// to the last, each on the output of the one before it.
pub open spec fn run_steps(steps: Seq<Held<dyn Parser>>, input: Map<Seq<char>, Seq<char>>) -> Map<
    Seq<char>,
    Seq<char>,
>
    decreases steps.len(),
{
    if steps.len() == 0 {
        input
    } else {
        steps.last().item.transform(run_steps(steps.drop_last(), input))
    }
}

/// An ordered chain of transforms. The order is the order in which the
/// transforms were pushed, and it is the order in which they run.
pub struct Chain {
    steps: Vec<Held<dyn Parser>>,
}

impl Chain {
    /// The number of transforms in the chain.
    pub closed spec fn len(&self) -> nat {
        self.steps@.len()
    }

    /// What the chain makes of `input`.
    pub closed spec fn output(&self, input: Map<Seq<char>, Seq<char>>) -> Map<Seq<char>, Seq<char>> {
        run_steps(self.steps@, input)
    }

    /// The chain without any transform: it hands every record back as it is.
    pub fn new() -> (chain: Chain)
        ensures
            chain.len() == 0,
            forall|input: Map<Seq<char>, Seq<char>>| #[trigger] chain.output(input) == input,
    {
        Chain { steps: Vec::new() }
    }

    /// Appends `p`: it runs last, on what the chain made of the input so far.
    pub fn push(&mut self, p: Box<dyn Parser>)
        ensures
            final(self).len() == old(self).len() + 1,
            forall|input: Map<Seq<char>, Seq<char>>| #[trigger]
                final(self).output(input) == p.transform(old(self).output(input)),
    {
        let held = Held { item: p };
        self.push_held(held);
    }

    /// Appends the transform that `held` holds.
    pub(crate) fn push_held(&mut self, held: Held<dyn Parser>)
        ensures
            final(self).len() == old(self).len() + 1,
            forall|input: Map<Seq<char>, Seq<char>>| #[trigger]
                final(self).output(input) == held.item.transform(old(self).output(input)),
    {
        self.steps.push(held);
        assert(self.steps@.drop_last() =~= old(self).steps@);
    }

    /// Runs `record` through the chain.
    pub fn apply(&self, record: Record) -> (output: Record)
        ensures
            output@ == self.output(record@),
    {
        let mut current = record;
        let mut i: usize = 0;
        while i < self.steps.len()
            invariant
                i <= self.steps.len(),
                current@ == run_steps(self.steps@.take(i as int), record@),
            decreases self.steps.len() - i,
        {
            assert(self.steps@.take(i + 1).drop_last() =~= self.steps@.take(i as int));
            current = self.steps[i].item.parse(current);
            i = i + 1;
        }
        assert(self.steps@.take(i as int) =~= self.steps@);
        current
    }
}

/// A chain is deterministic: on records that hold the same mapping it
/// produces the same mapping, whatever the stored order of their fields.
pub proof fn lemma_chain_deterministic(chain: Chain, first: Record, second: Record)
    requires
        first@ == second@,
    ensures
        chain.output(first@) == chain.output(second@),
{
}

} // verus!
