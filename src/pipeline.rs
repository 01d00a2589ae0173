//! An entry group's processing pipeline.
//!
//! Each stage turns one group of entries into a new one. The work on each entry
//! (decoding, warping, filtering, writing) is done by the caller, in parallel where
//! it likes; the stage functions here take the outcome for every entry and decide
//! what the next group is. A failed entry is dropped; only a stage left without any
//! entry, or a failure on the reference that the stage cannot work around, is fatal.
use vstd::prelude::*;

use crate::entry::{Entries, Entry};
use crate::error::{Error, Result};

pub mod alignment;
pub mod sharpen;
pub mod stacking;

verus! {

/// The values of the successful outcomes, in order.
pub open spec fn oks<T>(results: Seq<Result<T>>) -> Seq<T>
    decreases results.len(),
{
    if results.len() == 0 {
        Seq::empty()
    } else {
        let rest = oks(results.drop_last());
        match results.last() {
            Ok(v) => rest.push(v),
            Err(_) => rest,
        }
    }
}

/// Number of failed outcomes.
pub open spec fn failures<T>(results: Seq<Result<T>>) -> nat
    decreases results.len(),
{
    if results.len() == 0 {
        0
    } else {
        failures(results.drop_last()) + if results.last() is Err {
            1nat
        } else {
            0nat
        }
    }
}

/// Every outcome either survives or counts as a failure: a stage that drops `k`
/// failed entries out of `n` keeps exactly `n - k`.
pub proof fn lemma_survivors(results: Seq<Result<Entry>>)
    ensures
        oks(results).len() + failures(results) == results.len(),
    decreases results.len(),
{
    if results.len() > 0 {
        lemma_survivors(results.drop_last());
    }
}

/// The successful outcomes, in order; the failures are dropped.
pub fn survivors(results: Vec<Result<Entry>>) -> (r: Vec<Entry>)
    ensures
        r@ == oks(results@),
{
    let ghost all = results@;
    let mut rest = results;
    // Outcomes are taken from the back; the survivors come out reversed.
    let mut acc: Vec<Entry> = Vec::new();
    while rest.len() > 0
        invariant
            oks(all) == oks(rest@) + acc@.reverse(),
        decreases rest@.len(),
    {
        let ghost before = rest@;
        let x = rest.pop().unwrap();
        proof {
            assert(before.drop_last() =~= rest@);
            assert(before.last() == x);
        }
        match x {
            Ok(e) => {
                proof {
                    assert(oks(rest@).push(e) + acc@.reverse() =~= oks(rest@) + acc@.push(
                        e,
                    ).reverse());
                }
                acc.push(e);
            },
            Err(_) => {},
        }
    }
    proof {
        assert(oks(rest@) =~= Seq::<Entry>::empty());
        assert(oks(all) =~= acc@.reverse());
    }
    let mut out: Vec<Entry> = Vec::new();
    while acc.len() > 0
        invariant
            oks(all) == out@ + acc@.reverse(),
        decreases acc@.len(),
    {
        let ghost before = acc@;
        let e = acc.pop().unwrap();
        proof {
            assert(before =~= acc@.push(e));
            assert(out@ + before.reverse() =~= out@.push(e) + acc@.reverse());
        }
        out.push(e);
    }
    proof {
        assert(out@ =~= oks(all));
    }
    out
}

/// A stage in the processing pipeline of a group of entries.
#[derive(Clone, Debug)]
pub enum Stage {
    Alignment(alignment::Opts),
    Sharpen(sharpen::Opts),
    Stacking(stacking::Opts),
}

/// Where a run of a pipeline stands.
pub enum Run {
    /// Run the stage at this position on this group.
    Stage(usize, Entries),
    /// The run is over, with the last stage's output or the first fatal error.
    Done(Result<Entries>),
}

/// Represents a pipeline of operations on a group of entries.
pub struct Pipeline {
    pub stages: Vec<Stage>,
}

impl Pipeline {
    /// Begin a run on `input`: the first stage, or the input itself when there is
    /// no stage.
    pub fn start(&self, input: Entries) -> (r: Run)
        ensures
            self.stages@.len() == 0 ==> r == Run::Done(Ok(input)),
            self.stages@.len() > 0 ==> r == Run::Stage(0, input),
    {
        if self.stages.len() == 0 {
            Run::Done(Ok(input))
        } else {
            Run::Stage(0, input)
        }
    }

    /// Take the outcome of the stage at position `stage`: a fatal error ends the
    /// run, an output goes on to the next stage, or ends the run after the last.
    pub fn advance(&self, stage: usize, outcome: Result<Entries>) -> (r: Run)
        requires
            stage < self.stages@.len(),
        ensures
            outcome is Err ==> r == Run::Done(outcome),
            outcome matches Ok(g) ==> if stage + 1 < self.stages@.len() {
                r == Run::Stage((stage + 1) as usize, g)
            } else {
                r == Run::Done(Ok(g))
            },
    {
        let n = self.stages.len();
        match outcome {
            Err(e) => Run::Done(Err(e)),
            Ok(g) => {
                if stage + 1 < n {
                    Run::Stage(stage + 1, g)
                } else {
                    Run::Done(Ok(g))
                }
            },
        }
    }
}

} // verus!
