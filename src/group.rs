//! Groups of entries and their pipelines.
use vstd::prelude::*;

use crate::entry::Entries;
use crate::error::Result;
use crate::pipeline::Pipeline;

verus! {

/// A group of entries and associated processing options.
pub struct Group {
    /// The name of this group.
    pub name: String,
    /// This group's pipeline.
    pub pipeline: Pipeline,
    /// The current group of entries.
    ///
    /// The reference entry should never be mutated.
    pub entries: Entries,
    /// The output of running this group's pipeline.
    pub pipeline_output: Option<Entries>,
}

impl Group {
    /// Keep the outcome of a run of this group's pipeline: an output replaces the
    /// previous one, an error is handed back and leaves the group as it was.
    pub fn record(&mut self, outcome: Result<Entries>) -> (r: Result<()>)
        ensures
            final(self).name == old(self).name,
            final(self).entries == old(self).entries,
            final(self).pipeline == old(self).pipeline,
            match outcome {
                Ok(g) => r is Ok && final(self).pipeline_output == Some(g),
                Err(e) => r == Err::<(), _>(e) && final(self).pipeline_output == old(
                    self,
                ).pipeline_output,
            },
    {
        match outcome {
            Ok(g) => {
                self.pipeline_output = Some(g);
                Ok(())
            },
            Err(e) => Err(e),
        }
    }
}

/// All the groups of a session.
pub struct Medo {
    pub groups: Vec<Group>,
}

impl Medo {
    /// A session without any group.
    pub fn new() -> (r: Medo)
        ensures
            r.groups@.len() == 0,
    {
        Medo { groups: Vec::new() }
    }
}

} // verus!
