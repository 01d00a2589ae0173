//! The alignment stage.
//!
//! The reference frame's feature mask is computed once; every peer is then aligned
//! onto it independently, warped, written to the scratch directory, and re-emitted
//! as a path-backed entry named after the entry it came from.
use vstd::prelude::*;
use vstd::string::StringExecFns;

use crate::entry::{Entries, Entry};
use crate::error::Result;
use crate::pipeline::{oks, survivors};

verus! {

/// Alignment stage options.
#[derive(Clone, Debug, Default)]
pub struct Opts {}

/// Where the aligned copy of the entry named `name` is written under `dir`.
pub fn output_path(dir: &str, name: &str) -> (r: String)
    ensures
        r@ == dir@ + "/"@ + name@,
{
    let mut p = String::from_str(dir);
    p.append("/");
    p.append(name);
    p
}

/// The group that the stage hands on, given the outcome of aligning each peer:
/// the reference unchanged, and the peers that were aligned, in order. A peer whose
/// alignment failed is dropped.
pub fn process(reference: Entry, aligned: Vec<Result<Entry>>) -> (r: Entries)
    ensures
        r.reference == reference,
        r.entries@ == oks(aligned@),
{
    Entries { reference, entries: survivors(aligned) }
}

} // verus!
