//! The sharpening stage.
//!
//! Every entry, the reference included, is sharpened on its own; an entry whose
//! sharpening failed is dropped.
use vstd::prelude::*;

use crate::entry::{Entries, Entry};
use crate::error::{Error, Result};
use crate::pipeline::{oks, survivors};

verus! {

/// Sharpening stage options.
#[derive(Clone, Debug, Default)]
pub struct Opts {}

/// The group that the stage hands on, given the outcome of sharpening the
/// reference and each peer.
///
/// The sharpened entries survive in order. When the reference failed, the first
/// surviving peer takes its place; when nothing survived the stage is exhausted.
pub fn process(reference: Result<Entry>, sharpened: Vec<Result<Entry>>) -> (r: Result<Entries>)
    ensures
        r is Err <==> (reference is Err && oks(sharpened@).len() == 0),
        r matches Err(e) ==> e is StageExhausted,
        r matches Ok(g) ==> match reference {
            Ok(e) => g.reference == e && g.entries@ == oks(sharpened@),
            Err(_) => g.reference == oks(sharpened@)[0] && g.entries@ == oks(
                sharpened@,
            ).drop_first(),
        },
{
    let mut peers = survivors(sharpened);
    match reference {
        Ok(e) => Ok(Entries { reference: e, entries: peers }),
        Err(_) => {
            if peers.len() == 0 {
                Err(Error::StageExhausted)
            } else {
                let ghost all = peers@;
                let first = peers.remove(0);
                proof {
                    assert(all.remove(0) =~= all.drop_first());
                }
                Ok(Entries { reference: first, entries: peers })
            }
        },
    }
}

} // verus!
