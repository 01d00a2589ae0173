//! The stacking stage.
//!
//! The reference and the peers, the reference first, are folded into one running
//! average. The first frame that could be read seeds the accumulator; a frame that
//! could not be read, or does not fit it, is skipped. The stage ends with a single
//! entry, the average, and no peers.
use vstd::prelude::*;

use crate::entry::{Entries, Entry, Image};
use crate::error::{Error, Result};
use crate::frame::sample_count;
use crate::stacker::{mean_of, Stacker, MAX_FRAMES};

verus! {

/// Stacking stage options.
#[derive(Clone, Debug, Default)]
pub struct Opts {}

/// Position of the first successful outcome, or the length when there is none.
pub open spec fn first_ok<T>(s: Seq<Result<T>>) -> int
    decreases s.len(),
{
    if s.len() == 0 {
        0
    } else if s[0] is Ok {
        0
    } else {
        1 + first_ok(s.drop_first())
    }
}

/// The rows, columns and channels of an entry's image.
pub open spec fn shape_of(i: Image) -> (usize, usize, usize) {
    (i.spec_image().rows, i.spec_image().cols, i.spec_image().channels)
}

/// The samples of the images among `s` that were read and have the given shape,
/// in order.
pub open spec fn fitting(s: Seq<Result<Image>>, shape: (usize, usize, usize)) -> Seq<Seq<u8>>
    decreases s.len(),
{
    if s.len() == 0 {
        Seq::empty()
    } else {
        let rest = fitting(s.drop_last(), shape);
        match s.last() {
            Ok(i) => if shape_of(i) == shape {
                rest.push(i.spec_image().data@)
            } else {
                rest
            },
            Err(_) => rest,
        }
    }
}

/// The image that seeds the accumulator.
pub open spec fn seed_of(s: Seq<Result<Image>>) -> Image {
    s[first_ok(s)]->Ok_0
}

/// The frames that the stage folds: the seed, then every later image of its shape.
pub open spec fn stacked(s: Seq<Result<Image>>) -> Seq<Seq<u8>> {
    let f = first_ok(s);
    seq![seed_of(s).spec_image().data@] + fitting(s.subrange(f + 1, s.len() as int), shape_of(seed_of(s)))
}

proof fn lemma_first_ok(s: Seq<Result<Image>>, f: int)
    requires
        0 <= f <= s.len(),
        forall|j: int| 0 <= j < f ==> s[j] is Err,
        f < s.len() ==> s[f] is Ok,
    ensures
        first_ok(s) == f,
        0 <= first_ok(s) <= s.len(),
    decreases f,
{
    if f > 0 {
        lemma_first_ok(s.drop_first(), f - 1);
    }
}

proof fn lemma_fitting_len(s: Seq<Result<Image>>, shape: (usize, usize, usize))
    ensures
        fitting(s, shape).len() <= s.len(),
    decreases s.len(),
{
    if s.len() > 0 {
        lemma_fitting_len(s.drop_last(), shape);
    }
}

/// Stack the images read for the reference and the peers, the reference first.
///
/// Fails with `StageExhausted` when no image could be read. Otherwise the output
/// group's reference is the average of the seed and every later image of the
/// seed's shape, named after the seed, and the group has no peers.
pub fn process(frames: Vec<Result<Image>>) -> (r: Result<Entries>)
    requires
        frames@.len() <= MAX_FRAMES,
        forall|k: int| 0 <= k < frames@.len() ==> (#[trigger] frames@[k] matches Ok(i)
            ==> i.spec_image().wf()),
    ensures
        r is Err <==> first_ok(frames@) == frames@.len(),
        r matches Err(e) ==> e is StageExhausted,
        r matches Ok(g) ==> {
            &&& g.entries@.len() == 0
            &&& g.reference matches Entry::Image(i)
            &&& i.spec_name() == seed_of(frames@).spec_name()
            &&& shape_of(i) == shape_of(seed_of(frames@))
            &&& i.spec_image().data@ == mean_of(
                stacked(frames@),
                sample_count(
                    shape_of(i).0 as nat,
                    shape_of(i).1 as nat,
                    shape_of(i).2 as nat,
                ),
            )
        },
{
    let ghost all = frames@;
    let mut frames = frames;
    let mut f: usize = 0;
    while f < frames.len() && frames[f].is_err()
        invariant
            frames@ == all,
            f <= all.len(),
            forall|j: int| 0 <= j < f ==> all[j] is Err,
        decreases all.len() - f,
    {
        f = f + 1;
    }
    proof {
        lemma_first_ok(all, f as int);
    }
    if f == frames.len() {
        return Err(Error::StageExhausted);
    }
    let seed = match frames.remove(f) {
        Ok(i) => i,
        Err(e) => {
            return Err(e);
        },
    };
    let ghost shape = shape_of(seed);
    let ghost seed_data = seed.spec_image().data@;
    let mut stacker = Stacker::new(seed);
    let mut k: usize = f;
    while k < frames.len()
        invariant
            frames@ == all.remove(f as int),
            f < all.len(),
            f <= k <= frames@.len(),
            all.len() <= MAX_FRAMES,
            forall|j: int| 0 <= j < all.len() ==> (#[trigger] all[j] matches Ok(i)
                ==> i.spec_image().wf()),
            stacker.wf(),
            stacker.shape() == shape,
            stacker.spec_name() == seed_of(all).spec_name(),
            shape == shape_of(seed_of(all)),
            seed_data == seed_of(all).spec_image().data@,
            stacker.folded() == seq![seed_data] + fitting(all.subrange(f + 1, k + 1), shape),
        decreases frames@.len() - k,
    {
        let ghost prev = all.subrange(f + 1, k + 1);
        let ghost next = all.subrange(f + 1, k + 2);
        proof {
            assert(next.drop_last() =~= prev);
            assert(next.last() == frames@[k as int]);
            lemma_fitting_len(prev, shape);
        }
        match &frames[k] {
            Ok(img) => {
                let _ = stacker.fold(img.image());
            },
            Err(_) => {},
        }
        proof {
            assert(seq![seed_data] + fitting(prev, shape).push(frames@[k as int]->Ok_0.spec_image().data@)
                =~= (seq![seed_data] + fitting(prev, shape)).push(frames@[k as int]->Ok_0.spec_image().data@));
        }
        k = k + 1;
    }
    proof {
        assert(all.subrange(f + 1, k + 1) =~= all.subrange(f + 1, all.len() as int));
    }
    let out = stacker.leak();
    Ok(Entries { reference: Entry::Image(out), entries: Vec::new() })
}

} // verus!
