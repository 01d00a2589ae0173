//! Stacking by running average.
//!
//! The accumulator keeps, for every sample, the exact sum of the values folded in so
//! far together with the number of frames. Folding a frame is the incremental mean
//! update `acc = alpha * frame + (1 - alpha) * acc` with `alpha = 1 / (k + 2)` for the
//! `k`-th fold, carried out without rounding: the estimate handed out at any time is
//! the mean of every folded frame, rounded to the nearest integer.
use vstd::prelude::*;

use crate::entry::Image;
use crate::error::{Error, Result};
use crate::frame::{sample_count, Frame};

verus! {

/// The largest number of frames that one accumulator folds.
pub const MAX_FRAMES: u64 = 0xffff_ffff;

/// Sum of the samples at index `i` over every frame of `frames`.
pub open spec fn column_sum(frames: Seq<Seq<u8>>, i: int) -> int
    decreases frames.len(),
{
    if frames.len() == 0 {
        0
    } else {
        column_sum(frames.drop_last(), i) + frames.last()[i] as int
    }
}

/// The mean of `n` values that add up to `sum`, rounded to the nearest integer
/// (halves round up).
pub open spec fn rounded_mean(sum: int, n: int) -> int {
    (2 * sum + n) / (2 * n)
}

/// The mean, sample by sample, of frames of `len` samples each.
pub open spec fn mean_of(frames: Seq<Seq<u8>>, len: nat) -> Seq<u8> {
    Seq::new(len, |i: int| rounded_mean(column_sum(frames, i), frames.len() as int) as u8)
}

/// A sum of `n` samples is at most `255 * n`.
pub proof fn lemma_column_sum_bounds(frames: Seq<Seq<u8>>, i: int)
    ensures
        0 <= column_sum(frames, i) <= 255 * frames.len(),
    decreases frames.len(),
{
    if frames.len() > 0 {
        lemma_column_sum_bounds(frames.drop_last(), i);
    }
}

/// Adding a frame adds its sample to the sum.
pub proof fn lemma_column_sum_push(frames: Seq<Seq<u8>>, f: Seq<u8>, i: int)
    ensures
        column_sum(frames.push(f), i) == column_sum(frames, i) + f[i] as int,
{
    assert(frames.push(f).drop_last() =~= frames);
}

/// The rounded mean of samples of at most 255 is itself at most 255.
pub proof fn lemma_rounded_mean_bounds(sum: int, n: int)
    requires
        n > 0,
        0 <= sum <= 255 * n,
    ensures
        0 <= rounded_mean(sum, n) <= 255,
{
    assert(2 * sum + n < 256 * (2 * n)) by (nonlinear_arith)
        requires
            n > 0,
            sum <= 255 * n,
    ;
    assert((2 * sum + n) / (2 * n) < 256) by (nonlinear_arith)
        requires
            n > 0,
            2 * sum + n < 256 * (2 * n),
    ;
    assert(0 <= (2 * sum + n) / (2 * n)) by (nonlinear_arith)
        requires
            n > 0,
            sum >= 0,
    ;
}

/// Removing one frame takes its sample out of the sum.
pub proof fn lemma_column_sum_remove(frames: Seq<Seq<u8>>, j: int, i: int)
    requires
        0 <= j < frames.len(),
    ensures
        column_sum(frames, i) == column_sum(frames.remove(j), i) + frames[j][i] as int,
    decreases frames.len(),
{
    if j == frames.len() - 1 {
        assert(frames.remove(j) =~= frames.drop_last());
    } else {
        lemma_column_sum_remove(frames.drop_last(), j, i);
        assert(frames.remove(j).drop_last() =~= frames.drop_last().remove(j));
        assert(frames.remove(j).last() == frames.last());
    }
}

/// Sums do not depend on the order of the frames: two sequences holding the same
/// frames, each as often, have the same sum at every sample.
pub proof fn lemma_column_sum_permutation(a: Seq<Seq<u8>>, b: Seq<Seq<u8>>, i: int)
    requires
        a.to_multiset() == b.to_multiset(),
    ensures
        column_sum(a, i) == column_sum(b, i),
    decreases a.len(),
{
    broadcast use vstd::seq_lib::to_multiset_len, vstd::seq_lib::to_multiset_build,
        vstd::seq_lib::to_multiset_remove, vstd::seq_lib::to_multiset_contains;

    vstd::seq_lib::to_multiset_len(a);
    vstd::seq_lib::to_multiset_len(b);
    if a.len() == 0 {
        assert(b.len() == 0);
        assert(b =~= a);
    } else {
        let x = a.last();
        let rest = a.drop_last();
        assert(a =~= rest.push(x));
        assert(rest.push(x).to_multiset() == rest.to_multiset().insert(x));
        assert(b.to_multiset().count(x) > 0);
        assert(b.contains(x));
        let j = choose|j: int| 0 <= j < b.len() && b[j] == x;
        let b2 = b.remove(j);
        assert(b2.to_multiset() == b.to_multiset().remove(x));
        assert(b2.to_multiset() =~= rest.to_multiset());
        lemma_column_sum_permutation(rest, b2, i);
        lemma_column_sum_remove(b, j, i);
    }
}

/// Stacking does not depend on the order in which the frames arrive: frames folded
/// in any order give the same estimate.
pub proof fn lemma_stack_order_independent(a: Seq<Seq<u8>>, b: Seq<Seq<u8>>, len: nat)
    requires
        a.to_multiset() == b.to_multiset(),
    ensures
        mean_of(a, len) == mean_of(b, len),
{
    vstd::seq_lib::to_multiset_len(a);
    vstd::seq_lib::to_multiset_len(b);
    assert forall|i: int| 0 <= i < len implies mean_of(a, len)[i] == mean_of(b, len)[i] by {
        lemma_column_sum_permutation(a, b, i);
    }
    assert(a.len() == b.len());
    assert(mean_of(a, len) =~= mean_of(b, len));
}

/// Folding `n` copies of one frame gives back that frame.
pub proof fn lemma_stack_identical(f: Seq<u8>, n: nat)
    requires
        n >= 1,
    ensures
        mean_of(Seq::new(n, |k: int| f), f.len()) == f,
{
    let frames = Seq::new(n, |k: int| f);
    assert forall|i: int| 0 <= i < f.len() implies mean_of(frames, f.len())[i] == f[i] by {
        lemma_column_sum_copies(f, n, i);
        let v = f[i] as int;
        assert(2 * (n * v) + n == v * (2 * n) + n) by (nonlinear_arith);
        vstd::arithmetic::div_mod::lemma_fundamental_div_mod_converse_div(
            2 * (n * v) + n,
            2 * n as int,
            v,
            n as int,
        );
    }
    assert(mean_of(frames, f.len()) =~= f);
}

/// The sum over `n` copies of one frame is `n` times its sample.
pub proof fn lemma_column_sum_copies(f: Seq<u8>, n: nat, i: int)
    ensures
        column_sum(Seq::new(n, |k: int| f), i) == n * f[i],
    decreases n,
{
    let frames = Seq::new(n, |k: int| f);
    if n > 0 {
        lemma_column_sum_copies(f, (n - 1) as nat, i);
        assert(frames.drop_last() =~= Seq::new((n - 1) as nat, |k: int| f));
        assert(frames.last() == f);
        let v = f[i] as int;
        assert(n * v == (n - 1) * v + v) by (nonlinear_arith);
        assert(column_sum(frames, i) == column_sum(frames.drop_last(), i) + v);
    } else {
        let v = f[i] as int;
        assert(n * v == 0) by (nonlinear_arith)
            requires
                n == 0,
        ;
    }
}

/// The samples at index `i` of every frame, in order.
pub open spec fn samples_at(frames: Seq<Seq<u8>>, i: int) -> Seq<int> {
    Seq::new(frames.len(), |k: int| frames[k][i] as int)
}

/// The estimate after folding `vs` one value at a time, the first as a seed and the
/// `k`-th fold with weight `alpha = 1 / (k + 2)` against `1 - alpha` for the
/// estimate so far, as a fraction (numerator, denominator).
pub open spec fn weighted_estimate(vs: Seq<int>) -> (int, int)
    decreases vs.len(),
{
    if vs.len() == 0 {
        (0, 1)
    } else if vs.len() == 1 {
        (vs[0], 1)
    } else {
        let (num, den) = weighted_estimate(vs.drop_last());
        let k = vs.len() - 2;
        // alpha * v + (1 - alpha) * num / den with alpha = 1 / (k + 2)
        (vs.last() * den + (k + 1) * num, (k + 2) * den)
    }
}

/// The weighted incremental update is the running arithmetic mean: after folding
/// the samples of `n` frames, the estimate is their sum divided by `n`.
pub proof fn lemma_incremental_mean(frames: Seq<Seq<u8>>, i: int)
    requires
        frames.len() >= 1,
    ensures
        weighted_estimate(samples_at(frames, i)).1 > 0,
        weighted_estimate(samples_at(frames, i)).0 * frames.len()
            == weighted_estimate(samples_at(frames, i)).1 * column_sum(frames, i),
    decreases frames.len(),
{
    let vs = samples_at(frames, i);
    if frames.len() == 1 {
        assert(frames.drop_last() =~= Seq::<Seq<u8>>::empty());
        assert(column_sum(Seq::<Seq<u8>>::empty(), i) == 0);
        assert(column_sum(frames, i) == frames[0][i] as int);
        let e = weighted_estimate(vs);
        assert(e.0 == column_sum(frames, i));
        assert(e.1 == 1);
        assert(e.0 * frames.len() == e.1 * column_sum(frames, i)) by (nonlinear_arith)
            requires
                e.0 == column_sum(frames, i),
                e.1 == 1,
                frames.len() == 1,
        ;
    } else {
        let rest = frames.drop_last();
        lemma_incremental_mean(rest, i);
        assert(vs.drop_last() =~= samples_at(rest, i));
        let (num, den) = weighted_estimate(samples_at(rest, i));
        let n = frames.len() as int;
        let v = frames.last()[i] as int;
        let s = column_sum(rest, i);
        assert(vs.last() == v);
        assert((v * den + (n - 1) * num) * n == (n * den) * (s + v)) by (nonlinear_arith)
            requires
                num * (n - 1) == den * s,
        ;
        assert(n * den > 0) by (nonlinear_arith)
            requires
                n > 0,
                den > 0,
        ;
        assert(weighted_estimate(vs) == (v * den + (n - 1) * num, n * den));
        assert(column_sum(frames, i) == s + v);
        assert(weighted_estimate(vs).0 * n == weighted_estimate(vs).1 * column_sum(frames, i));
    }
}

/// Running-average stacker.
///
/// Memory use is one sum per sample, whatever the number of frames folded.
pub struct Stacker {
    out: Image,
    rows: usize,
    cols: usize,
    channels: usize,
    sums: Vec<u64>,
    prog: u64,
    frames: Ghost<Seq<Seq<u8>>>,
}

impl Stacker {
    /// The samples of every frame folded so far, the seed first.
    pub closed spec fn folded(&self) -> Seq<Seq<u8>> {
        self.frames@
    }

    /// The shape of the frames that this accumulator takes.
    pub closed spec fn shape(&self) -> (usize, usize, usize) {
        (self.rows, self.cols, self.channels)
    }

    /// Name of the entry that seeded the accumulator.
    pub closed spec fn spec_name(&self) -> Seq<char> {
        self.out.spec_name()
    }

    /// Number of samples in each folded frame.
    pub open spec fn sample_len(&self) -> nat {
        sample_count(self.shape().0 as nat, self.shape().1 as nat, self.shape().2 as nat)
    }

    /// Whether `f` has the shape of the frames folded so far.
    pub open spec fn accepts(&self, f: &Frame) -> bool {
        self.shape() == (f.rows, f.cols, f.channels)
    }

    /// Sums and count agree with the frames folded so far.
    pub closed spec fn wf(&self) -> bool {
        &&& self.sums@.len() == sample_count(
            self.rows as nat,
            self.cols as nat,
            self.channels as nat,
        )
        &&& self.prog as int + 1 == self.frames@.len()
        &&& self.prog <= MAX_FRAMES
        &&& forall|k: int| 0 <= k < self.frames@.len() ==> #[trigger] self.frames@[k].len()
            == self.sums@.len()
        &&& forall|i: int| 0 <= i < self.sums@.len() ==> #[trigger] self.sums@[i] as int
            == column_sum(self.frames@, i)
    }

    /// Seed the accumulator with a first frame; no blending takes place.
    pub fn new(first: Image) -> (r: Stacker)
        requires
            first.spec_image().wf(),
        ensures
            r.wf(),
            r.folded() == seq![first.spec_image().data@],
            r.shape() == (first.spec_image().rows, first.spec_image().cols, first.spec_image().channels),
            r.spec_name() == first.spec_name(),
    {
        let f = first.image();
        let rows = f.rows;
        let cols = f.cols;
        let channels = f.channels;
        let n = f.data.len();
        let mut sums: Vec<u64> = Vec::with_capacity(n);
        let ghost seed = seq![f.data@];
        let mut i: usize = 0;
        while i < n
            invariant
                n == f.data@.len(),
                i <= n,
                sums@.len() == i,
                seed == seq![f.data@],
                forall|j: int| 0 <= j < i ==> #[trigger] sums@[j] as int == column_sum(seed, j),
            decreases n - i,
        {
            proof {
                assert(seed.drop_last() =~= Seq::<Seq<u8>>::empty());
                assert(seed.last() == f.data@);
                assert(column_sum(Seq::<Seq<u8>>::empty(), i as int) == 0);
                assert(column_sum(seed, i as int) == f.data@[i as int] as int);
            }
            sums.push(f.data[i] as u64);
            i = i + 1;
        }
        Stacker { out: first, rows, cols, channels, sums, prog: 0, frames: Ghost(seed) }
    }

    /// Fold one more frame into the accumulator.
    ///
    /// A frame of another shape is refused with `FrameMismatch`, and one beyond
    /// `MAX_FRAMES` folds with `TooManyFrames`; the accumulator is then unchanged.
    pub fn fold(&mut self, frame: &Frame) -> (r: Result<()>)
        requires
            old(self).wf(),
            frame.wf(),
        ensures
            final(self).wf(),
            final(self).shape() == old(self).shape(),
            final(self).spec_name() == old(self).spec_name(),
            match r {
                Ok(()) => old(self).accepts(frame) && old(self).folded().len() <= MAX_FRAMES
                    && final(self).folded() == old(self).folded().push(frame.data@),
                Err(e) => final(self).folded() == old(self).folded() && (if !old(self).accepts(
                    frame,
                ) {
                    e is FrameMismatch
                } else {
                    e is TooManyFrames && old(self).folded().len() > MAX_FRAMES
                }),
            },
    {
        if frame.rows != self.rows || frame.cols != self.cols || frame.channels != self.channels {
            return Err(Error::FrameMismatch);
        }
        if self.prog >= MAX_FRAMES {
            return Err(Error::TooManyFrames);
        }
        let n = self.sums.len();
        let ghost old_sums = self.sums@;
        let ghost frames = self.frames@;
        let ghost next = frames.push(frame.data@);
        let mut i: usize = 0;
        while i < n
            invariant
                self.rows == old(self).rows,
                self.cols == old(self).cols,
                self.channels == old(self).channels,
                self.out == old(self).out,
                self.frames == old(self).frames,
                frames == old(self).frames@,
                n == self.sums@.len(),
                n == frame.data@.len(),
                n == old_sums.len(),
                i <= n,
                self.prog < MAX_FRAMES,
                self.prog as int + 1 == frames.len(),
                next == frames.push(frame.data@),
                forall|j: int| 0 <= j < n ==> #[trigger] old_sums[j] as int == column_sum(frames, j),
                forall|j: int| 0 <= j < i ==> #[trigger] self.sums@[j] as int == column_sum(next, j),
                forall|j: int| i <= j < n ==> #[trigger] self.sums@[j] == old_sums[j],
            decreases n - i,
        {
            proof {
                lemma_column_sum_push(frames, frame.data@, i as int);
                lemma_column_sum_bounds(frames, i as int);
            }
            let s = self.sums[i] + frame.data[i] as u64;
            self.sums.set(i, s);
            i = i + 1;
        }
        self.prog = self.prog + 1;
        self.frames = Ghost(next);
        proof {
            assert forall|k: int| 0 <= k < next.len() implies #[trigger] next[k].len()
                == self.sums@.len() by {
                if k < frames.len() {
                    assert(next[k] == frames[k]);
                }
            }
        }
        Ok(())
    }

    /// The current estimate: the rounded mean of every frame folded so far.
    pub fn image(&self) -> (r: Frame)
        requires
            self.wf(),
        ensures
            r.wf(),
            (r.rows, r.cols, r.channels) == self.shape(),
            r.data@ == mean_of(self.folded(), self.sample_len()),
    {
        let n = self.sums.len();
        let count = self.prog + 1;
        let mut data: Vec<u8> = Vec::with_capacity(n);
        let mut i: usize = 0;
        while i < n
            invariant
                self.wf(),
                n == self.sums@.len(),
                count == self.folded().len(),
                i <= n,
                data@.len() == i,
                forall|j: int| 0 <= j < i ==> #[trigger] data@[j] == mean_of(
                    self.folded(),
                    self.sample_len(),
                )[j],
            decreases n - i,
        {
            proof {
                lemma_column_sum_bounds(self.frames@, i as int);
                lemma_rounded_mean_bounds(self.sums@[i as int] as int, count as int);
            }
            let s = self.sums[i];
            let m = (2 * s + count) / (2 * count);
            data.push(m as u8);
            i = i + 1;
        }
        proof {
            assert(data@ =~= mean_of(self.folded(), self.sample_len()));
        }
        Frame { rows: self.rows, cols: self.cols, channels: self.channels, data }
    }

    /// Number of frames folded so far, the seed included.
    pub fn count(&self) -> (r: u64)
        requires
            self.wf(),
        ensures
            r == self.folded().len(),
    {
        self.prog + 1
    }

    /// Give up the accumulator: the final estimate, named after the seed entry.
    pub fn leak(self) -> (r: Image)
        requires
            self.wf(),
        ensures
            r.spec_name() == self.spec_name(),
            r.spec_image().wf(),
            r.spec_image().data@ == mean_of(self.folded(), self.sample_len()),
            (r.spec_image().rows, r.spec_image().cols, r.spec_image().channels) == self.shape(),
    {
        let img = self.image();
        let mut out = self.out;
        out.replace_image(img);
        out
    }
}

} // verus!
