//! Relation between projections of an image.
//!
//! A **homography** maps one planar projection of an image onto another. Estimating
//! it (by intensity correlation, or by matching keypoint descriptors and fitting a
//! robust model) is done by vision primitives; this module holds the choices around
//! them: which method, how long the correlation iterates, and how descriptor
//! matches become point correspondences.
use vstd::prelude::*;

use crate::error::{Error, Result};

verus! {

/// The method for calculating the homography matrix of two images.
#[derive(Clone, Copy, Debug, PartialEq, Eq, Hash, Structural)]
pub enum Method {
    /// Matching of ORB keypoint descriptors.
    Orb,
    /// Enhanced correlation coefficient maximization.
    Ecc,
}

/// Homography calculation options.
#[derive(Clone, Copy, Debug, PartialEq, Eq, Structural)]
pub struct CalculateOpts {
    /// Number of iterations of the algorithm.
    pub iterations: usize,
}

impl Default for CalculateOpts {
    fn default() -> (r: CalculateOpts)
        ensures
            r.iterations == 100,
    {
        CalculateOpts { iterations: 100 }
    }
}

/// A match between a descriptor of the reference (query) and one of the frame
/// being aligned (train), with its Hamming distance.
#[derive(Clone, Copy, Debug, PartialEq, Eq, Structural)]
pub struct DMatch {
    pub query_idx: i32,
    pub train_idx: i32,
    pub distance: u32,
}

/// Match `a` comes before match `b`: a smaller distance, or an equal distance and
/// an earlier position.
pub open spec fn match_before(matches: Seq<DMatch>, a: int, b: int) -> bool {
    matches[a].distance < matches[b].distance || (matches[a].distance == matches[b].distance
        && a < b)
}

/// `order` lists the positions of `matches` by ascending distance, keeping the
/// order of equal distances: each position once.
pub open spec fn is_match_order(matches: Seq<DMatch>, order: Seq<usize>) -> bool {
    &&& order.len() == matches.len()
    &&& forall|k: int| 0 <= k < order.len() ==> #[trigger] order[k] < matches.len()
    &&& forall|j: int, k: int|
        0 <= j < k < order.len() ==> match_before(matches, order[j] as int, order[k] as int)
}

/// Both indices of the match name a keypoint.
pub open spec fn match_in_range(m: DMatch, n_query: nat, n_train: nat) -> bool {
    0 <= m.query_idx < n_query && 0 <= m.train_idx < n_train
}

/// The keypoint indices that a match pairs.
pub open spec fn pair_of(m: DMatch) -> (usize, usize) {
    (m.query_idx as usize, m.train_idx as usize)
}

/// The positions of `matches` sorted by ascending distance; equal distances keep
/// their order.
pub fn match_order(matches: &Vec<DMatch>) -> (order: Vec<usize>)
    ensures
        is_match_order(matches@, order@),
{
    let n = matches.len();
    let mut order: Vec<usize> = Vec::with_capacity(n);
    let mut i: usize = 0;
    while i < n
        invariant
            n == matches@.len(),
            i <= n,
            order@.len() == i,
            forall|k: int| 0 <= k < order@.len() ==> #[trigger] order@[k] < i,
            forall|j: int, k: int|
                0 <= j < k < order@.len() ==> match_before(
                    matches@,
                    order@[j] as int,
                    order@[k] as int,
                ),
        decreases n - i,
    {
        let d = matches[i].distance;
        // Insert after every match whose distance is not larger
        let mut p: usize = 0;
        while p < order.len() && matches[order[p]].distance <= d
            invariant
                n == matches@.len(),
                i < n,
                p <= order@.len(),
                forall|k: int| 0 <= k < order@.len() ==> #[trigger] order@[k] < i,
                forall|j: int, k: int|
                    0 <= j < k < order@.len() ==> match_before(
                        matches@,
                        order@[j] as int,
                        order@[k] as int,
                    ),
                forall|k: int| 0 <= k < p ==> matches@[#[trigger] order@[k] as int].distance <= d,
            decreases order@.len() - p,
        {
            p = p + 1;
        }
        let ghost before = order@;
        proof {
            assert forall|k: int| p <= k < before.len() implies matches@[#[trigger] before[k] as int].distance
                > d by {
                if k > p {
                    assert(match_before(matches@, before[p as int] as int, before[k] as int));
                }
            }
        }
        order.insert(p, i);
        proof {
            assert forall|j: int, k: int| 0 <= j < k < order@.len() implies match_before(
                matches@,
                order@[j] as int,
                order@[k] as int,
            ) by {
                if k < p {
                    assert(order@[j] == before[j] && order@[k] == before[k]);
                } else if k == p {
                    assert(order@[j] == before[j]);
                } else if j < p {
                    assert(order@[j] == before[j] && order@[k] == before[k - 1]);
                } else if j == p {
                    assert(order@[k] == before[k - 1]);
                } else {
                    assert(order@[j] == before[j - 1] && order@[k] == before[k - 1]);
                }
            }
        }
        i = i + 1;
    }
    order
}

/// The point correspondences of a set of descriptor matches: for each match, by
/// ascending distance, the reference keypoint and the frame keypoint that it
/// pairs. Fails with `VisionPrimitive` when a match names a keypoint that does not
/// exist.
pub fn correspondences(matches: &Vec<DMatch>, n_query: usize, n_train: usize) -> (r: Result<
    Vec<(usize, usize)>,
>)
    ensures
        r is Ok <==> forall|k: int|
            0 <= k < matches@.len() ==> match_in_range(#[trigger] matches@[k], n_query as nat, n_train as nat),
        r matches Err(e) ==> e is VisionPrimitive,
        r matches Ok(pairs) ==> exists|order: Seq<usize>|
            is_match_order(matches@, order) && pairs@ == order.map_values(
                |j: usize| pair_of(matches@[j as int]),
            ),
{
    let mut t: usize = 0;
    while t < matches.len()
        invariant
            t <= matches@.len(),
            forall|u: int|
                0 <= u < t ==> match_in_range(#[trigger] matches@[u], n_query as nat, n_train as nat),
        decreases matches@.len() - t,
    {
        let m = matches[t];
        if m.query_idx < 0 || m.query_idx as usize >= n_query || m.train_idx < 0
            || m.train_idx as usize >= n_train {
            return Err(Error::VisionPrimitive);
        }
        t = t + 1;
    }
    let order = match_order(matches);
    let n = order.len();
    let mut pairs: Vec<(usize, usize)> = Vec::with_capacity(n);
    let mut k: usize = 0;
    while k < n
        invariant
            n == order@.len(),
            is_match_order(matches@, order@),
            k <= n,
            pairs@ == order@.take(k as int).map_values(|j: usize| pair_of(matches@[j as int])),
        decreases n - k,
    {
        let m = matches[order[k]];
        pairs.push((m.query_idx as usize, m.train_idx as usize));
        proof {
            assert(order@.take(k + 1) =~= order@.take(k as int).push(order@[k as int]));
        }
        k = k + 1;
    }
    proof {
        assert(order@.take(n as int) =~= order@);
    }
    Ok(pairs)
}

} // verus!
