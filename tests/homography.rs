use medo::homography::{correspondences, match_order, CalculateOpts, DMatch, Method};
use medo::Error;

fn m(q: i32, t: i32, d: u32) -> DMatch {
    DMatch { query_idx: q, train_idx: t, distance: d }
}

#[test]
fn matches_sorted_by_distance_keeping_ties() {
    let matches = vec![m(0, 5, 30), m(1, 4, 10), m(2, 3, 30), m(3, 2, 0), m(4, 1, 10)];
    assert_eq!(match_order(&matches), vec![3, 1, 4, 0, 2]);
    assert!(match_order(&vec![]).is_empty());
}

#[test]
fn correspondences_follow_match_order() {
    let matches = vec![m(0, 5, 30), m(1, 4, 10), m(2, 3, 30), m(3, 2, 0)];
    let pairs = correspondences(&matches, 4, 6).unwrap();
    assert_eq!(pairs, vec![(3, 2), (1, 4), (0, 5), (2, 3)]);
}

#[test]
fn correspondences_refuse_missing_keypoints() {
    let matches = vec![m(0, 0, 1), m(-1, 0, 2)];
    assert_eq!(correspondences(&matches, 4, 4), Err(Error::VisionPrimitive));
    let matches = vec![m(0, 0, 1), m(1, 4, 2)];
    assert_eq!(correspondences(&matches, 4, 4), Err(Error::VisionPrimitive));
    let matches = vec![m(4, 0, 1)];
    assert_eq!(correspondences(&matches, 4, 4), Err(Error::VisionPrimitive));
    assert_eq!(correspondences(&vec![], 0, 0), Ok(vec![]));
}

#[test]
fn identical_descriptor_sets_pair_each_keypoint_with_itself() {
    let matches: Vec<DMatch> = (0..5).map(|k| m(k, k, 0)).collect();
    let pairs = correspondences(&matches, 5, 5).unwrap();
    assert_eq!(pairs, vec![(0, 0), (1, 1), (2, 2), (3, 3), (4, 4)]);
}

#[test]
fn calculation_defaults() {
    assert_eq!(CalculateOpts::default().iterations, 100);
    assert_ne!(Method::Orb, Method::Ecc);
}
