//! Star detection: which traced blobs are compact and round enough to count as
//! stars, and the discs that mark them in a feature mask.
//!
//! Tracing the contours of a thresholded frame and fitting their minimal enclosing
//! circles are vision primitives done by the caller; this module takes their
//! results as integers. Radii are in thousandths of a pixel, and the deviation
//! from a circle in thousandths of the circle's area.
use vstd::prelude::*;

verus! {

/// Units of a radius per pixel.
pub const RADIUS_SCALE: u64 = 1000;

/// Units of a shape deviation per whole circle area.
pub const DEVIATION_SCALE: u64 = 1000;

/// Numerator of the rational value taken for pi.
pub const PI_NUM: u64 = 355;

/// Denominator of the rational value taken for pi.
pub const PI_DEN: u64 = 113;

/// A pixel position.
#[derive(Clone, Copy, Debug, PartialEq, Eq, Structural)]
pub struct Point {
    pub x: i32,
    pub y: i32,
}

/// Star detection options.
#[derive(Clone, Copy, Debug, PartialEq, Eq, Structural)]
pub struct DetectionOpts {
    /// Maximum area, in square pixels, that a star can fill.
    pub max_area: u32,
    /// Maximum difference of a star's area from that of its enclosing circle, in
    /// thousandths of the circle's area.
    pub max_eccentricity: u32,
}

impl Default for DetectionOpts {
    fn default() -> (r: DetectionOpts)
        ensures
            r.max_area == 2500,
            r.max_eccentricity == 400,
    {
        DetectionOpts { max_area: 2500, max_eccentricity: 400 }
    }
}

/// A circle that describes a star in an image.
#[derive(Clone, Copy, Debug, PartialEq, Eq, Structural)]
pub struct Circle {
    /// Radius, in thousandths of a pixel.
    pub radius: u32,
    /// Center, truncated to whole pixels.
    pub center: Point,
}

/// A closed contour traced in a binary image, with its minimal enclosing circle.
#[derive(Clone, Debug)]
pub struct Traced {
    pub contour: Vec<Point>,
    pub enclosing: Circle,
}

/// Contour detection options: how a frame is binarized before tracing.
#[derive(Clone, Copy, Debug, PartialEq, Eq, Structural)]
pub struct ContourDetectionOpts {
    /// Star detection options.
    pub star_detection: DetectionOpts,
    /// Brightness above which a pixel belongs to a blob.
    pub threshold_brightness: u8,
    /// Value given to the pixels above the threshold.
    pub max_brightness: u8,
    /// Aperture of the median blur applied before thresholding.
    pub blur_amount: i32,
}

impl Default for ContourDetectionOpts {
    fn default() -> (r: ContourDetectionOpts)
        ensures
            r.star_detection.max_area == 2500,
            r.star_detection.max_eccentricity == 400,
            r.threshold_brightness == 144,
            r.max_brightness == 255,
            r.blur_amount == 3,
    {
        ContourDetectionOpts {
            star_detection: DetectionOpts::default(),
            threshold_brightness: 144,
            max_brightness: 255,
            blur_amount: 3,
        }
    }
}

/// The shoelace term of edge `k` of a closed polygon.
pub open spec fn edge_term(c: Seq<Point>, k: int) -> int {
    let p = c[k];
    let q = c[(k + 1) % c.len() as int];
    p.x * q.y - q.x * p.y
}

/// Sum of the shoelace terms of the first `k` edges.
pub open spec fn shoelace(c: Seq<Point>, k: nat) -> int
    decreases k,
{
    if k == 0 {
        0
    } else {
        shoelace(c, (k - 1) as nat) + edge_term(c, k - 1)
    }
}

/// Twice the area enclosed by a closed polygon.
pub open spec fn twice_area(c: Seq<Point>) -> int {
    let s = shoelace(c, c.len());
    if s < 0 {
        -s
    } else {
        s
    }
}

/// A circle's area in units of `1 / (PI_DEN * RADIUS_SCALE^2)` square pixels.
pub open spec fn scaled_circle_area(radius: int) -> int {
    PI_NUM * (radius * radius)
}

/// A polygon's area, given twice its value, in the units of `scaled_circle_area`.
pub open spec fn scaled_contour_area(twice: int) -> int {
    PI_DEN * (RADIUS_SCALE * RADIUS_SCALE / 2) * twice
}

/// Whether a contour of the given doubled area, with an enclosing circle of the
/// given radius, counts as a star: its area is at most `max_area`, and it differs
/// from the circle's area by at most `max_eccentricity` thousandths of the latter.
pub open spec fn is_star(twice: int, radius: int, opts: DetectionOpts) -> bool {
    let circle = scaled_circle_area(radius);
    let diff = scaled_contour_area(twice) - circle;
    let dev = if diff < 0 {
        -diff
    } else {
        diff
    };
    &&& twice <= 2 * opts.max_area
    &&& DEVIATION_SCALE * dev <= opts.max_eccentricity * circle
}

/// The enclosing circles of the traced blobs that count as stars, in order.
pub open spec fn stars_of(traced: Seq<Traced>, opts: DetectionOpts) -> Seq<Circle>
    decreases traced.len(),
{
    if traced.len() == 0 {
        Seq::empty()
    } else {
        let t = traced.last();
        let rest = stars_of(traced.drop_last(), opts);
        if is_star(twice_area(t.contour@), t.enclosing.radius as int, opts) {
            rest.push(t.enclosing)
        } else {
            rest
        }
    }
}

/// Largest magnitude of one shoelace term of points with `i32` coordinates.
pub open spec fn max_term() -> int {
    0x8000_0000_0000_0000
}

proof fn lemma_edge_term_bounds(c: Seq<Point>, k: int)
    requires
        0 <= k < c.len(),
    ensures
        -max_term() <= edge_term(c, k) <= max_term(),
{
    let p = c[k];
    let q = c[(k + 1) % c.len() as int];
    let (a, b, d, e) = (p.x as int, q.y as int, q.x as int, p.y as int);
    assert(-0x4000_0000_0000_0000 <= a * b <= 0x4000_0000_0000_0000) by (nonlinear_arith)
        requires
            -0x8000_0000 <= a <= 0x7fff_ffff,
            -0x8000_0000 <= b <= 0x7fff_ffff,
    ;
    assert(-0x4000_0000_0000_0000 <= d * e <= 0x4000_0000_0000_0000) by (nonlinear_arith)
        requires
            -0x8000_0000 <= d <= 0x7fff_ffff,
            -0x8000_0000 <= e <= 0x7fff_ffff,
    ;
}

/// Twice the area enclosed by a contour (the shoelace formula).
pub fn contour_area(cnt: &Vec<Point>) -> (r: u128)
    ensures
        r == twice_area(cnt@),
{
    let n = cnt.len();
    let mut sum: i128 = 0;
    let mut k: usize = 0;
    while k < n
        invariant
            n == cnt@.len(),
            k <= n,
            sum == shoelace(cnt@, k as nat),
            -(k * max_term()) <= sum <= k * max_term(),
        decreases n - k,
    {
        proof {
            lemma_edge_term_bounds(cnt@, k as int);
            assert(k * max_term() + max_term() == (k + 1) * max_term()) by (nonlinear_arith);
            assert((k + 1) * max_term() <= 0xffff_ffff_ffff_ffff * max_term()) by (nonlinear_arith)
                requires
                    k + 1 <= 0xffff_ffff_ffff_ffff,
            ;
        }
        let p = cnt[k];
        let q = if k + 1 < n {
            cnt[k + 1]
        } else {
            cnt[0]
        };
        proof {
            if k + 1 < n {
                assert((k + 1) % (n as int) == k + 1) by (nonlinear_arith)
                    requires
                        0 <= k + 1 < n,
                ;
            } else {
                assert((k + 1) % (n as int) == 0) by (nonlinear_arith)
                    requires
                        k + 1 == n,
                        n > 0,
                ;
            }
        }
        let (px, py, qx, qy) = (p.x as i128, p.y as i128, q.x as i128, q.y as i128);
        proof {
            assert(-0x4000_0000_0000_0000 <= px * qy <= 0x4000_0000_0000_0000) by (nonlinear_arith)
                requires
                    -0x8000_0000 <= px <= 0x7fff_ffff,
                    -0x8000_0000 <= qy <= 0x7fff_ffff,
            ;
            assert(-0x4000_0000_0000_0000 <= qx * py <= 0x4000_0000_0000_0000) by (nonlinear_arith)
                requires
                    -0x8000_0000 <= qx <= 0x7fff_ffff,
                    -0x8000_0000 <= py <= 0x7fff_ffff,
            ;
        }
        let term = px * qy - qx * py;
        sum = sum + term;
        k = k + 1;
    }
    if sum < 0 {
        (-sum) as u128
    } else {
        sum as u128
    }
}

/// Whether a traced contour resembles a star; `Some` of its enclosing circle when
/// it does.
pub fn map_contour(cnt: &Vec<Point>, enclosing: Circle, opts: DetectionOpts) -> (r: Option<
    Circle,
>)
    ensures
        r is Some <==> is_star(twice_area(cnt@), enclosing.radius as int, opts),
        r matches Some(c) ==> c == enclosing,
{
    let twice = contour_area(cnt);
    // Reject if the contour is too large
    if twice > 2 * (opts.max_area as u128) {
        return None;
    }
    // Reject if the contour area is not similar to that of the enclosing circle
    let radius = enclosing.radius as u128;
    proof {
        assert(radius * radius <= 0xffff_ffff * 0xffff_ffff) by (nonlinear_arith)
            requires
                radius <= 0xffff_ffff,
        ;
        assert(56_500_000 * twice <= 56_500_000 * 0x2_0000_0000) by (nonlinear_arith)
            requires
                twice <= 0x2_0000_0000,
        ;
    }
    let circle = (PI_NUM as u128) * (radius * radius);
    let area = ((PI_DEN * (RADIUS_SCALE * RADIUS_SCALE / 2)) as u128) * twice;
    let dev = if area < circle {
        circle - area
    } else {
        area - circle
    };
    proof {
        assert(circle == scaled_circle_area(radius as int));
        assert(area == scaled_contour_area(twice as int));
        assert(dev <= 355 * 0xffff_ffff * 0xffff_ffff + 56_500_000 * 0x2_0000_0000);
        assert(1000 * dev <= 1000 * (355 * 0xffff_ffff * 0xffff_ffff + 56_500_000 * 0x2_0000_0000));
        assert(opts.max_eccentricity * circle <= 0xffff_ffff * circle) by (nonlinear_arith)
            requires
                opts.max_eccentricity <= 0xffff_ffff,
                circle >= 0,
        ;
    }
    if (DEVIATION_SCALE as u128) * dev > (opts.max_eccentricity as u128) * circle {
        return None;
    }
    Some(enclosing)
}

/// The enclosing circles of the traced blobs that count as stars, in the order
/// traced.
pub fn find_contours(traced: &Vec<Traced>, opts: DetectionOpts) -> (r: Vec<Circle>)
    ensures
        r@ == stars_of(traced@, opts),
{
    let mut out: Vec<Circle> = Vec::new();
    let mut k: usize = 0;
    while k < traced.len()
        invariant
            k <= traced@.len(),
            out@ == stars_of(traced@.take(k as int), opts),
        decreases traced@.len() - k,
    {
        proof {
            assert(traced@.take(k + 1).drop_last() =~= traced@.take(k as int));
            assert(traced@.take(k + 1).last() == traced@[k as int]);
        }
        let t = &traced[k];
        match map_contour(&t.contour, t.enclosing, opts) {
            Some(c) => out.push(c),
            None => {},
        }
        k = k + 1;
    }
    proof {
        assert(traced@.take(traced@.len() as int) =~= traced@);
    }
    out
}

/// The disc that marks a star in a feature mask: its center, and its radius
/// rounded up to whole pixels.
pub fn mask_disc(star: &Circle) -> (r: (Point, u32))
    ensures
        r.0 == star.center,
        r.1 == (star.radius + RADIUS_SCALE - 1) / (RADIUS_SCALE as int),
{
    let radius = ((star.radius as u64 + RADIUS_SCALE - 1) / RADIUS_SCALE) as u32;
    (star.center, radius)
}

} // verus!
