use medo::star::{
    contour_area, find_contours, map_contour, mask_disc, Circle, ContourDetectionOpts,
    DetectionOpts, Point, Traced,
};

fn circle_contour(cx: i32, cy: i32, r: f64, n: usize) -> Vec<Point> {
    (0..n)
        .map(|k| {
            let t = 2.0 * std::f64::consts::PI * (k as f64) / (n as f64);
            Point { x: cx + (r * t.cos()).round() as i32, y: cy + (r * t.sin()).round() as i32 }
        })
        .collect()
}

fn square_contour(x: i32, y: i32, side: i32) -> Vec<Point> {
    vec![
        Point { x, y },
        Point { x: x + side, y },
        Point { x: x + side, y: y + side },
        Point { x, y: y + side },
    ]
}

#[test]
fn shoelace_area() {
    assert_eq!(contour_area(&square_contour(3, 4, 35)), 2 * 1225);
    let tri = vec![Point { x: 0, y: 0 }, Point { x: 4, y: 0 }, Point { x: 0, y: 3 }];
    assert_eq!(contour_area(&tri), 12);
    // Orientation does not matter
    let rev: Vec<Point> = tri.iter().rev().cloned().collect();
    assert_eq!(contour_area(&rev), 12);
    assert_eq!(contour_area(&vec![]), 0);
}

#[test]
fn circular_blob_is_a_star() {
    let cnt = circle_contour(100, 100, 20.0, 64);
    let enclosing = Circle { radius: 20_000, center: Point { x: 100, y: 100 } };
    let opts = DetectionOpts::default();
    assert_eq!(map_contour(&cnt, enclosing, opts), Some(enclosing));
}

#[test]
fn square_blob_of_same_area_is_rejected() {
    // A square of side 35 and a circle of about the same area (1225 px^2)
    let square = square_contour(0, 0, 35);
    let square_circle = Circle { radius: 24_749, center: Point { x: 17, y: 17 } };
    let round = circle_contour(50, 50, 19.75, 128);
    let round_circle = Circle { radius: 19_750, center: Point { x: 50, y: 50 } };
    let strict = DetectionOpts { max_area: 2500, max_eccentricity: 300 };
    assert_eq!(map_contour(&round, round_circle, strict), Some(round_circle));
    assert_eq!(map_contour(&square, square_circle, strict), None);
    // The square deviates by about 36 % of its circle: accepted at 40 %
    assert_eq!(map_contour(&square, square_circle, DetectionOpts::default()), Some(square_circle));
}

#[test]
fn large_blob_is_rejected() {
    let cnt = circle_contour(0, 0, 40.0, 128);
    let enclosing = Circle { radius: 40_000, center: Point { x: 0, y: 0 } };
    assert_eq!(map_contour(&cnt, enclosing, DetectionOpts::default()), None);
    let wide = DetectionOpts { max_area: 6000, max_eccentricity: 400 };
    assert_eq!(map_contour(&cnt, enclosing, wide), Some(enclosing));
}

#[test]
fn stars_are_kept_in_order() {
    let a = Circle { radius: 10_000, center: Point { x: 10, y: 10 } };
    let b = Circle { radius: 40_000, center: Point { x: 90, y: 90 } };
    let c = Circle { radius: 5_000, center: Point { x: 200, y: 30 } };
    let traced = vec![
        Traced { contour: circle_contour(10, 10, 10.0, 64), enclosing: a },
        Traced { contour: circle_contour(90, 90, 40.0, 128), enclosing: b },
        Traced { contour: circle_contour(200, 30, 5.0, 32), enclosing: c },
    ];
    let stars = find_contours(&traced, DetectionOpts::default());
    assert_eq!(stars, vec![a, c]);
    assert!(find_contours(&vec![], DetectionOpts::default()).is_empty());
}

#[test]
fn disc_radius_rounds_up() {
    let c = Circle { radius: 2_001, center: Point { x: 4, y: -1 } };
    assert_eq!(mask_disc(&c), (Point { x: 4, y: -1 }, 3));
    let d = Circle { radius: 2_000, center: Point { x: 0, y: 0 } };
    assert_eq!(mask_disc(&d).1, 2);
    assert_eq!(mask_disc(&Circle { radius: 0, center: Point { x: 0, y: 0 } }).1, 0);
}

#[test]
fn detection_defaults() {
    let o = ContourDetectionOpts::default();
    assert_eq!(o.star_detection, DetectionOpts { max_area: 2500, max_eccentricity: 400 });
    assert_eq!((o.threshold_brightness, o.max_brightness, o.blur_amount), (144, 255, 3));
}
