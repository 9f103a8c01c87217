use cube_jump::geom::{overlaps, Aabb, Vec2I};

fn boxed(cx: i64, cy: i64, hx: i64, hy: i64) -> Aabb {
    Aabb::new(Vec2I::new(cx, cy), Vec2I::new(hx, hy))
}

#[test]
fn overlapping_boxes_overlap() {
    let a = boxed(0, 0, 10, 10);
    let b = boxed(5, 5, 10, 10);
    assert!(overlaps(&a, &b));
}

#[test]
fn contained_box_overlaps() {
    let outer = boxed(0, 0, 100, 100);
    let inner = boxed(20, -30, 5, 5);
    assert!(overlaps(&outer, &inner));
    assert!(overlaps(&inner, &outer));
}

#[test]
fn boundary_touch_counts_as_overlap() {
    // Right edge of `a` at x = 10 exactly meets the left edge of `b`.
    let a = boxed(0, 0, 10, 10);
    let b = boxed(20, 0, 10, 10);
    assert!(overlaps(&a, &b));
    // Corner touch: both axes meet exactly at the endpoints.
    let c = boxed(20, 20, 10, 10);
    assert!(overlaps(&a, &c));
}

#[test]
fn symmetry_on_sample_boxes() {
    let pairs = [
        (boxed(0, 0, 10, 10), boxed(5, 5, 10, 10)),
        (boxed(0, 0, 10, 10), boxed(50, 0, 10, 10)),
        (boxed(-3, 7, 1, 2), boxed(4, -9, 8, 8)),
        (boxed(0, 0, 0, 0), boxed(0, 0, 0, 0)),
    ];
    for (a, b) in pairs {
        assert_eq!(overlaps(&a, &b), overlaps(&b, &a));
    }
}

#[test]
fn separation_on_one_axis_means_no_overlap() {
    // Disjoint on x, overlapping on y.
    let a = boxed(0, 0, 10, 10);
    let b = boxed(21, 0, 10, 10);
    assert!(!overlaps(&a, &b));
    // Disjoint on y, overlapping on x.
    let c = boxed(0, 21, 10, 10);
    assert!(!overlaps(&a, &c));
    // Disjoint on both axes.
    let d = boxed(100, 100, 10, 10);
    assert!(!overlaps(&a, &d));
}

#[test]
fn zero_extent_box_on_edge_overlaps() {
    let a = boxed(0, 0, 10, 10);
    let point = boxed(10, 0, 0, 0);
    assert!(overlaps(&a, &point));
    let outside = boxed(11, 0, 0, 0);
    assert!(!overlaps(&a, &outside));
}
