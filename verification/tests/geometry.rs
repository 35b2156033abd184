use dodge_cars::geometry::overlaps;

#[test]
fn same_centre_overlaps() {
    assert!(overlaps(0, 0, 80, 175, 0, 0, 80, 175));
    assert!(overlaps(-7, 12, 1, 1, -7, 12, 40, 88));
    assert!(overlaps(5, 5, 3, 9, 5, 5, 1, 1));
}

#[test]
fn touching_in_x_is_no_overlap() {
    // centres 80 apart, each 80 wide: the right edge of one is the left edge of the other
    assert!(!overlaps(0, 0, 80, 175, 80, 0, 80, 175));
    assert!(!overlaps(80, 0, 80, 175, 0, 0, 80, 175));
    // one unit closer and they overlap
    assert!(overlaps(0, 0, 80, 175, 79, 0, 80, 175));
    // different widths: half of 40 plus half of 80 is 60
    assert!(!overlaps(0, 0, 40, 88, 60, 0, 80, 175));
    assert!(overlaps(0, 0, 40, 88, 59, 0, 80, 175));
}

#[test]
fn touching_in_y_is_no_overlap() {
    assert!(!overlaps(0, 0, 80, 175, 0, 175, 80, 175));
    assert!(!overlaps(0, 175, 80, 175, 0, 0, 80, 175));
    assert!(overlaps(0, 0, 80, 175, 0, 174, 80, 175));
}

#[test]
fn edges_at_half_units_are_exact() {
    // extents of 3: edges at -1.5 and 1.5 around 0, at 1.5 and 4.5 around 3
    assert!(!overlaps(0, 0, 3, 3, 3, 0, 3, 3));
    assert!(overlaps(0, 0, 3, 3, 2, 0, 3, 3));
    // extents 3 and 4: the edges 1.5 and 1.5 meet when the centres are 3.5 apart,
    // which whole centres never are
    assert!(overlaps(0, 0, 3, 3, 3, 0, 4, 3));
    assert!(!overlaps(0, 0, 3, 3, 4, 0, 4, 3));
}

#[test]
fn overlap_needs_both_axes() {
    assert!(!overlaps(0, 0, 10, 10, 5, 100, 10, 10));
    assert!(!overlaps(0, 0, 10, 10, 100, 5, 10, 10));
    assert!(overlaps(0, 0, 10, 10, 5, 5, 10, 10));
    assert!(!overlaps(0, 0, 10, 10, 10, 10, 10, 10));
}

#[test]
fn overlap_is_the_same_both_ways() {
    let rects: [(i64, i64, i64, i64); 6] = [
        (0, 0, 80, 175),
        (79, 0, 80, 175),
        (80, 0, 80, 175),
        (0, -300, 40, 88),
        (-30, 120, 0, 10),
        (5, 5, -4, 6),
    ];
    for a in rects.iter() {
        for b in rects.iter() {
            assert_eq!(
                overlaps(a.0, a.1, a.2, a.3, b.0, b.1, b.2, b.3),
                overlaps(b.0, b.1, b.2, b.3, a.0, a.1, a.2, a.3)
            );
        }
    }
}

#[test]
fn extents_need_not_be_positive() {
    // a point inside a rectangle
    assert!(overlaps(0, 0, 0, 0, 0, 0, 10, 10));
    // a point on its edge
    assert!(!overlaps(5, 0, 0, 0, 0, 0, 10, 10));
    // two points at one place have no inside to share
    assert!(!overlaps(0, 0, 0, 0, 0, 0, 0, 0));
    // a negative extent turns the edges round: left at 2, right at -2
    assert!(!overlaps(0, 0, -4, 4, 0, 0, -4, 4));
    assert!(overlaps(0, 0, -4, 4, 0, 0, 10, 10));
}

#[test]
fn the_largest_numbers_do_not_wrap() {
    assert!(overlaps(i64::MAX, i64::MAX, i64::MAX, i64::MAX, i64::MAX, i64::MAX, 1, 1));
    assert!(!overlaps(i64::MIN, 0, 10, 10, i64::MAX, 0, 10, 10));
    // the right edge of the first is at -2^62 - 0.5, where the left edge of one around -1 is
    assert!(overlaps(i64::MIN, 0, i64::MAX, 10, -2, 0, i64::MAX, 10));
    assert!(!overlaps(i64::MIN, 0, i64::MAX, 10, -1, 0, i64::MAX, 10));
}
