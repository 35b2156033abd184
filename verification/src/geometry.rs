//! Axis-aligned rectangles, each given by its centre and its full extents.

use vstd::prelude::*;

verus! {

/// Twice the lower edge of the interval of length `extent` around `centre`.
///
/// The edge itself, `centre - extent / 2`, need not be a whole number; twice
/// the edge always is, and comparing doubled edges compares the edges.
pub open spec fn twice_low_edge(centre: int, extent: int) -> int {
    2 * centre - extent
}

/// Twice the upper edge of the interval of length `extent` around `centre`.
pub open spec fn twice_high_edge(centre: int, extent: int) -> int {
    2 * centre + extent
}

/// Whether rectangle `a` (centre `(ax, ay)`, extents `aw` by `ah`) and
/// rectangle `b` overlap: on each axis every edge of one lies strictly on the
/// inner side of the opposite edge of the other. Rectangles that only touch
/// do not overlap.
pub open spec fn rects_overlap(
    ax: int,
    ay: int,
    aw: int,
    ah: int,
    bx: int,
    by: int,
    bw: int,
    bh: int,
) -> bool {
    &&& twice_low_edge(ax, aw) < twice_high_edge(bx, bw)
    &&& twice_high_edge(ax, aw) > twice_low_edge(bx, bw)
    &&& twice_high_edge(ay, ah) > twice_low_edge(by, bh)
    &&& twice_low_edge(ay, ah) < twice_high_edge(by, bh)
}

/// Decides whether two rectangles overlap. Extents may be zero or negative;
/// nothing is assumed of them.
pub fn overlaps(
    ax: i64,
    ay: i64,
    aw: i64,
    ah: i64,
    bx: i64,
    by: i64,
    bw: i64,
    bh: i64,
) -> (hit: bool)
    ensures
        hit == rects_overlap(
            ax as int,
            ay as int,
            aw as int,
            ah as int,
            bx as int,
            by as int,
            bw as int,
            bh as int,
        ),
{
    let a_left: i128 = 2 * (ax as i128) - (aw as i128);
    let a_right: i128 = 2 * (ax as i128) + (aw as i128);
    let a_top: i128 = 2 * (ay as i128) + (ah as i128);
    let a_bottom: i128 = 2 * (ay as i128) - (ah as i128);
    let b_left: i128 = 2 * (bx as i128) - (bw as i128);
    let b_right: i128 = 2 * (bx as i128) + (bw as i128);
    let b_top: i128 = 2 * (by as i128) + (bh as i128);
    let b_bottom: i128 = 2 * (by as i128) - (bh as i128);
    a_left < b_right && a_right > b_left && a_top > b_bottom && a_bottom < b_top
}

/// Two rectangles with the same centre and positive extents overlap.
pub proof fn concentric_rects_overlap(x: int, y: int, aw: int, ah: int, bw: int, bh: int)
    requires
        aw > 0,
        ah > 0,
        bw > 0,
        bh > 0,
    ensures
        rects_overlap(x, y, aw, ah, x, y, bw, bh),
{
}

/// Two rectangles whose centres lie apart on the x-axis by exactly half the
/// sum of their widths touch at an edge, and do not overlap.
pub proof fn rects_touching_in_x_are_apart(
    ax: int,
    ay: int,
    aw: int,
    ah: int,
    bx: int,
    by: int,
    bw: int,
    bh: int,
)
    requires
        2 * (bx - ax) == aw + bw || 2 * (ax - bx) == aw + bw,
    ensures
        !rects_overlap(ax, ay, aw, ah, bx, by, bw, bh),
{
}

/// The same on the y-axis: centres apart by exactly half the sum of the
/// heights.
pub proof fn rects_touching_in_y_are_apart(
    ax: int,
    ay: int,
    aw: int,
    ah: int,
    bx: int,
    by: int,
    bw: int,
    bh: int,
)
    requires
        2 * (by - ay) == ah + bh || 2 * (ay - by) == ah + bh,
    ensures
        !rects_overlap(ax, ay, aw, ah, bx, by, bw, bh),
{
}

/// Overlap does not depend on the order of the two rectangles.
pub proof fn overlap_is_symmetric(
    ax: int,
    ay: int,
    aw: int,
    ah: int,
    bx: int,
    by: int,
    bw: int,
    bh: int,
)
    ensures
        rects_overlap(ax, ay, aw, ah, bx, by, bw, bh) == rects_overlap(
            bx,
            by,
            bw,
            bh,
            ax,
            ay,
            aw,
            ah,
        ),
{
}

} // verus!
