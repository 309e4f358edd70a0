//! The static geometry of the full-surface pass.

use vstd::prelude::*;

verus! {

/// A corner of the pass geometry, in normalized clip coordinates.
#[derive(Clone, Copy, Debug, PartialEq, Eq, Structural)]
pub struct ClipVertex {
    pub x: i32,
    pub y: i32,
}

/// The edge term of the directed line from `p` to `q` at the point
/// `(x / d, y / d)`, multiplied by `d`. For `d > 0` it is not negative where
/// the point lies on the line or to the left of it.
pub open spec fn edge_term(p: ClipVertex, q: ClipVertex, x: int, y: int, d: int) -> int {
    (q.x - p.x) * (y - d * p.y) - (q.y - p.y) * (x - d * p.x)
}

/// Whether `(x, y)` lies on or to the left of the directed line from `p` to `q`.
pub open spec fn left_of(p: ClipVertex, q: ClipVertex, x: int, y: int) -> bool {
    edge_term(p, q, x, y, 1) >= 0
}

/// Whether the point `(x, y)` lies inside or on the edge of the triangle with
/// the corners `a`, `b`, `c`, given in counter-clockwise order.
pub open spec fn in_triangle(a: ClipVertex, b: ClipVertex, c: ClipVertex, x: int, y: int) -> bool {
    &&& left_of(a, b, x, y)
    &&& left_of(b, c, x, y)
    &&& left_of(c, a, x, y)
}

/// Whether the point `(x / d, y / d)`, a fraction with the denominator
/// `d > 0`, lies inside or on the edge of the triangle with the corners `a`,
/// `b`, `c`, given in counter-clockwise order.
pub open spec fn fraction_in_triangle(
    a: ClipVertex,
    b: ClipVertex,
    c: ClipVertex,
    x: int,
    y: int,
    d: int,
) -> bool {
    &&& edge_term(a, b, x, y, d) >= 0
    &&& edge_term(b, c, x, y, d) >= 0
    &&& edge_term(c, a, x, y, d) >= 0
}

/// Whether `(x, y)` lies in the visible clip range, the square from `-1` to `1`.
pub open spec fn in_clip_range(x: int, y: int) -> bool {
    -1 <= x <= 1 && -1 <= y <= 1
}

/// Whether the point `(x / d, y / d)`, a fraction with the denominator
/// `d > 0`, lies in the visible clip range.
pub open spec fn fraction_in_clip_range(x: int, y: int, d: int) -> bool {
    -d <= x <= d && -d <= y <= d
}

/// The three corners of the full-surface triangle.
pub open spec fn full_surface_corners() -> Seq<ClipVertex> {
    seq![
        ClipVertex { x: -1i32, y: -1i32 },
        ClipVertex { x: 3i32, y: -1i32 },
        ClipVertex { x: -1i32, y: 3i32 },
    ]
}

/// The single triangle that the pass draws: two of its corners lie outside
/// the clip range, so that what is visible of it is the whole surface.
pub fn full_surface_triangle() -> (shape: Vec<ClipVertex>)
    ensures
        shape@ == full_surface_corners(),
{
    let mut shape: Vec<ClipVertex> = Vec::new();
    shape.push(ClipVertex { x: -1, y: -1 });
    shape.push(ClipVertex { x: 3, y: -1 });
    shape.push(ClipVertex { x: -1, y: 3 });
    assert(shape@ =~= full_surface_corners());
    shape
}

/// Every point of the clip range with rational coordinates lies in the
/// full-surface triangle: one draw covers the surface, with no seam. The
/// point is `(x / d, y / d)`; each edge term is taken `d` times, which does
/// not change its sign.
pub proof fn lemma_triangle_covers_surface(x: int, y: int, d: int)
    requires
        d > 0,
        fraction_in_clip_range(x, y, d),
    ensures
        fraction_in_triangle(
            full_surface_corners()[0],
            full_surface_corners()[1],
            full_surface_corners()[2],
            x,
            y,
            d,
        ),
{
    let a = full_surface_corners()[0];
    let b = full_surface_corners()[1];
    let c = full_surface_corners()[2];
    assert(a.x == -1 && a.y == -1);
    assert(b.x == 3 && b.y == -1);
    assert(c.x == -1 && c.y == 3);
    assert(d * (-1) == -d && d * 3 == 3 * d);
    assert(edge_term(a, b, x, y, d) == 4 * (y + d));
    assert(edge_term(b, c, x, y, d) == 4 * (2 * d - x - y));
    assert(edge_term(c, a, x, y, d) == 4 * (x + d));
}

/// The same for the points with whole coordinates: the corners of the clip
/// range, the middles of its sides and its centre.
pub proof fn lemma_triangle_covers_lattice(x: int, y: int)
    requires
        in_clip_range(x, y),
    ensures
        in_triangle(
            full_surface_corners()[0],
            full_surface_corners()[1],
            full_surface_corners()[2],
            x,
            y,
        ),
{
    lemma_triangle_covers_surface(x, y, 1);
}

} // verus!
