//! The static full-screen quad: four vertices at the corners of the
//! clip-space square and a six-entry index list forming two triangles
//! that share one diagonal.

use vstd::prelude::*;

verus! {

/// The clear colour and the quad's vertex colour: opaque black, with
/// byte channels (255 is full alpha).
pub const BLACK: [u8; 4] = [0, 0, 0, 255];

/// One corner of the full-screen quad: a position in normalized device
/// coordinates — the corners lie at ±1 — and an RGBA colour with byte
/// channels.
#[derive(Clone, Copy, Debug)]
pub struct Vertex {
    pub pos: [i8; 2],
    pub colour: [u8; 4],
}

/// The quad's corner positions, by vertex index: bottom-right,
/// bottom-left, top-left, top-right.
pub open spec fn quad_corner(i: int) -> (int, int)
    recommends
        0 <= i < 4,
{
    if i == 0 {
        (1, -1)
    } else if i == 1 {
        (-1, -1)
    } else if i == 2 {
        (-1, 1)
    } else {
        (1, 1)
    }
}

/// The quad's index list: the triangles `(0, 1, 2)` and `(2, 3, 0)`.
pub open spec fn quad_index_spec() -> Seq<u16> {
    seq![0u16, 1u16, 2u16, 2u16, 3u16, 0u16]
}

/// The four vertices of the full-screen quad, every one coloured opaque
/// black, positioned at the corners of the clip-space square.
pub fn quad_vertices() -> (v: Vec<Vertex>)
    ensures
        v@.len() == 4,
        forall|i: int|
            0 <= i < 4 ==> ((#[trigger] v@[i]).pos@[0] == quad_corner(i).0
                && v@[i].pos@[1] == quad_corner(i).1 && v@[i].colour@ == BLACK@),
{
    let mut v: Vec<Vertex> = Vec::new();
    v.push(Vertex { pos: [1, -1], colour: BLACK });
    v.push(Vertex { pos: [-1, -1], colour: BLACK });
    v.push(Vertex { pos: [-1, 1], colour: BLACK });
    v.push(Vertex { pos: [1, 1], colour: BLACK });
    v
}

/// The index list of the quad, as a triangle list: exactly
/// `[0, 1, 2, 2, 3, 0]`.
pub fn quad_indices() -> (ix: Vec<u16>)
    ensures
        ix@ == quad_index_spec(),
{
    let mut ix: Vec<u16> = Vec::new();
    ix.push(0);
    ix.push(1);
    ix.push(2);
    ix.push(2);
    ix.push(3);
    ix.push(0);
    proof {
        assert(ix@ =~= quad_index_spec());
    }
    ix
}

/// Twice the signed area of the triangle over the points `a`, `b`, `c`;
/// its sign gives the winding direction.
pub open spec fn doubled_signed_area(a: (int, int), b: (int, int), c: (int, int)) -> int {
    (b.0 - a.0) * (c.1 - a.1) - (b.1 - a.1) * (c.0 - a.0)
}

/// The point `p` lies in the clockwise triangle `(a, b, c)`, edges
/// included: the triangle over each edge and `p` keeps the clockwise
/// orientation, so no edge has `p` on its outer side.
pub open spec fn in_triangle(a: (int, int), b: (int, int), c: (int, int), p: (int, int)) -> bool {
    doubled_signed_area(a, b, p) <= 0 && doubled_signed_area(b, c, p) <= 0
        && doubled_signed_area(c, a, p) <= 0
}

/// The quad corner `i`, scaled by the factor `d`.
pub open spec fn scaled_corner(i: int, d: int) -> (int, int)
    recommends
        0 <= i < 4,
{
    (quad_corner(i).0 * d, quad_corner(i).1 * d)
}

/// Law: the two triangles cover the whole clip-space square.  Any point
/// of `[-1, 1] × [-1, 1]` — written `(px/d, py/d)` with a positive
/// denominator `d` and integer numerators no larger than `d` in
/// magnitude — lies in the first triangle `(0, 1, 2)` or in the second
/// triangle `(2, 3, 0)`, both scaled by `d`.
pub proof fn lemma_quad_covers_square(d: int, px: int, py: int)
    requires
        d > 0,
        -d <= px <= d,
        -d <= py <= d,
    ensures
        in_triangle(scaled_corner(0, d), scaled_corner(1, d), scaled_corner(2, d), (px, py))
            || in_triangle(scaled_corner(2, d), scaled_corner(3, d), scaled_corner(0, d), (px, py)),
{
    assert(scaled_corner(0, d) == (d, -d)) by (nonlinear_arith);
    assert(scaled_corner(1, d) == (-d, -d)) by (nonlinear_arith);
    assert(scaled_corner(2, d) == (-d, d)) by (nonlinear_arith);
    assert(scaled_corner(3, d) == (d, d)) by (nonlinear_arith);
    if px + py <= 0 {
        assert(in_triangle((d, -d), (-d, -d), (-d, d), (px, py))) by (nonlinear_arith)
            requires
                d > 0,
                -d <= px <= d,
                -d <= py <= d,
                px + py <= 0,
        ;
    } else {
        assert(in_triangle((-d, d), (d, d), (d, -d), (px, py))) by (nonlinear_arith)
            requires
                d > 0,
                -d <= px <= d,
                -d <= py <= d,
                px + py >= 0,
        ;
    }
}

/// The point `(px, py)` is one of the quad's four corners.
pub open spec fn is_quad_corner(px: int, py: int) -> bool {
    exists|i: int| 0 <= i < 4 && #[trigger] quad_corner(i) == (px, py)
}

/// Law: the static quad geometry describes exactly two triangles,
/// `(0, 1, 2)` and `(2, 3, 0)`, sharing the diagonal between corners 0
/// and 2; the four corners are pairwise distinct and are exactly the
/// corners of the clip-space square `[-1, 1] × [-1, 1]`; and both
/// triangles wind the same way (negative doubled signed area).
pub proof fn lemma_quad_topology()
    ensures
        quad_index_spec().len() == 6,
        quad_index_spec() == seq![0u16, 1u16, 2u16] + seq![2u16, 3u16, 0u16],
        quad_index_spec()[3] == quad_index_spec()[2],
        quad_index_spec()[5] == quad_index_spec()[0],
        forall|i: int, j: int|
            0 <= i < 4 && 0 <= j < 4 && i != j ==> quad_corner(i) != quad_corner(j),
        forall|i: int|
            0 <= i < 4 ==> ((#[trigger] quad_corner(i).0 == 1 || quad_corner(i).0 == -1)
                && (quad_corner(i).1 == 1 || quad_corner(i).1 == -1)),
        forall|px: int, py: int|
            (px == 1 || px == -1) && (py == 1 || py == -1)
                ==> #[trigger] is_quad_corner(px, py),
        doubled_signed_area(quad_corner(0), quad_corner(1), quad_corner(2)) == -4,
        doubled_signed_area(quad_corner(2), quad_corner(3), quad_corner(0)) == -4,
{
    assert(quad_index_spec() =~= seq![0u16, 1u16, 2u16] + seq![2u16, 3u16, 0u16]);
    assert(doubled_signed_area((1, -1), (-1, -1), (-1, 1)) == -4) by (nonlinear_arith);
    assert(doubled_signed_area((-1, 1), (1, 1), (1, -1)) == -4) by (nonlinear_arith);
    assert forall|px: int, py: int|
        (px == 1 || px == -1) && (py == 1 || py == -1) implies
        #[trigger] is_quad_corner(px, py) by {
        if px == 1 && py == -1 {
            assert(quad_corner(0) == (px, py));
        } else if px == -1 && py == -1 {
            assert(quad_corner(1) == (px, py));
        } else if px == -1 && py == 1 {
            assert(quad_corner(2) == (px, py));
        } else {
            assert(quad_corner(3) == (px, py));
        }
    }
}

} // verus!
