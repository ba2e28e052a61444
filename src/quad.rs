//! The unit quad that the color texture is drawn onto: four corners and two
//! triangles of six indices.
//!
//! A corner is given by the signs of its position: a quad `width` by `height`
//! centered on the origin puts corner `c` at
//! `(c.x_sign * width / 2, c.y_sign * height / 2)`. The texture's first row
//! (`v == 0`) maps to the top edge (`y_sign == 1`).

use vstd::prelude::*;

verus! {

/// A corner of the quad: the signs of its position and its texture
/// coordinates.
#[derive(Clone, Copy, Debug, PartialEq, Eq, Structural)]
pub struct QuadCorner {
    pub x_sign: i8,
    pub y_sign: i8,
    pub u: u8,
    pub v: u8,
}

pub open spec fn corner(x_sign: int, y_sign: int, u: int, v: int) -> QuadCorner {
    QuadCorner { x_sign: x_sign as i8, y_sign: y_sign as i8, u: u as u8, v: v as u8 }
}

/// Bottom-left, top-left, top-right, bottom-right.
pub open spec fn quad_corners_spec() -> Seq<QuadCorner> {
    seq![corner(-1, -1, 0, 1), corner(-1, 1, 0, 0), corner(1, 1, 1, 0), corner(1, -1, 1, 1)]
}

/// Two triangles that share the diagonal from corner 0 to corner 2.
pub open spec fn quad_indices_spec() -> Seq<u32> {
    seq![0u32, 2, 1, 0, 3, 2]
}

/// Twice the signed area of the triangle `a`, `b`, `c`, in half-extents.
pub open spec fn twice_signed_area(a: QuadCorner, b: QuadCorner, c: QuadCorner) -> int {
    (b.x_sign - a.x_sign) * (c.y_sign - a.y_sign) - (b.y_sign - a.y_sign) * (c.x_sign - a.x_sign)
}

/// The corners and the index list of the quad.
pub fn quad_geometry() -> (r: (Vec<QuadCorner>, Vec<u32>))
    ensures
        r.0@ == quad_corners_spec(),
        r.1@ == quad_indices_spec(),
{
    let corners = vec![
        QuadCorner { x_sign: -1, y_sign: -1, u: 0, v: 1 },
        QuadCorner { x_sign: -1, y_sign: 1, u: 0, v: 0 },
        QuadCorner { x_sign: 1, y_sign: 1, u: 1, v: 0 },
        QuadCorner { x_sign: 1, y_sign: -1, u: 1, v: 1 },
    ];
    let indices = vec![0u32, 2, 1, 0, 3, 2];
    assert(corners@ =~= quad_corners_spec());
    assert(indices@ =~= quad_indices_spec());
    (corners, indices)
}

/// Every index names a corner; each corner's texture coordinates follow its
/// position, so the texture is drawn upright and unmirrored; and the two
/// triangles are wound the same way and together cover the whole quad,
/// whose area is four in half-extents.
pub proof fn lemma_quad_covers()
    ensures
        forall|k: int|
            0 <= k < quad_indices_spec().len() ==> #[trigger] quad_indices_spec()[k] < 4,
        forall|k: int|
            0 <= k < 4 ==> {
                let c = #[trigger] quad_corners_spec()[k];
                &&& 2 * c.u == c.x_sign + 1
                &&& 2 * c.v == 1 - c.y_sign
            },
        ({
            let c = quad_corners_spec();
            let ix = quad_indices_spec();
            &&& twice_signed_area(c[ix[0] as int], c[ix[1] as int], c[ix[2] as int]) == 4
            &&& twice_signed_area(c[ix[3] as int], c[ix[4] as int], c[ix[5] as int]) == 4
        }),
{
    let c = quad_corners_spec();
    let ix = quad_indices_spec();
    assert(ix[0] == 0 && ix[1] == 2 && ix[2] == 1 && ix[3] == 0 && ix[4] == 3 && ix[5] == 2);
    assert(c[0] == corner(-1, -1, 0, 1) && c[1] == corner(-1, 1, 0, 0));
    assert(c[2] == corner(1, 1, 1, 0) && c[3] == corner(1, -1, 1, 1));
    assert(c[0].x_sign == -1 && c[0].y_sign == -1 && c[1].x_sign == -1 && c[1].y_sign == 1);
    assert(c[2].x_sign == 1 && c[2].y_sign == 1 && c[3].x_sign == 1 && c[3].y_sign == -1);
    assert(twice_signed_area(c[0], c[2], c[1]) == 4);
    assert(twice_signed_area(c[0], c[3], c[2]) == 4);
}

} // verus!
