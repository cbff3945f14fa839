//! What loading a scene from a file leaves to compute.

use vstd::prelude::*;
use crate::math::UVec3;

verus! {

/// The triangles that a flat list of corner indices stands for: each three
/// indices in a row are one triangle, and what is left over at the end, one
/// index or two, is no triangle.
pub open spec fn grouped(indices: Seq<u32>) -> Seq<UVec3> {
    Seq::new(
        indices.len() / 3,
        |t: int| UVec3 { x: indices[3 * t], y: indices[3 * t + 1], z: indices[3 * t + 2] },
    )
}

/// Groups a flat list of corner indices into triangles.
pub fn group_triangles(indices: &Vec<u32>) -> (triangles: Vec<UVec3>)
    ensures
        triangles@ == grouped(indices@),
{
    let count = indices.len() / 3;
    let mut triangles: Vec<UVec3> = Vec::new();
    let mut t: usize = 0;
    while t < count
        invariant
            indices@.len() <= usize::MAX,
            count == indices@.len() / 3,
            t <= count,
            triangles@.len() == t,
            forall|i: int| 0 <= i < t ==> #[trigger] triangles@[i] == grouped(indices@)[i],
        decreases count - t,
    {
        assert(3 * t + 2 < indices@.len());
        triangles.push(UVec3 { x: indices[3 * t], y: indices[3 * t + 1], z: indices[3 * t + 2] });
        t = t + 1;
    }
    assert(triangles@ =~= grouped(indices@));
    triangles
}

} // verus!
