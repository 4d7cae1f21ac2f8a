//! The wireframe of the 3D view cube: its edges, and which of them carry axis labels.
//!
//! Vertex `v` (0..8) is the corner whose x, y and z coordinates take the high
//! value where bits 2, 1 and 0 of `v` are set.
use vstd::prelude::*;

verus! {

/// Number of edges of the cube.
pub const EDGE_COUNT: usize = 12;

/// A coordinate axis.
#[derive(Clone, Copy, Debug, PartialEq, Eq, Structural)]
pub enum Axis {
    X,
    Y,
    Z,
}

/// The endpoints of edge `k`.
pub open spec fn spec_cube_edge(k: int) -> (usize, usize) {
    if k == 0 {
        (0, 1)
    } else if k == 1 {
        (1, 3)
    } else if k == 2 {
        (3, 2)
    } else if k == 3 {
        (2, 0)
    } else if k == 4 {
        (4, 5)
    } else if k == 5 {
        (5, 7)
    } else if k == 6 {
        (7, 6)
    } else if k == 7 {
        (6, 4)
    } else if k == 8 {
        (0, 4)
    } else if k == 9 {
        (1, 5)
    } else if k == 10 {
        (2, 6)
    } else {
        (3, 7)
    }
}

/// The axis that edge `k` runs along, which is the axis it is labelled with.
pub open spec fn spec_edge_axis(k: int) -> Axis {
    if k >= 8 {
        Axis::X
    } else if k % 2 == 1 {
        Axis::Y
    } else {
        Axis::Z
    }
}

/// Whether vertex `v` is an endpoint of edge `k`.
pub open spec fn edge_has(k: int, v: usize) -> bool {
    spec_cube_edge(k).0 == v || spec_cube_edge(k).1 == v
}

/// Whether some edge has both `v` and `w` among its endpoints.
pub open spec fn spec_share_edge(v: usize, w: usize) -> bool {
    exists|k: int| 0 <= k < 12 && #[trigger] edge_has(k, v) && edge_has(k, w)
}

/// Whether edge `k` is drawn heavy and labelled: an x or y edge through the
/// vertex `xl`, or a z edge through the vertex `zl`.
pub open spec fn spec_edge_labelled(k: int, xl: usize, zl: usize) -> bool {
    if spec_edge_axis(k) == Axis::Z {
        edge_has(k, zl)
    } else {
        edge_has(k, xl)
    }
}

/// The endpoints of edge `k`.
pub fn cube_edge(k: usize) -> (r: (usize, usize))
    requires
        k < EDGE_COUNT,
    ensures
        r == spec_cube_edge(k as int),
{
    match k {
        0 => (0, 1),
        1 => (1, 3),
        2 => (3, 2),
        3 => (2, 0),
        4 => (4, 5),
        5 => (5, 7),
        6 => (7, 6),
        7 => (6, 4),
        8 => (0, 4),
        9 => (1, 5),
        10 => (2, 6),
        _ => (3, 7),
    }
}

/// The axis that edge `k` runs along.
pub fn edge_axis(k: usize) -> (r: Axis)
    requires
        k < EDGE_COUNT,
    ensures
        r == spec_edge_axis(k as int),
{
    if k >= 8 {
        Axis::X
    } else if k % 2 == 1 {
        Axis::Y
    } else {
        Axis::Z
    }
}

/// Whether some edge of the cube has both `v` and `w` among its endpoints
/// (for `v == w`: whether `v` is a vertex).
pub fn share_edge(v: usize, w: usize) -> (r: bool)
    ensures
        r == spec_share_edge(v, w),
{
    let mut k: usize = 0;
    while k < EDGE_COUNT
        invariant
            k <= 12,
            forall|j: int| 0 <= j < k ==> !(#[trigger] edge_has(j, v) && edge_has(j, w)),
        decreases 12 - k,
    {
        let (a, b) = cube_edge(k);
        if (a == v || b == v) && (a == w || b == w) {
            assert(edge_has(k as int, v) && edge_has(k as int, w));
            return true;
        }
        k += 1;
    }
    false
}

/// Whether edge `k` is drawn heavy and labelled, given the vertex `xl` that
/// anchors the x and y labels and the vertex `zl` that anchors the z label.
pub fn edge_labelled(k: usize, xl: usize, zl: usize) -> (r: bool)
    requires
        k < EDGE_COUNT,
    ensures
        r == spec_edge_labelled(k as int, xl, zl),
{
    let (a, b) = cube_edge(k);
    match edge_axis(k) {
        Axis::Z => a == zl || b == zl,
        _ => a == xl || b == xl,
    }
}

} // verus!
