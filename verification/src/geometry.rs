//! The rectangle on which the field is drawn.

use vstd::prelude::*;

verus! {

/// Lowest coordinate a vertex can hold.
pub const COORD_MIN: i16 = -32768;

/// Highest coordinate a vertex can hold.
pub const COORD_MAX: i16 = 32767;

/// A corner of the slice in its own plane, in homogeneous coordinates.
#[derive(Debug, Clone, Copy, PartialEq, Eq)]
pub struct Vertex {
    pub a_pos: [i16; 4],
}

impl Vertex {
    /// The vertex at `pos`, with weight 1.
    pub fn new(pos: [i16; 3]) -> (v: Vertex)
        ensures
            v == Vertex::at(pos[0] as int, pos[1] as int, pos[2] as int),
    {
        let v = Vertex { a_pos: [pos[0], pos[1], pos[2], 1] };
        assert(v.a_pos@ =~= seq![pos[0], pos[1], pos[2], 1i16]);
        assert(v.a_pos =~= Vertex::at(pos[0] as int, pos[1] as int, pos[2] as int).a_pos);
        v
    }

    /// The vertex at `(x, y, z)`, with weight 1.
    pub open spec fn at(x: int, y: int, z: int) -> Vertex {
        Vertex { a_pos: [x as i16, y as i16, z as i16, 1i16] }
    }
}

/// The lower edge of a centred extent of `size` units: `-size / 2`, rounded
/// towards zero, and held within the range of a coordinate. An extent that
/// is not positive has both edges at zero.
pub open spec fn low_edge_spec(size: int) -> int {
    if size <= 0 {
        0
    } else if size / 2 >= 32768 {
        -32768
    } else {
        -(size / 2)
    }
}

/// The upper edge of a centred extent of `size` units: `(size + 1) / 2`,
/// rounded towards zero, and held within the range of a coordinate.
pub open spec fn high_edge_spec(size: int) -> int {
    if size <= 0 {
        0
    } else if (size + 1) / 2 >= 32767 {
        32767
    } else {
        (size + 1) / 2
    }
}

/// The four corners of a centred `width` by `height` rectangle, counter
/// clockwise from the lower left.
pub open spec fn quad_spec(width: int, height: int) -> Seq<Vertex> {
    let wl = low_edge_spec(width);
    let wr = high_edge_spec(width);
    let hb = low_edge_spec(height);
    let ht = high_edge_spec(height);
    seq![Vertex::at(wl, hb, 0), Vertex::at(wr, hb, 0), Vertex::at(wr, ht, 0), Vertex::at(wl, ht, 0)]
}

/// The two triangles that cover the rectangle, as indices into its corners.
pub open spec fn quad_indices_spec() -> Seq<u16> {
    seq![0u16, 1u16, 2u16, 2u16, 3u16, 0u16]
}

/// The lower edge of a centred extent of `size` units.
pub fn low_edge(size: i32) -> (e: i16)
    ensures
        e == low_edge_spec(size as int),
        COORD_MIN <= e <= 0,
{
    if size <= 0 {
        0
    } else if size / 2 >= 32768 {
        COORD_MIN
    } else {
        let half: i32 = size / 2;
        (-half) as i16
    }
}

/// The upper edge of a centred extent of `size` units.
pub fn high_edge(size: i32) -> (e: i16)
    ensures
        e == high_edge_spec(size as int),
        0 <= e <= COORD_MAX,
{
    if size <= 0 {
        0
    } else if (size - 1) / 2 + 1 >= 32767 {
        COORD_MAX
    } else {
        let half: i32 = (size - 1) / 2 + 1;
        half as i16
    }
}

/// An extent that fits is kept whole: its edges are `size` apart.
pub proof fn lemma_edges_span(size: int)
    requires
        0 <= size <= 65534,
    ensures
        high_edge_spec(size) - low_edge_spec(size) == size,
{
}

/// Whatever is asked for, the edges lie within the range of a coordinate,
/// the lower one at or below zero and the upper one at or above it.
pub proof fn lemma_edges_in_range(size: int)
    ensures
        -32768 <= low_edge_spec(size) <= 0 <= high_edge_spec(size) <= 32767,
{
}

} // verus!
