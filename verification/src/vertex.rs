//! The vertex record's layout and the constant triangle.
//!
//! A vertex is two three-component 32-bit attributes, `position` then
//! `color`, tightly packed: 24 bytes. The triangle is a compile-time
//! constant sequence of three such vertices in counter-clockwise winding.

use vstd::prelude::*;

verus! {

/// Byte stride of one interleaved vertex record: two tightly packed
/// three-component 32-bit attributes, no padding.
pub const VERTEX_STRIDE_BYTES: u64 = 24;

/// Byte offset of the `color` attribute inside a vertex record: it follows
/// the three 32-bit components of `position`.
pub const COLOR_OFFSET_BYTES: u64 = 12;

/// Number of vertices in the constant triangle.
pub const TRIANGLE_VERTEX_COUNT: u32 = 3;

/// One attribute of the vertex layout: the shader slot that receives it and
/// its byte offset inside a record. Every attribute of this layout is a
/// three-component 32-bit float vector; only placement varies.
#[derive(Clone, Copy, PartialEq, Eq, Structural, Debug)]
pub struct AttributeSlot {
    pub shader_location: u32,
    pub offset: u64,
}

/// The layout descriptor the pipeline consumes verbatim: array stride,
/// per-vertex stepping, and the ordered attribute list.
pub struct VertexLayout {
    pub array_stride: u64,
    pub step_per_vertex: bool,
    pub attributes: Vec<AttributeSlot>,
}

/// Builds the layout descriptor of the vertex record: stride of 24 bytes,
/// per-vertex stepping, attribute 0 (`position`) at offset 0 and attribute 1
/// (`color`) at offset 12.
pub fn vertex_layout() -> (layout: VertexLayout)
    ensures
        layout.array_stride == VERTEX_STRIDE_BYTES,
        layout.step_per_vertex,
        layout.attributes@.len() == 2,
        layout.attributes@[0] == (AttributeSlot { shader_location: 0, offset: 0 }),
        layout.attributes@[1] == (AttributeSlot {
            shader_location: 1,
            offset: COLOR_OFFSET_BYTES,
        }),
{
    let mut attributes: Vec<AttributeSlot> = Vec::new();
    attributes.push(AttributeSlot { shader_location: 0, offset: 0 });
    attributes.push(AttributeSlot { shader_location: 1, offset: COLOR_OFFSET_BYTES });
    VertexLayout { array_stride: VERTEX_STRIDE_BYTES, step_per_vertex: true, attributes }
}

/// A vertex of the constant triangle. Every coordinate and color channel is
/// held in halves of one unit, so the record stays in integers: a stored 1
/// means one half, a stored 2 means one full unit. The host divides by two
/// when it uploads the data.
#[derive(Clone, Copy, PartialEq, Eq, Structural, Debug)]
pub struct VertexHalves {
    pub x: i32,
    pub y: i32,
    pub z: i32,
    pub red: i32,
    pub green: i32,
    pub blue: i32,
}

/// Whether the triangle `a`, `b`, `c` winds counter-clockwise in the plane:
/// the cross product of its first two edges points out of the screen.
pub open spec fn counter_clockwise(a: VertexHalves, b: VertexHalves, c: VertexHalves) -> bool {
    (b.x - a.x) * (c.y - a.y) - (c.x - a.x) * (b.y - a.y) > 0
}

/// Builds the constant triangle: an apex at (0, 1/2) in red, a lower-left
/// corner at (-1/2, -1/2) in green, and a lower-right corner at (1/2, -1/2)
/// in blue, all on the z = 0 plane, wound counter-clockwise.
pub fn triangle_vertices() -> (verts: Vec<VertexHalves>)
    ensures
        verts@.len() == TRIANGLE_VERTEX_COUNT,
        verts@[0] == (VertexHalves { x: 0, y: 1, z: 0, red: 2, green: 0, blue: 0 }),
        verts@[1] == (VertexHalves { x: -1i32, y: -1i32, z: 0, red: 0, green: 2, blue: 0 }),
        verts@[2] == (VertexHalves { x: 1, y: -1i32, z: 0, red: 0, green: 0, blue: 2 }),
        counter_clockwise(verts@[0], verts@[1], verts@[2]),
{
    let mut verts: Vec<VertexHalves> = Vec::new();
    verts.push(VertexHalves { x: 0, y: 1, z: 0, red: 2, green: 0, blue: 0 });
    verts.push(VertexHalves { x: -1, y: -1, z: 0, red: 0, green: 2, blue: 0 });
    verts.push(VertexHalves { x: 1, y: -1, z: 0, red: 0, green: 0, blue: 2 });
    proof {
        let a = verts@[0];
        let b = verts@[1];
        let c = verts@[2];
        assert((b.x - a.x) * (c.y - a.y) - (c.x - a.x) * (b.y - a.y) > 0) by (nonlinear_arith)
            requires
                a.x == 0,
                a.y == 1,
                b.x == -1,
                b.y == -1,
                c.x == 1,
                c.y == -1,
        ;
    }
    verts
}

} // verus!
