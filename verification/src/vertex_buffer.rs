//! The vertex stream's layout and size.
//!
//! The one vertex format of the pipeline: a two-component position
//! followed by a three-component color, both of four-byte floats, packed
//! in one binding. The pipeline's vertex input state and the vertex
//! buffer's size both derive from these numbers, so they live here, where
//! their arithmetic is checked.

use vstd::prelude::*;

verus! {

/// Bytes in one vertex position component (a four-byte float).
pub const VERTEX_COMPONENT_SIZE: u32 = 4;

/// Components in the position field.
pub const VERTEX_POSITION_COMPONENTS: u32 = 2;

/// Components in the color field.
pub const VERTEX_COLOR_COMPONENTS: u32 = 3;

/// Vertex format identifier: two four-byte float components.
pub const FORMAT_R32G32_SFLOAT: u32 = 103;

/// Vertex format identifier: three four-byte float components.
pub const FORMAT_R32G32B32_SFLOAT: u32 = 106;

/// One attribute of the vertex input state: where a shader input lives
/// inside the packed vertex.
#[derive(Clone, Copy, Debug, PartialEq, Eq, Structural)]
pub struct VertexAttribute {
    pub binding: u32,
    pub location: u32,
    pub format: u32,
    pub offset: u32,
}

/// The whole vertex input state: one binding of packed vertices and the
/// two attributes inside it.
#[derive(Clone, Copy, Debug, PartialEq, Eq, Structural)]
pub struct VertexInputDescription {
    pub binding: u32,
    /// Bytes from one vertex to the next.
    pub stride: u32,
    pub position: VertexAttribute,
    pub color: VertexAttribute,
}

/// Bytes one packed vertex occupies.
pub open spec fn vertex_stride() -> u32 {
    ((VERTEX_POSITION_COMPONENTS + VERTEX_COLOR_COMPONENTS)
        * VERTEX_COMPONENT_SIZE) as u32
}

/// Describes the vertex input state: the position at the front of the
/// vertex, the color right behind it, and a stride covering both exactly.
pub fn vertex_input_description() -> (r: VertexInputDescription)
    ensures
        r.binding == 0,
        r.position.binding == 0 && r.color.binding == 0,
        r.position.location == 0,
        r.color.location == 1,
        r.position.format == FORMAT_R32G32_SFLOAT,
        r.color.format == FORMAT_R32G32B32_SFLOAT,
        r.position.offset == 0,
        r.color.offset == VERTEX_POSITION_COMPONENTS * VERTEX_COMPONENT_SIZE,
        r.stride == vertex_stride(),
        r.stride == r.color.offset + VERTEX_COLOR_COMPONENTS * VERTEX_COMPONENT_SIZE,
{
    let position = VertexAttribute {
        binding: 0,
        location: 0,
        format: FORMAT_R32G32_SFLOAT,
        offset: 0,
    };
    let color = VertexAttribute {
        binding: 0,
        location: 1,
        format: FORMAT_R32G32B32_SFLOAT,
        offset: VERTEX_POSITION_COMPONENTS * VERTEX_COMPONENT_SIZE,
    };
    VertexInputDescription {
        binding: 0,
        stride: (VERTEX_POSITION_COMPONENTS + VERTEX_COLOR_COMPONENTS) * VERTEX_COMPONENT_SIZE,
        position,
        color,
    }
}

/// Bytes a buffer of `vertex_count` packed vertices needs.
pub fn vertex_buffer_size(vertex_count: u32) -> (r: u64)
    ensures
        r == vertex_count * vertex_stride(),
{
    let stride = vertex_stride_bytes();
    proof {
        assert((vertex_count as u64) * (stride as u64) < 0x10000000000000000)
            by (nonlinear_arith)
            requires
                vertex_count <= u32::MAX,
                stride <= u32::MAX,
        ;
    }
    (vertex_count as u64) * (stride as u64)
}

/// Bytes one packed vertex occupies.
pub fn vertex_stride_bytes() -> (r: u32)
    ensures
        r == vertex_stride(),
{
    (VERTEX_POSITION_COMPONENTS + VERTEX_COLOR_COMPONENTS) * VERTEX_COMPONENT_SIZE
}

} // verus!
