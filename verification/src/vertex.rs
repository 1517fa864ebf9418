//! Byte-layout descriptions of the vertex variants the pipeline consumes.
//!
//! The GPU reads vertex buffers as raw bytes, so each attribute's offset and
//! the overall stride must match the in-memory field layout exactly: the two
//! vertex variants pack a three-float position first, then a four-float
//! color or a two-float texture coordinate, with no padding between fields.

use vstd::prelude::*;

verus! {

/// Numeric format of one vertex attribute.
#[derive(Clone, Copy, Debug, PartialEq, Eq, Structural)]
pub enum AttributeFormat {
    Float32x2,
    Float32x3,
    Float32x4,
}

/// Bytes one attribute of the given format occupies.
pub open spec fn spec_format_size(f: AttributeFormat) -> int {
    match f {
        AttributeFormat::Float32x2 => 8,
        AttributeFormat::Float32x3 => 12,
        AttributeFormat::Float32x4 => 16,
    }
}

pub fn format_size(f: AttributeFormat) -> (n: u64)
    ensures
        n == spec_format_size(f),
{
    match f {
        AttributeFormat::Float32x2 => 8,
        AttributeFormat::Float32x3 => 12,
        AttributeFormat::Float32x4 => 16,
    }
}

/// One attribute of a vertex: where it starts inside the vertex's bytes,
/// which shader input slot reads it, and its format.
#[derive(Clone, Copy, Debug, PartialEq, Eq, Structural)]
pub struct AttributeLayout {
    pub shader_location: u32,
    pub offset: u64,
    pub format: AttributeFormat,
}

/// Byte layout of one vertex variant: the stride from one vertex to the
/// next and its attributes in field order.
pub struct VertexLayout {
    pub array_stride: u64,
    pub attributes: Vec<AttributeLayout>,
}

/// The attributes sit back to back from offset zero with nothing between
/// them, shader locations count up from zero in the same order, and the
/// stride is exactly the bytes the attributes cover.
pub open spec fn packed(l: VertexLayout) -> bool {
    &&& forall|i: int|
        0 <= i < l.attributes@.len() ==> (#[trigger] l.attributes@[i]).shader_location == i
    &&& l.attributes@.len() > 0 ==> l.attributes@[0].offset == 0
    &&& forall|i: int|
        0 <= i < l.attributes@.len() - 1 ==> (#[trigger] l.attributes@[i + 1]).offset
            == l.attributes@[i].offset + spec_format_size(l.attributes@[i].format)
    &&& l.array_stride == if l.attributes@.len() == 0 {
        0
    } else {
        let last = l.attributes@[l.attributes@.len() - 1];
        last.offset + spec_format_size(last.format)
    }
}

/// Layout of a colored vertex: a three-float position at offset 0 and a
/// four-float color at offset 12, 28 bytes per vertex.
pub fn colored_vertex_layout() -> (r: VertexLayout)
    ensures
        packed(r),
        r.attributes@.len() == 2,
        r.attributes@[0] == (AttributeLayout {
            shader_location: 0,
            offset: 0,
            format: AttributeFormat::Float32x3,
        }),
        r.attributes@[1] == (AttributeLayout {
            shader_location: 1,
            offset: 12,
            format: AttributeFormat::Float32x4,
        }),
        r.array_stride == 28,
{
    let attributes: Vec<AttributeLayout> = vec![
        AttributeLayout { shader_location: 0, offset: 0, format: AttributeFormat::Float32x3 },
        AttributeLayout { shader_location: 1, offset: 12, format: AttributeFormat::Float32x4 },
    ];
    VertexLayout { array_stride: 28, attributes }
}

/// Layout of a textured vertex: a three-float position at offset 0 and a
/// two-float texture coordinate at offset 12, 20 bytes per vertex.
pub fn textured_vertex_layout() -> (r: VertexLayout)
    ensures
        packed(r),
        r.attributes@.len() == 2,
        r.attributes@[0] == (AttributeLayout {
            shader_location: 0,
            offset: 0,
            format: AttributeFormat::Float32x3,
        }),
        r.attributes@[1] == (AttributeLayout {
            shader_location: 1,
            offset: 12,
            format: AttributeFormat::Float32x2,
        }),
        r.array_stride == 20,
{
    let attributes: Vec<AttributeLayout> = vec![
        AttributeLayout { shader_location: 0, offset: 0, format: AttributeFormat::Float32x3 },
        AttributeLayout { shader_location: 1, offset: 12, format: AttributeFormat::Float32x2 },
    ];
    VertexLayout { array_stride: 20, attributes }
}

} // verus!
