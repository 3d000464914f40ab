//! Packing of vertex and index data into a single mesh buffer, and the
//! description of the vertex layout that the render pipeline consumes.
//!
//! Vertex data reaches this module already serialized to bytes (a vertex is
//! two three-component float vectors, position and color, which only the
//! caller can produce); what is verified here is the byte-exact packing.

use vstd::prelude::*;

verus! {

/// A packed mesh: one byte buffer holding all vertex data, then all index
/// data, with `offset` marking where the index data starts.
pub struct Mesh {
    pub data: Vec<u8>,
    pub offset: u64,
}

/// The low byte of a 16-bit index in its little-endian encoding.
pub open spec fn u16_lo(x: u16) -> u8 {
    (x % 256) as u8
}

/// The high byte of a 16-bit index in its little-endian encoding.
pub open spec fn u16_hi(x: u16) -> u8 {
    (x / 256) as u8
}

/// The index list of the quad: two triangles over its four corners.
pub fn quad_indices() -> (r: Vec<u16>)
    ensures
        r@ == seq![0u16, 1u16, 2u16, 2u16, 3u16, 0u16],
{
    let mut r: Vec<u16> = Vec::new();
    r.push(0);
    r.push(1);
    r.push(2);
    r.push(2);
    r.push(3);
    r.push(0);
    proof {
        assert(r@ =~= seq![0u16, 1u16, 2u16, 2u16, 3u16, 0u16]);
    }
    r
}

/// Serializes 16-bit indices to bytes, little-endian, in order.
pub fn indices_to_bytes(indices: &Vec<u16>) -> (r: Vec<u8>)
    ensures
        r@.len() == 2 * indices@.len(),
        forall|i: int|
            0 <= i < indices@.len() ==> r@[2 * i] == u16_lo(#[trigger] indices@[i]) && r@[2 * i
                + 1] == u16_hi(indices@[i]),
{
    let mut r: Vec<u8> = Vec::new();
    let mut i: usize = 0;
    while i < indices.len()
        invariant
            i <= indices@.len(),
            r@.len() == 2 * i,
            forall|j: int|
                0 <= j < i ==> r@[2 * j] == u16_lo(#[trigger] indices@[j]) && r@[2 * j + 1]
                    == u16_hi(indices@[j]),
        decreases indices@.len() - i,
    {
        let v = indices[i];
        r.push((v % 256) as u8);
        r.push((v / 256) as u8);
        i = i + 1;
    }
    r
}

/// Packs serialized vertex data and serialized index data into one buffer:
/// the vertex bytes first, the index bytes directly after them, with the
/// mesh's offset marking the boundary.
pub fn pack_mesh(vertex_bytes: &Vec<u8>, index_bytes: &Vec<u8>) -> (m: Mesh)
    ensures
        m.data@ == vertex_bytes@ + index_bytes@,
        m.offset == vertex_bytes@.len(),
{
    let mut data: Vec<u8> = Vec::new();
    let mut i: usize = 0;
    while i < vertex_bytes.len()
        invariant
            i <= vertex_bytes@.len(),
            data@ == vertex_bytes@.subrange(0, i as int),
        decreases vertex_bytes@.len() - i,
    {
        data.push(vertex_bytes[i]);
        i = i + 1;
    }
    proof {
        assert(data@ =~= vertex_bytes@);
    }
    let mut j: usize = 0;
    while j < index_bytes.len()
        invariant
            j <= index_bytes@.len(),
            data@ == vertex_bytes@ + index_bytes@.subrange(0, j as int),
        decreases index_bytes@.len() - j,
    {
        data.push(index_bytes[j]);
        proof {
            assert(data@ =~= vertex_bytes@ + index_bytes@.subrange(0, j + 1));
        }
        j = j + 1;
    }
    proof {
        assert(data@ =~= vertex_bytes@ + index_bytes@);
    }
    let offset = vertex_bytes.len() as u64;
    Mesh { data, offset }
}

/// The format of one vertex attribute as the GPU reads it.
#[derive(Clone, Copy, Debug, PartialEq, Eq, Structural)]
pub enum VertexFormat {
    Float32x3,
}

/// One attribute of the vertex layout: where in the vertex it starts and
/// which shader location it feeds.
#[derive(Clone, Copy, Debug, PartialEq, Eq, Structural)]
pub struct VertexAttribute {
    pub format: VertexFormat,
    pub offset: u64,
    pub shader_location: u32,
}

/// The vertex buffer layout: the distance in bytes between consecutive
/// vertices, stepped per vertex, and the attributes of each vertex.
pub struct VertexBufferLayout {
    pub array_stride: u64,
    pub attributes: Vec<VertexAttribute>,
}

/// Byte size of one vertex: position and color, three 32-bit floats each.
pub const VERTEX_STRIDE: u64 = 24;

/// The layout of the mesh vertices: a three-float position at the start of
/// the vertex feeding shader location 0, and a three-float color directly
/// after it feeding shader location 1.
pub fn vertex_layout() -> (l: VertexBufferLayout)
    ensures
        l.array_stride == VERTEX_STRIDE,
        l.attributes@.len() == 2,
        l.attributes@[0] == (VertexAttribute {
            format: VertexFormat::Float32x3,
            offset: 0,
            shader_location: 0,
        }),
        l.attributes@[1] == (VertexAttribute {
            format: VertexFormat::Float32x3,
            offset: 12,
            shader_location: 1,
        }),
{
    let mut attributes: Vec<VertexAttribute> = Vec::new();
    attributes.push(VertexAttribute { format: VertexFormat::Float32x3, offset: 0, shader_location: 0 });
    attributes.push(VertexAttribute { format: VertexFormat::Float32x3, offset: 12, shader_location: 1 });
    VertexBufferLayout { array_stride: VERTEX_STRIDE, attributes }
}

} // verus!
