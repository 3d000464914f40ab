use renderer_backend::mesh_builder::{
    indices_to_bytes, pack_mesh, quad_indices, vertex_layout, VertexFormat, VERTEX_STRIDE,
};

#[test]
fn quad_index_list() {
    let q = quad_indices();
    assert_eq!(q, vec![0u16, 1, 2, 2, 3, 0]);
}

#[test]
fn indices_serialize_little_endian() {
    let b = indices_to_bytes(&vec![0x0102u16, 0xa1b2u16]);
    assert_eq!(b, vec![0x02u8, 0x01, 0xb2, 0xa1]);
}

#[test]
fn indices_serialize_empty() {
    assert_eq!(indices_to_bytes(&vec![]), Vec::<u8>::new());
}

#[test]
fn quad_indices_serialized() {
    let b = indices_to_bytes(&quad_indices());
    assert_eq!(b, vec![0u8, 0, 1, 0, 2, 0, 2, 0, 3, 0, 0, 0]);
}

#[test]
fn mesh_packs_vertices_then_indices() {
    let vertices = vec![1u8, 2, 3];
    let indices = vec![9u8, 8];
    let m = pack_mesh(&vertices, &indices);
    assert_eq!(m.data, vec![1u8, 2, 3, 9, 8]);
    assert_eq!(m.offset, 3);
}

#[test]
fn mesh_packs_empty_indices() {
    let m = pack_mesh(&vec![5u8], &vec![]);
    assert_eq!(m.data, vec![5u8]);
    assert_eq!(m.offset, 1);
}

#[test]
fn vertex_layout_fields() {
    let l = vertex_layout();
    assert_eq!(l.array_stride, VERTEX_STRIDE);
    assert_eq!(l.array_stride, 24);
    assert_eq!(l.attributes.len(), 2);
    assert_eq!(l.attributes[0].format, VertexFormat::Float32x3);
    assert_eq!(l.attributes[0].offset, 0);
    assert_eq!(l.attributes[0].shader_location, 0);
    assert_eq!(l.attributes[1].format, VertexFormat::Float32x3);
    assert_eq!(l.attributes[1].offset, 12);
    assert_eq!(l.attributes[1].shader_location, 1);
}
