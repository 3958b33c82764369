//! Vertex-array setup and the buffer-ownership lifecycle.

use glkit::context::GlContext;
use glkit::vao::{create, create_indexed, AttribType, VertexArrayObject, VertexAttribPointer};

fn quad_bytes() -> Vec<u8> {
    // Four vertices, two u32 components each, little-endian.
    let corners: [(u32, u32); 4] = [(2, 2), (6, 2), (6, 6), (2, 6)];
    let mut data = Vec::new();
    for (x, y) in corners.iter() {
        data.extend_from_slice(&x.to_le_bytes());
        data.extend_from_slice(&y.to_le_bytes());
    }
    data
}

fn position_attrib() -> VertexAttribPointer {
    VertexAttribPointer {
        location: 0,
        len: 2,
        ty: AttribType::UnsignedInt,
        normalized: false,
        stride: 0,
        offset: 0,
    }
}

#[test]
fn create_enables_exactly_the_supplied_attributes() {
    let mut gl = GlContext::new(8, 8);
    let attrs = [
        position_attrib(),
        VertexAttribPointer {
            location: 1,
            len: 3,
            ty: AttribType::Float,
            normalized: true,
            stride: 20,
            offset: 8,
        },
    ];
    let vao = create(&mut gl, &quad_bytes(), &attrs);
    assert_eq!(gl.attrib_count(vao.id), 2);
    assert_eq!(gl.get_attrib(vao.id, 0), attrs[0]);
    assert_eq!(gl.get_attrib(vao.id, 1), attrs[1]);
}

#[test]
fn create_with_no_attributes_enables_none() {
    let mut gl = GlContext::new(8, 8);
    let vao = create(&mut gl, &quad_bytes(), &[]);
    assert_eq!(gl.attrib_count(vao.id), 0);
}

#[test]
fn create_indexed_round_trips_the_uploaded_indices() {
    let mut gl = GlContext::new(8, 8);
    let indices: [u32; 6] = [0, 1, 2, 2, 3, 0];
    let vao = create_indexed(&mut gl, &quad_bytes(), &[position_attrib()], &indices);
    assert_eq!(vao.index_count(&gl), 6);
    let read_back = gl.read_index_buffer(vao.ebo);
    assert_eq!(read_back, indices.to_vec());
}

#[test]
fn create_without_indices_owns_no_index_buffer() {
    let mut gl = GlContext::new(8, 8);
    let vao = create(&mut gl, &quad_bytes(), &[position_attrib()]);
    assert_eq!(vao.ebo, 0);
    assert_eq!(vao.index_count(&gl), 0);
}

#[test]
fn delete_releases_array_vertex_buffer_and_index_buffer_once() {
    let mut gl = GlContext::new(8, 8);
    let indices: [u32; 6] = [0, 1, 2, 2, 3, 0];
    let vao = create_indexed(&mut gl, &quad_bytes(), &[position_attrib()], &indices);
    let other = create(&mut gl, &quad_bytes(), &[position_attrib()]);
    let (id, vbo, ebo) = (vao.id, vao.vbo, vao.ebo);
    assert!(gl.is_vertex_array(id));
    assert!(gl.is_array_buffer(vbo));
    assert!(gl.is_index_buffer(ebo));

    vao.delete(&mut gl);
    // Exactly one vertex array, one vertex buffer and one index buffer left.
    assert!(!gl.is_vertex_array(id));
    assert!(!gl.is_array_buffer(vbo));
    assert!(!gl.is_index_buffer(ebo));
    // The unrelated array object kept its objects.
    assert!(gl.is_vertex_array(other.id));
    assert!(gl.is_array_buffer(other.vbo));
}

#[test]
fn delete_of_non_indexed_array_releases_two_objects() {
    let mut gl = GlContext::new(8, 8);
    let vao = create(&mut gl, &quad_bytes(), &[position_attrib()]);
    let (id, vbo) = (vao.id, vao.vbo);
    vao.delete(&mut gl);
    assert!(!gl.is_vertex_array(id));
    assert!(!gl.is_array_buffer(vbo));
}

#[test]
fn descriptor_defaults_match_a_fresh_float_attribute() {
    let d = VertexAttribPointer::default();
    assert_eq!(d.location, 0);
    assert_eq!(d.len, 0);
    assert_eq!(d.ty, AttribType::Float);
    assert!(!d.normalized);
    assert_eq!(d.stride, 0);
    assert_eq!(d.offset, 0);
}

#[test]
fn vertex_array_default_denotes_not_yet_created() {
    let d = VertexArrayObject::default();
    assert_eq!(d.id, 0);
    assert_eq!(d.vbo, 0);
    assert_eq!(d.ebo, 0);
}
