//! Vertex-array and buffer setup, against the model context.
//!
//! A vertex array object bundles one vertex buffer, an optional index
//! buffer, and one attribute descriptor per enabled shader input. The model
//! stores vertex data as raw bytes, exactly as the platform call does: the
//! descriptors say how those bytes are to be read, and a mismatch between
//! descriptors and data is a caller contract, not a detected error.

use vstd::prelude::*;

use crate::context::{GlContext, GlView};

verus! {

/// The component type of one vertex attribute.
#[derive(Clone, Copy, Debug, PartialEq, Eq, Structural)]
pub enum AttribType {
    /// 32-bit floating point components, as most demos upload. The model
    /// pipeline does not interpret them; only the platform does.
    Float,
    /// 32-bit unsigned integer components, little-endian. The model pipeline
    /// reads positions in this form (see the draw call).
    UnsignedInt,
    /// 8-bit unsigned components.
    UnsignedByte,
}

/// How to read one shader input from a contiguous vertex buffer: pure value,
/// constructed and consumed immediately.
#[derive(Clone, Copy, Debug, PartialEq, Eq, Structural)]
pub struct VertexAttribPointer {
    /// The shader input location this descriptor feeds.
    pub location: u32,
    /// Components per vertex (1 to 4).
    pub len: u32,
    /// Component type.
    pub ty: AttribType,
    /// Whether fixed-point components are normalized when read.
    pub normalized: bool,
    /// Bytes from one vertex's data to the next; 0 means tightly packed.
    pub stride: u32,
    /// Byte offset of the first component inside the buffer.
    pub offset: u32,
}

impl Default for VertexAttribPointer {
    fn default() -> (d: Self)
        ensures
            d == (VertexAttribPointer {
                location: 0,
                len: 0,
                ty: AttribType::Float,
                normalized: false,
                stride: 0,
                offset: 0,
            }),
    {
        VertexAttribPointer {
            location: 0,
            len: 0,
            ty: AttribType::Float,
            normalized: false,
            stride: 0,
            offset: 0,
        }
    }
}

/// What the context records for one live vertex array object.
#[verifier::ext_equal]
pub ghost struct VaoView {
    /// The enabled attribute slots, exactly as configured, in order.
    pub attribs: Seq<VertexAttribPointer>,
    /// The vertex buffer's name.
    pub vbo: u32,
    /// The index buffer's name, or 0 when the array is not indexed.
    pub ebo: u32,
}

/// The executable record behind [`VaoView`].
pub(crate) struct VaoRecord {
    pub(crate) attribs: Vec<VertexAttribPointer>,
    pub(crate) vbo: u32,
    pub(crate) ebo: u32,
}

/// An owned handle to a vertex array object together with the buffer objects
/// it exclusively owns. An id of 0 denotes "not yet created".
pub struct VertexArrayObject {
    /// The vertex array's name in the context.
    pub id: u32,
    /// The owned vertex buffer's name.
    pub vbo: u32,
    /// The owned index buffer's name, or 0 when the array is not indexed.
    pub ebo: u32,
}

impl Default for VertexArrayObject {
    fn default() -> (d: Self)
        ensures
            d == (VertexArrayObject { id: 0, vbo: 0, ebo: 0 }),
    {
        VertexArrayObject { id: 0, vbo: 0, ebo: 0 }
    }
}

/// Creates a vertex array over a freshly uploaded vertex buffer, with one
/// enabled attribute slot per descriptor, exactly as supplied and in order.
///
/// Both new objects are left bound, as the underlying calls leave them: the
/// new array on the vertex-array binding point and the new buffer on the
/// vertex-buffer binding point. Whether the descriptors agree with the byte
/// layout of `data` is a caller contract, not a detected error.
pub fn create(gl: &mut GlContext, data: &[u8], attrs: &[VertexAttribPointer]) -> (vao:
    VertexArrayObject)
    requires
        old(gl)@.next_array_buffer <= u32::MAX,
        old(gl)@.next_vertex_array <= u32::MAX,
    ensures
        vao.id == old(gl)@.next_vertex_array,
        vao.vbo == old(gl)@.next_array_buffer,
        vao.ebo == 0,
        vao.id != 0,
        vao.vbo != 0,
        !old(gl)@.vertex_arrays.contains_key(vao.id),
        !old(gl)@.array_buffers.contains_key(vao.vbo),
        final(gl)@ == (GlView {
            array_buffers: old(gl)@.array_buffers.insert(vao.vbo, data@),
            vertex_arrays: old(gl)@.vertex_arrays.insert(
                vao.id,
                (VaoView { attribs: attrs@, vbo: vao.vbo, ebo: 0 }),
            ),
            next_array_buffer: old(gl)@.next_array_buffer + 1,
            next_vertex_array: old(gl)@.next_vertex_array + 1,
            bound_array_buffer: vao.vbo,
            bound_vertex_array: vao.id,
            ..old(gl)@
        }),
{
    proof {
        crate::context::lemma_view(*old(gl));
    }
    let vbo = create_vbo(gl, data);
    proof {
        crate::context::lemma_view(*gl);
    }
    let record = VaoRecord { attribs: vstd::slice::slice_to_vec(attrs), vbo, ebo: 0 };
    let id = gl.vertex_arrays.gen(record);
    gl.bound_vertex_array = id;
    proof {
        crate::context::lemma_view(*gl);
        assert(gl@.array_buffers =~= old(gl)@.array_buffers.insert(vbo, data@));
        assert(gl@.vertex_arrays =~= old(gl)@.vertex_arrays.insert(
            id,
            (VaoView { attribs: attrs@, vbo, ebo: 0 }),
        ));
        assert(gl@ =~~= (GlView {
            array_buffers: old(gl)@.array_buffers.insert(vbo, data@),
            vertex_arrays: old(gl)@.vertex_arrays.insert(
                id,
                (VaoView { attribs: attrs@, vbo, ebo: 0 }),
            ),
            next_array_buffer: old(gl)@.next_array_buffer + 1,
            next_vertex_array: old(gl)@.next_vertex_array + 1,
            bound_array_buffer: vbo,
            bound_vertex_array: id,
            ..old(gl)@
        }));
    }
    VertexArrayObject { id, vbo, ebo: 0 }
}

/// As [`create`], plus a freshly uploaded index buffer associated with the
/// new vertex array, holding exactly the supplied indices.
pub fn create_indexed(
    gl: &mut GlContext,
    data: &[u8],
    attrs: &[VertexAttribPointer],
    indices: &[u32],
) -> (vao: VertexArrayObject)
    requires
        old(gl)@.next_array_buffer <= u32::MAX,
        old(gl)@.next_index_buffer <= u32::MAX,
        old(gl)@.next_vertex_array <= u32::MAX,
    ensures
        vao.id == old(gl)@.next_vertex_array,
        vao.vbo == old(gl)@.next_array_buffer,
        vao.ebo == old(gl)@.next_index_buffer,
        vao.id != 0,
        vao.vbo != 0,
        vao.ebo != 0,
        !old(gl)@.vertex_arrays.contains_key(vao.id),
        !old(gl)@.array_buffers.contains_key(vao.vbo),
        !old(gl)@.index_buffers.contains_key(vao.ebo),
        final(gl)@ == (GlView {
            array_buffers: old(gl)@.array_buffers.insert(vao.vbo, data@),
            index_buffers: old(gl)@.index_buffers.insert(vao.ebo, indices@),
            vertex_arrays: old(gl)@.vertex_arrays.insert(
                vao.id,
                (VaoView { attribs: attrs@, vbo: vao.vbo, ebo: vao.ebo }),
            ),
            next_array_buffer: old(gl)@.next_array_buffer + 1,
            next_index_buffer: old(gl)@.next_index_buffer + 1,
            next_vertex_array: old(gl)@.next_vertex_array + 1,
            bound_array_buffer: vao.vbo,
            bound_vertex_array: vao.id,
            ..old(gl)@
        }),
{
    proof {
        crate::context::lemma_view(*old(gl));
    }
    let vbo = create_vbo(gl, data);
    proof {
        crate::context::lemma_view(*gl);
    }
    let ebo = create_ebo(gl, indices);
    proof {
        crate::context::lemma_view(*gl);
    }
    let record = VaoRecord { attribs: vstd::slice::slice_to_vec(attrs), vbo, ebo };
    let id = gl.vertex_arrays.gen(record);
    gl.bound_vertex_array = id;
    proof {
        crate::context::lemma_view(*gl);
        assert(gl@.array_buffers =~= old(gl)@.array_buffers.insert(vbo, data@));
        assert(gl@.index_buffers =~= old(gl)@.index_buffers.insert(ebo, indices@));
        assert(gl@.vertex_arrays =~= old(gl)@.vertex_arrays.insert(
            id,
            (VaoView { attribs: attrs@, vbo, ebo }),
        ));
        assert(gl@ =~~= (GlView {
            array_buffers: old(gl)@.array_buffers.insert(vbo, data@),
            index_buffers: old(gl)@.index_buffers.insert(ebo, indices@),
            vertex_arrays: old(gl)@.vertex_arrays.insert(
                id,
                (VaoView { attribs: attrs@, vbo, ebo }),
            ),
            next_array_buffer: old(gl)@.next_array_buffer + 1,
            next_index_buffer: old(gl)@.next_index_buffer + 1,
            next_vertex_array: old(gl)@.next_vertex_array + 1,
            bound_array_buffer: vbo,
            bound_vertex_array: id,
            ..old(gl)@
        }));
    }
    VertexArrayObject { id, vbo, ebo }
}

/// Uploads `data` into a fresh vertex buffer and leaves it bound.
fn create_vbo(gl: &mut GlContext, data: &[u8]) -> (vbo: u32)
    requires
        old(gl)@.next_array_buffer <= u32::MAX,
    ensures
        vbo == old(gl)@.next_array_buffer,
        vbo != 0,
        !old(gl)@.array_buffers.contains_key(vbo),
        final(gl)@ == (GlView {
            array_buffers: old(gl)@.array_buffers.insert(vbo, data@),
            next_array_buffer: old(gl)@.next_array_buffer + 1,
            bound_array_buffer: vbo,
            ..old(gl)@
        }),
{
    proof {
        crate::context::lemma_view(*old(gl));
    }
    let vbo = gl.array_buffers.gen(vstd::slice::slice_to_vec(data));
    gl.bound_array_buffer = vbo;
    proof {
        crate::context::lemma_view(*gl);
        assert(gl@.array_buffers =~= old(gl)@.array_buffers.insert(vbo, data@));
        assert(gl@ =~~= (GlView {
            array_buffers: old(gl)@.array_buffers.insert(vbo, data@),
            next_array_buffer: old(gl)@.next_array_buffer + 1,
            bound_array_buffer: vbo,
            ..old(gl)@
        }));
    }
    vbo
}

/// Uploads `indices` into a fresh index buffer.
fn create_ebo(gl: &mut GlContext, indices: &[u32]) -> (ebo: u32)
    requires
        old(gl)@.next_index_buffer <= u32::MAX,
    ensures
        ebo == old(gl)@.next_index_buffer,
        ebo != 0,
        !old(gl)@.index_buffers.contains_key(ebo),
        final(gl)@ == (GlView {
            index_buffers: old(gl)@.index_buffers.insert(ebo, indices@),
            next_index_buffer: old(gl)@.next_index_buffer + 1,
            ..old(gl)@
        }),
{
    proof {
        crate::context::lemma_view(*old(gl));
    }
    let ebo = gl.index_buffers.gen(vstd::slice::slice_to_vec(indices));
    proof {
        crate::context::lemma_view(*gl);
        assert(gl@.index_buffers =~= old(gl)@.index_buffers.insert(ebo, indices@));
        assert(gl@ =~~= (GlView {
            index_buffers: old(gl)@.index_buffers.insert(ebo, indices@),
            next_index_buffer: old(gl)@.next_index_buffer + 1,
            ..old(gl)@
        }));
    }
    ebo
}

impl VertexArrayObject {
    /// How many indices the owned index buffer holds: the count a draw over
    /// the whole array uses. 0 for a non-indexed array.
    pub fn index_count(&self, gl: &GlContext) -> (n: usize)
        requires
            self.ebo != 0 ==> gl@.index_buffers.contains_key(self.ebo),
        ensures
            n == if self.ebo == 0 {
                0int
            } else {
                gl@.index_buffers[self.ebo].len() as int
            },
    {
        if self.ebo == 0 {
            return 0;
        }
        proof {
            crate::context::lemma_view(*gl);
        }
        let data = gl.index_buffers.get(self.ebo).unwrap();
        data.len()
    }

    /// Releases the vertex array and the buffers it exclusively owns:
    /// exactly one vertex array, exactly one vertex buffer, and — when the
    /// array is indexed — exactly one index buffer leave the context, each
    /// exactly once. Consuming the handle is what rules a second release
    /// out, as the drop of an owning handle did. A binding that pointed at a
    /// deleted object reverts to 0, as on the platform.
    pub fn delete(self, gl: &mut GlContext)
        requires
            old(gl)@.vertex_arrays.contains_key(self.id),
            old(gl)@.vertex_arrays[self.id].vbo == self.vbo,
            old(gl)@.vertex_arrays[self.id].ebo == self.ebo,
        ensures
            final(gl)@ == (GlView {
                vertex_arrays: old(gl)@.vertex_arrays.remove(self.id),
                array_buffers: old(gl)@.array_buffers.remove(self.vbo),
                index_buffers: if self.ebo != 0 {
                    old(gl)@.index_buffers.remove(self.ebo)
                } else {
                    old(gl)@.index_buffers
                },
                bound_vertex_array: if old(gl)@.bound_vertex_array == self.id {
                    0u32
                } else {
                    old(gl)@.bound_vertex_array
                },
                bound_array_buffer: if old(gl)@.bound_array_buffer == self.vbo {
                    0u32
                } else {
                    old(gl)@.bound_array_buffer
                },
                ..old(gl)@
            }),
    {
        proof {
            crate::context::lemma_view(*old(gl));
        }
        let _ = gl.vertex_arrays.free(self.id);
        let _ = gl.array_buffers.free(self.vbo);
        if self.ebo != 0 {
            let _ = gl.index_buffers.free(self.ebo);
        }
        if gl.bound_vertex_array == self.id {
            gl.bound_vertex_array = 0;
        }
        if gl.bound_array_buffer == self.vbo {
            gl.bound_array_buffer = 0;
        }
        proof {
            crate::context::lemma_view(*gl);
            assert(gl@.vertex_arrays =~= old(gl)@.vertex_arrays.remove(self.id));
            assert(gl@.array_buffers =~= old(gl)@.array_buffers.remove(self.vbo));
            if self.ebo != 0 {
                assert(gl@.index_buffers =~= old(gl)@.index_buffers.remove(self.ebo));
            } else {
                assert(gl@.index_buffers =~= old(gl)@.index_buffers);
            }
            assert(gl@ =~~= (GlView {
                vertex_arrays: old(gl)@.vertex_arrays.remove(self.id),
                array_buffers: old(gl)@.array_buffers.remove(self.vbo),
                index_buffers: if self.ebo != 0 {
                    old(gl)@.index_buffers.remove(self.ebo)
                } else {
                    old(gl)@.index_buffers
                },
                bound_vertex_array: if old(gl)@.bound_vertex_array == self.id {
                    0u32
                } else {
                    old(gl)@.bound_vertex_array
                },
                bound_array_buffer: if old(gl)@.bound_array_buffer == self.vbo {
                    0u32
                } else {
                    old(gl)@.bound_array_buffer
                },
                ..old(gl)@
            }));
        }
    }
}

} // verus!
