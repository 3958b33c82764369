//! The indexed draw call, against the model context.
//!
//! A real pipeline runs the bound program over the primitives the bound
//! vertex array describes. The model pipeline keeps the part these demos
//! observe: it reads the indices a draw names, fetches each named vertex's
//! position — the attribute at slot 0, two little-endian 32-bit unsigned
//! components, in pixels — and fills the axis-aligned rectangle those
//! positions span with the current program's constant output color. For the
//! axis-aligned quads the demos draw, that rectangle is exactly the
//! primitive's cover; true triangle coverage stays with the platform.
//!
//! Whether the position attribute agrees with the byte layout of the vertex
//! buffer is a caller contract, not a detected error, as with the underlying
//! API.

use vstd::prelude::*;

use crate::color::Rgba;
use crate::context::{
    lemma_dims_bound, lemma_row_major_in_bounds, lemma_row_major_injective, lemma_view, pixel_at,
    GlContext, GlView,
};
use crate::vao::VertexAttribPointer;

verus! {

/// The unsigned 32-bit value at byte offset `o`, little-endian.
pub open spec fn le_u32_at(data: Seq<u8>, o: int) -> int {
    data[o] + 256 * data[o + 1] + 65536 * data[o + 2] + 16777216 * data[o + 3]
}

/// The distance in bytes from one vertex's attribute data to the next;
/// a declared stride of 0 means tightly packed two-component data.
pub open spec fn effective_stride(a: VertexAttribPointer) -> int {
    if a.stride == 0 {
        8
    } else {
        a.stride as int
    }
}

/// Where vertex `vi`'s attribute data starts inside the vertex buffer.
pub open spec fn pos_base(a: VertexAttribPointer, vi: int) -> int {
    a.offset + vi * effective_stride(a)
}

/// Vertex `vi`'s x position, in pixels.
pub open spec fn pos_x(data: Seq<u8>, a: VertexAttribPointer, vi: int) -> int {
    le_u32_at(data, pos_base(a, vi))
}

/// Vertex `vi`'s y position, in pixels.
pub open spec fn pos_y(data: Seq<u8>, a: VertexAttribPointer, vi: int) -> int {
    le_u32_at(data, pos_base(a, vi) + 4)
}

/// The least element of a non-empty sequence.
pub open spec fn seq_min(s: Seq<int>) -> int
    decreases s.len(),
{
    if s.len() <= 1 {
        s[0]
    } else if s.last() < seq_min(s.drop_last()) {
        s.last()
    } else {
        seq_min(s.drop_last())
    }
}

/// The greatest element of a non-empty sequence.
pub open spec fn seq_max(s: Seq<int>) -> int
    decreases s.len(),
{
    if s.len() <= 1 {
        s[0]
    } else if s.last() > seq_max(s.drop_last()) {
        s.last()
    } else {
        seq_max(s.drop_last())
    }
}

/// The indices a draw of `count` reads: exactly the first `count` entries of
/// the index buffer the bound vertex array owns, as uploaded.
pub open spec fn draw_used_indices(v: GlView, count: int) -> Seq<u32> {
    v.index_buffers[v.vertex_arrays[v.bound_vertex_array].ebo].take(count)
}

/// The x positions a draw of `count` indices reads, in index order.
pub open spec fn draw_xs(v: GlView, count: int) -> Seq<int> {
    let vao = v.vertex_arrays[v.bound_vertex_array];
    Seq::new(
        count as nat,
        |i: int| pos_x(
            v.array_buffers[vao.vbo],
            vao.attribs[0],
            draw_used_indices(v, count)[i] as int,
        ),
    )
}

/// The y positions a draw of `count` indices reads, in index order.
pub open spec fn draw_ys(v: GlView, count: int) -> Seq<int> {
    let vao = v.vertex_arrays[v.bound_vertex_array];
    Seq::new(
        count as nat,
        |i: int| pos_y(
            v.array_buffers[vao.vbo],
            vao.attribs[0],
            draw_used_indices(v, count)[i] as int,
        ),
    )
}

/// The caller contract of an indexed draw: a program in use, an indexed
/// vertex array bound, a position attribute at slot 0 (two unsigned 32-bit
/// components), and every index the draw names reading vertex data that lies
/// inside the vertex buffer.
pub open spec fn can_draw(v: GlView, count: int) -> bool {
    &&& v.wf()
    &&& v.programs.contains_key(v.current_program)
    &&& v.vertex_arrays.contains_key(v.bound_vertex_array)
    &&& {
        let vao = v.vertex_arrays[v.bound_vertex_array];
        &&& v.array_buffers.contains_key(vao.vbo)
        &&& vao.ebo != 0
        &&& v.index_buffers.contains_key(vao.ebo)
        &&& count <= v.index_buffers[vao.ebo].len()
        &&& vao.attribs.len() >= 1
        &&& vao.attribs[0].location == 0
        &&& vao.attribs[0].ty is UnsignedInt
        &&& vao.attribs[0].len == 2
        &&& forall|i: int|
            0 <= i < count ==> pos_base(
                vao.attribs[0],
                #[trigger] v.index_buffers[vao.ebo][i] as int,
            ) + 8 <= v.array_buffers[vao.vbo].len()
    }
}

/// Extending the scanned prefix by one element updates its running min and
/// max in the obvious way.
proof fn lemma_minmax_extend(s: Seq<int>, i: int)
    requires
        1 <= i < s.len(),
    ensures
        seq_min(s.take(i + 1)) == if s[i] < seq_min(s.take(i)) {
            s[i]
        } else {
            seq_min(s.take(i))
        },
        seq_max(s.take(i + 1)) == if s[i] > seq_max(s.take(i)) {
            s[i]
        } else {
            seq_max(s.take(i))
        },
{
    assert(s.take(i + 1).drop_last() =~= s.take(i));
    assert(s.take(i + 1).last() == s[i]);
}

/// A non-empty sequence's least element is at most its greatest.
proof fn lemma_min_le_max(s: Seq<int>)
    requires
        s.len() >= 1,
    ensures
        seq_min(s) <= seq_max(s),
    decreases s.len(),
{
    if s.len() > 1 {
        lemma_min_le_max(s.drop_last());
    }
}

/// The unsigned 32-bit value at byte offset `o`, little-endian.
fn le_u32(data: &Vec<u8>, o: usize) -> (v: u32)
    requires
        o + 4 <= data@.len(),
    ensures
        v == le_u32_at(data@, o as int),
{
    // Binds the byte count to a machine word, so that the index arithmetic
    // below is known not to wrap.
    let _n: usize = data.len();
    (data[o] as u32) + 256 * (data[o + 1] as u32) + 65536 * (data[o + 2] as u32) + 16777216 * (data[
        o + 3] as u32)
}

impl GlContext {
    /// Draws `count` indices from the bound indexed vertex array with the
    /// program in use: the axis-aligned rectangle spanned by the referenced
    /// positions — left and top edges inclusive, right and bottom exclusive,
    /// clipped to the framebuffer — takes the program's constant color, and
    /// every other pixel keeps its value. A draw of 0 indices changes
    /// nothing. Only the framebuffer changes: no object and no binding.
    pub fn draw_elements(&mut self, count: usize)
        requires
            can_draw(old(self)@, count as int),
        ensures
            final(self)@ == (GlView { framebuffer: final(self)@.framebuffer, ..old(self)@ }),
            final(self)@.framebuffer.len() == old(self)@.framebuffer.len(),
            count == 0 ==> final(self)@.framebuffer == old(self)@.framebuffer,
            count >= 1 ==> ({
                let xs = draw_xs(old(self)@, count as int);
                let ys = draw_ys(old(self)@, count as int);
                let fill = old(self)@.programs[old(self)@.current_program];
                forall|px: int, py: int|
                    0 <= px < old(self)@.fb_width && 0 <= py < old(self)@.fb_height
                        ==> #[trigger] pixel_at(final(self)@, px, py) == (if seq_min(xs) <= px
                        < seq_max(xs) && seq_min(ys) <= py < seq_max(ys) {
                        fill
                    } else {
                        pixel_at(old(self)@, px, py)
                    })
            }),
    {
        if count == 0 {
            return ;
        }
        proof {
            lemma_view(*old(self));
        }
        let ghost v0 = self@;
        let ghost xs = draw_xs(v0, count as int);
        let ghost ys = draw_ys(v0, count as int);
        let vao_id = self.bound_vertex_array;
        let vao = self.vertex_arrays.get(vao_id).unwrap();
        let attr = vao.attribs[0];
        let vbo = vao.vbo;
        let ebo = vao.ebo;
        let fill = *self.programs.get(self.current_program).unwrap();
        let idx = self.index_buffers.get(ebo).unwrap();
        let data = self.array_buffers.get(vbo).unwrap();
        proof {
            assert(v0.vertex_arrays[v0.bound_vertex_array].attribs[0] == attr);
            assert(data@ == v0.array_buffers[vbo]);
            assert(idx@ == v0.index_buffers[ebo]);
        }
        let estride: usize = if attr.stride == 0 {
            8
        } else {
            attr.stride as usize
        };
        let dlen = data.len();
        let v0i = idx[0] as usize;
        proof {
            assert(pos_base(attr, idx@[0] as int) + 8 <= dlen);
        }
        let base0: usize = (attr.offset as usize) + v0i * estride;
        let mut minx = le_u32(data, base0);
        let mut maxx = minx;
        let mut miny = le_u32(data, base0 + 4);
        let mut maxy = miny;
        proof {
            assert(xs.take(1).len() == 1);
            assert(xs.take(1)[0] == xs[0]);
            assert(seq_min(xs.take(1)) == xs[0]);
            assert(seq_max(xs.take(1)) == xs[0]);
            assert(ys.take(1)[0] == ys[0]);
            assert(seq_min(ys.take(1)) == ys[0]);
            assert(seq_max(ys.take(1)) == ys[0]);
        }
        let mut i: usize = 1;
        while i < count
            invariant
                1 <= i <= count,
                count <= idx@.len(),
                dlen == data@.len(),
                can_draw(v0, count as int),
                v0 == self@,
                v0.vertex_arrays[v0.bound_vertex_array].attribs[0] == attr,
                data@ == v0.array_buffers[v0.vertex_arrays[v0.bound_vertex_array].vbo],
                idx@ == v0.index_buffers[v0.vertex_arrays[v0.bound_vertex_array].ebo],
                estride == effective_stride(attr),
                xs == draw_xs(v0, count as int),
                ys == draw_ys(v0, count as int),
                minx == seq_min(xs.take(i as int)),
                maxx == seq_max(xs.take(i as int)),
                miny == seq_min(ys.take(i as int)),
                maxy == seq_max(ys.take(i as int)),
            decreases count - i,
        {
            let vi = idx[i] as usize;
            proof {
                assert(pos_base(attr, idx@[i as int] as int) + 8 <= dlen);
            }
            let base: usize = (attr.offset as usize) + vi * estride;
            let x = le_u32(data, base);
            let y = le_u32(data, base + 4);
            proof {
                assert(x == xs[i as int]);
                assert(y == ys[i as int]);
                lemma_minmax_extend(xs, i as int);
                lemma_minmax_extend(ys, i as int);
            }
            if x < minx {
                minx = x;
            }
            if x > maxx {
                maxx = x;
            }
            if y < miny {
                miny = y;
            }
            if y > maxy {
                maxy = y;
            }
            i = i + 1;
        }
        proof {
            assert(xs.take(count as int) =~= xs);
            assert(ys.take(count as int) =~= ys);
        }
        let ghost x0 = seq_min(xs);
        let ghost x1 = seq_max(xs);
        let ghost y0 = seq_min(ys);
        let ghost y1 = seq_max(ys);
        let w = self.fb_width;
        let h = self.fb_height;
        proof {
            lemma_dims_bound(w as int, h as int);
            lemma_min_le_max(xs);
            lemma_min_le_max(ys);
        }
        let mut y = miny;
        while y < maxy && y < h
            invariant
                v0.wf(),
                w == v0.fb_width,
                h == v0.fb_height,
                x0 == seq_min(xs),
                x1 == seq_max(xs),
                y0 == seq_min(ys),
                y1 == seq_max(ys),
                minx == x0,
                maxx == x1,
                miny == y0,
                maxy == y1,
                y0 <= y,
                self.framebuffer@.len() == v0.framebuffer.len(),
                self.fb_width == v0.fb_width,
                self.fb_height == v0.fb_height,
                self.shaders == old(self).shaders,
                self.programs == old(self).programs,
                self.array_buffers == old(self).array_buffers,
                self.index_buffers == old(self).index_buffers,
                self.vertex_arrays == old(self).vertex_arrays,
                self.textures == old(self).textures,
                self.bound_array_buffer == old(self).bound_array_buffer,
                self.bound_vertex_array == old(self).bound_vertex_array,
                self.current_program == old(self).current_program,
                self.active_unit == old(self).active_unit,
                self.bound_texture == old(self).bound_texture,
                self.clear_color == old(self).clear_color,
                forall|px: int, py: int|
                    0 <= px < w && 0 <= py < h ==> #[trigger] pixel_at(self@, px, py) == (if x0
                        <= px < x1 && y0 <= py < y1 && py < y {
                        fill
                    } else {
                        pixel_at(v0, px, py)
                    }),
            decreases y1 - y,
        {
            let mut x = minx;
            while x < maxx && x < w
                invariant
                    v0.wf(),
                    w == v0.fb_width,
                    h == v0.fb_height,
                    y < h,
                    y0 <= y < y1,
                    x0 <= x,
                    x <= x1,
                    minx == x0,
                    maxx == x1,
                    miny == y0,
                    maxy == y1,
                    self.framebuffer@.len() == v0.framebuffer.len(),
                    self.fb_width == v0.fb_width,
                    self.fb_height == v0.fb_height,
                    self.shaders == old(self).shaders,
                    self.programs == old(self).programs,
                    self.array_buffers == old(self).array_buffers,
                    self.index_buffers == old(self).index_buffers,
                    self.vertex_arrays == old(self).vertex_arrays,
                    self.textures == old(self).textures,
                    self.bound_array_buffer == old(self).bound_array_buffer,
                    self.bound_vertex_array == old(self).bound_vertex_array,
                    self.current_program == old(self).current_program,
                    self.active_unit == old(self).active_unit,
                    self.bound_texture == old(self).bound_texture,
                    self.clear_color == old(self).clear_color,
                    forall|px: int, py: int|
                        0 <= px < w && 0 <= py < h ==> #[trigger] pixel_at(self@, px, py) == (if (
                        x0 <= px < x1 && y0 <= py < y1 && py < y) || (py == y && x0 <= px < x && y0
                            <= py < y1) {
                            fill
                        } else {
                            pixel_at(v0, px, py)
                        }),
                decreases x1 - x,
            {
                proof {
                    lemma_row_major_in_bounds(w as int, h as int, x as int, y as int);
                    lemma_dims_bound(w as int, h as int);
                }
                proof {
                    lemma_view(*self);
                }
                let p: usize = (y as usize) * (w as usize) + (x as usize);
                let ghost pre = self@;
                self.framebuffer.set(p, fill);
                proof {
                    lemma_view(*self);
                    assert(self@.framebuffer == pre.framebuffer.update(p as int, fill));
                    assert forall|px: int, py: int| 0 <= px < w && 0 <= py < h implies #[trigger]
                    pixel_at(self@, px, py) == (if (x0 <= px < x1 && y0 <= py < y1 && py < y) || (py
                        == y && x0 <= px < x + 1 && y0 <= py < y1) {
                        fill
                    } else {
                        pixel_at(v0, px, py)
                    }) by {
                        lemma_row_major_in_bounds(w as int, h as int, px, py);
                        if py * (w as int) + px == (y as int) * (w as int) + (x as int) {
                            lemma_row_major_injective(w as int, px, py, x as int, y as int);
                        } else {
                            assert(pixel_at(self@, px, py) == pixel_at(pre, px, py));
                        }
                    }
                }
                x = x + 1;
            }
            proof {
                assert forall|px: int, py: int| 0 <= px < w && 0 <= py < h implies #[trigger]
                pixel_at(self@, px, py) == (if x0 <= px < x1 && y0 <= py < y1 && py < y + 1 {
                    fill
                } else {
                    pixel_at(v0, px, py)
                }) by {
                }
            }
            y = y + 1;
        }
        proof {
            lemma_view(*old(self));
            lemma_view(*self);
            assert(self@ =~~= (GlView { framebuffer: self@.framebuffer, ..old(self)@ }));
            assert forall|px: int, py: int| 0 <= px < old(self)@.fb_width && 0 <= py < old(
                self,
            )@.fb_height implies #[trigger] pixel_at(self@, px, py) == (if x0 <= px < x1 && y0 <= py
                < y1 {
                fill
            } else {
                pixel_at(old(self)@, px, py)
            }) by {
            }
        }
    }
}

/// A draw that uses an indexed array's own index count reads back exactly
/// the indices that were uploaded to it: the round trip from `create_indexed`
/// through the index buffer to the draw is the identity.
pub proof fn lemma_indexed_draw_round_trip(v: GlView, uploaded: Seq<u32>)
    requires
        v.vertex_arrays.contains_key(v.bound_vertex_array),
        v.index_buffers.contains_key(v.vertex_arrays[v.bound_vertex_array].ebo),
        v.index_buffers[v.vertex_arrays[v.bound_vertex_array].ebo] == uploaded,
    ensures
        draw_used_indices(v, uploaded.len() as int) == uploaded,
{
    assert(draw_used_indices(v, uploaded.len() as int) =~= uploaded);
}

} // verus!

