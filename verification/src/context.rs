//! The rendering context, modelled as explicit state.
//!
//! A real GL context is global, hidden state behind FFI calls; every call of
//! the framework reads or writes it. The model makes that state a value:
//! the live objects of each class, the current bindings, and the default
//! framebuffer. Contracts over [`GlView`] then say exactly what each call
//! allocates, frees, binds and draws — the "current binding" contract that
//! the underlying API leaves implicit.

use vstd::prelude::*;

use crate::color::Rgba;
use crate::shaders::ShaderRecord;
use crate::store::Store;
use crate::textures::{TexRecord, TexView};
use crate::vao::{VaoRecord, VaoView};

verus! {

/// The largest framebuffer or texture dimension the model accepts, as a
/// platform would cap `GL_MAX_TEXTURE_SIZE` and the viewport dimensions.
pub const MAX_DIM: u32 = 16384;

/// The number of texture units the model provides, as a platform would cap
/// `GL_MAX_COMBINED_TEXTURE_IMAGE_UNITS`.
pub const MAX_TEXTURE_UNITS: u32 = 32;

/// The whole context state, as contracts see it.
///
/// Each object class maps live names to their recorded state; the `next_*`
/// counters say which name the class allocates next (names count up from 1,
/// and 0 is never a live name). The binding fields hold the name currently
/// bound to each binding point, 0 for none.
#[verifier::ext_equal]
pub ghost struct GlView {
    /// Live shader objects.
    pub shaders: Map<u32, ShaderRecord>,
    /// Live linked programs: each maps to the constant output color of its
    /// fragment stage.
    pub programs: Map<u32, Rgba>,
    /// Live vertex buffers: raw bytes, as uploaded.
    pub array_buffers: Map<u32, Seq<u8>>,
    /// Live index buffers: unsigned indices, as uploaded.
    pub index_buffers: Map<u32, Seq<u32>>,
    /// Live vertex array objects.
    pub vertex_arrays: Map<u32, VaoView>,
    /// Live texture objects.
    pub textures: Map<u32, TexView>,
    pub next_shader: int,
    pub next_program: int,
    pub next_array_buffer: int,
    pub next_index_buffer: int,
    pub next_vertex_array: int,
    pub next_texture: int,
    /// The buffer bound to the vertex-buffer binding point.
    pub bound_array_buffer: u32,
    /// The vertex array currently bound.
    pub bound_vertex_array: u32,
    /// The program draws use.
    pub current_program: u32,
    /// The active texture unit.
    pub active_unit: u32,
    /// The texture bound to the 2D target of the active unit.
    pub bound_texture: u32,
    pub fb_width: u32,
    pub fb_height: u32,
    /// The default framebuffer, row-major: the pixel at (x, y) is entry
    /// `y * fb_width + x`.
    pub framebuffer: Seq<Rgba>,
    /// The color `clear` fills with.
    pub clear_color: Rgba,
}

impl GlView {
    /// The framebuffer always holds exactly width * height pixels, and the
    /// dimensions stay within the platform limit.
    pub open spec fn wf(&self) -> bool {
        &&& self.framebuffer.len() == self.fb_width as int * self.fb_height as int
        &&& 1 <= self.fb_width <= MAX_DIM
        &&& 1 <= self.fb_height <= MAX_DIM
    }
}

/// The framebuffer pixel at column `x` of row `y`.
pub open spec fn pixel_at(v: GlView, x: int, y: int) -> Rgba {
    v.framebuffer[y * v.fb_width as int + x]
}

/// A rendering context: all GPU-resident state the framework touches.
pub struct GlContext {
    pub(crate) shaders: Store<ShaderRecord>,
    pub(crate) programs: Store<Rgba>,
    pub(crate) array_buffers: Store<Vec<u8>>,
    pub(crate) index_buffers: Store<Vec<u32>>,
    pub(crate) vertex_arrays: Store<VaoRecord>,
    pub(crate) textures: Store<TexRecord>,
    pub(crate) bound_array_buffer: u32,
    pub(crate) bound_vertex_array: u32,
    pub(crate) current_program: u32,
    pub(crate) active_unit: u32,
    pub(crate) bound_texture: u32,
    pub(crate) fb_width: u32,
    pub(crate) fb_height: u32,
    pub(crate) framebuffer: Vec<Rgba>,
    pub(crate) clear_color: Rgba,
}

impl GlContext {
    /// The view, spelled out field by field; crate-internal so that the
    /// modules built on the context can relate their updates to it.
    pub(crate) open spec fn internal_view(&self) -> GlView {
        GlView {
            shaders: self.shaders@,
            programs: self.programs@,
            array_buffers: Map::new(
                |id: u32| self.array_buffers@.contains_key(id),
                |id: u32| self.array_buffers@[id]@,
            ),
            index_buffers: Map::new(
                |id: u32| self.index_buffers@.contains_key(id),
                |id: u32| self.index_buffers@[id]@,
            ),
            vertex_arrays: Map::new(
                |id: u32| self.vertex_arrays@.contains_key(id),
                |id: u32| VaoView {
                    attribs: self.vertex_arrays@[id].attribs@,
                    vbo: self.vertex_arrays@[id].vbo,
                    ebo: self.vertex_arrays@[id].ebo,
                },
            ),
            textures: Map::new(
                |id: u32| self.textures@.contains_key(id),
                |id: u32| TexView {
                    unit: self.textures@[id].unit,
                    width: self.textures@[id].width,
                    height: self.textures@[id].height,
                    pixels: self.textures@[id].pixels@,
                    params: self.textures@[id].params,
                },
            ),
            next_shader: self.shaders.next_name(),
            next_program: self.programs.next_name(),
            next_array_buffer: self.array_buffers.next_name(),
            next_index_buffer: self.index_buffers.next_name(),
            next_vertex_array: self.vertex_arrays.next_name(),
            next_texture: self.textures.next_name(),
            bound_array_buffer: self.bound_array_buffer,
            bound_vertex_array: self.bound_vertex_array,
            current_program: self.current_program,
            active_unit: self.active_unit,
            bound_texture: self.bound_texture,
            fb_width: self.fb_width,
            fb_height: self.fb_height,
            framebuffer: self.framebuffer@,
            clear_color: self.clear_color,
        }
    }
}

impl View for GlContext {
    type V = GlView;

    closed spec fn view(&self) -> GlView {
        self.internal_view()
    }
}

/// The public view of a context is its field-wise view. Crate-internal: the
/// modules built on the context open their proofs with it.
pub(crate) proof fn lemma_view(gl: GlContext)
    ensures
        gl@ == gl.internal_view(),
{
}

impl GlContext {
    /// A fresh context with a `width` by `height` default framebuffer: no
    /// live objects, nothing bound, everything cleared to transparent black.
    pub fn new(width: u32, height: u32) -> (gl: GlContext)
        requires
            1 <= width <= MAX_DIM,
            1 <= height <= MAX_DIM,
        ensures
            gl@ == (GlView {
                shaders: Map::empty(),
                programs: Map::empty(),
                array_buffers: Map::empty(),
                index_buffers: Map::empty(),
                vertex_arrays: Map::empty(),
                textures: Map::empty(),
                next_shader: 1,
                next_program: 1,
                next_array_buffer: 1,
                next_index_buffer: 1,
                next_vertex_array: 1,
                next_texture: 1,
                bound_array_buffer: 0,
                bound_vertex_array: 0,
                current_program: 0,
                active_unit: 0,
                bound_texture: 0,
                fb_width: width,
                fb_height: height,
                framebuffer: Seq::new(
                    (width * height) as nat,
                    |i: int| (Rgba { r: 0, g: 0, b: 0, a: 0 }),
                ),
                clear_color: (Rgba { r: 0, g: 0, b: 0, a: 0 }),
            }),
            gl@.wf(),
    {
        proof {
            lemma_dims_bound(width as int, height as int);
        }
        let n: usize = (width as usize) * (height as usize);
        let mut framebuffer: Vec<Rgba> = Vec::new();
        let mut p: usize = 0;
        while p < n
            invariant
                p <= n,
                framebuffer@.len() == p,
                forall|q: int|
                    0 <= q < p ==> framebuffer@[q] == (Rgba { r: 0, g: 0, b: 0, a: 0 }),
            decreases n - p,
        {
            framebuffer.push(Rgba { r: 0, g: 0, b: 0, a: 0 });
            p = p + 1;
        }
        let gl = GlContext {
            shaders: Store::new(),
            programs: Store::new(),
            array_buffers: Store::new(),
            index_buffers: Store::new(),
            vertex_arrays: Store::new(),
            textures: Store::new(),
            bound_array_buffer: 0,
            bound_vertex_array: 0,
            current_program: 0,
            active_unit: 0,
            bound_texture: 0,
            fb_width: width,
            fb_height: height,
            framebuffer,
            clear_color: Rgba { r: 0, g: 0, b: 0, a: 0 },
        };
        proof {
            assert(gl@.framebuffer =~= Seq::new(
                (width * height) as nat,
                |i: int| (Rgba { r: 0, g: 0, b: 0, a: 0 }),
            ));
            assert(gl@.array_buffers =~= Map::<u32, Seq<u8>>::empty());
            assert(gl@.index_buffers =~= Map::<u32, Seq<u32>>::empty());
            assert(gl@.vertex_arrays =~= Map::<u32, VaoView>::empty());
            assert(gl@.textures =~= Map::<u32, TexView>::empty());
            assert(gl@ =~~= (GlView {
                shaders: Map::empty(),
                programs: Map::empty(),
                array_buffers: Map::empty(),
                index_buffers: Map::empty(),
                vertex_arrays: Map::empty(),
                textures: Map::empty(),
                next_shader: 1,
                next_program: 1,
                next_array_buffer: 1,
                next_index_buffer: 1,
                next_vertex_array: 1,
                next_texture: 1,
                bound_array_buffer: 0,
                bound_vertex_array: 0,
                current_program: 0,
                active_unit: 0,
                bound_texture: 0,
                fb_width: width,
                fb_height: height,
                framebuffer: Seq::new(
                    (width * height) as nat,
                    |i: int| (Rgba { r: 0, g: 0, b: 0, a: 0 }),
                ),
                clear_color: (Rgba { r: 0, g: 0, b: 0, a: 0 }),
            }));
        }
        gl
    }

    /// Sets the color `clear` will fill with. Nothing else changes.
    pub fn set_clear_color(&mut self, c: Rgba)
        ensures
            final(self)@ == (GlView { clear_color: c, ..old(self)@ }),
    {
        self.clear_color = c;
    }

    /// Fills the whole framebuffer with the clear color. Nothing else
    /// changes.
    pub fn clear(&mut self)
        ensures
            final(self)@ == (GlView {
                framebuffer: Seq::new(
                    old(self)@.framebuffer.len(),
                    |i: int| old(self)@.clear_color,
                ),
                ..old(self)@
            }),
    {
        let n = self.framebuffer.len();
        let mut p: usize = 0;
        while p < n
            invariant
                p <= n,
                self.framebuffer@.len() == n,
                self.clear_color == old(self)@.clear_color,
                forall|q: int| 0 <= q < p ==> self.framebuffer@[q] == old(self)@.clear_color,
                forall|q: int| p <= q < n ==> self.framebuffer@[q] == old(self)@.framebuffer[q],
                self.shaders == old(self).shaders,
                self.programs == old(self).programs,
                self.array_buffers == old(self).array_buffers,
                self.index_buffers == old(self).index_buffers,
                self.vertex_arrays == old(self).vertex_arrays,
                self.textures == old(self).textures,
                self.bound_array_buffer == old(self).bound_array_buffer,
                self.bound_vertex_array == old(self).bound_vertex_array,
                self.current_program == old(self).current_program,
                self.active_unit == old(self).active_unit,
                self.bound_texture == old(self).bound_texture,
                self.fb_width == old(self).fb_width,
                self.fb_height == old(self).fb_height,
            decreases n - p,
        {
            let c = self.clear_color;
            self.framebuffer.set(p, c);
            p = p + 1;
        }
        proof {
            assert(self@.framebuffer =~= Seq::new(
                old(self)@.framebuffer.len(),
                |i: int| old(self)@.clear_color,
            ));
            assert(self@ =~~= (GlView {
                framebuffer: Seq::new(
                    old(self)@.framebuffer.len(),
                    |i: int| old(self)@.clear_color,
                ),
                ..old(self)@
            }));
        }
    }

    /// Makes `id` the program draws use; 0 unbinds. Using a name that is not
    /// a live linked program is a caller contract violation, as with the
    /// underlying API.
    pub fn use_program(&mut self, id: u32)
        requires
            id == 0 || old(self)@.programs.contains_key(id),
        ensures
            final(self)@ == (GlView { current_program: id, ..old(self)@ }),
    {
        self.current_program = id;
    }

    /// Binds the vertex array `id`; 0 unbinds. Binding a name that is not a
    /// live vertex array is a caller contract violation.
    pub fn bind_vertex_array(&mut self, id: u32)
        requires
            id == 0 || old(self)@.vertex_arrays.contains_key(id),
        ensures
            final(self)@ == (GlView { bound_vertex_array: id, ..old(self)@ }),
    {
        self.bound_vertex_array = id;
    }

    /// Makes `unit` the active texture unit and binds `id` to its 2D target;
    /// 0 unbinds. Binding state is global and never restored, so a caller
    /// whose draw depends on texture state re-binds before that draw.
    /// Binding a name that is not a live texture, or naming a unit the
    /// platform does not have, is a caller contract violation.
    pub fn bind_texture(&mut self, unit: u32, id: u32)
        requires
            unit < MAX_TEXTURE_UNITS,
            id == 0 || old(self)@.textures.contains_key(id),
        ensures
            final(self)@ == (GlView { active_unit: unit, bound_texture: id, ..old(self)@ }),
    {
        self.active_unit = unit;
        self.bound_texture = id;
    }

    /// Reads one pixel back from the default framebuffer.
    pub fn read_pixel(&self, x: u32, y: u32) -> (c: Rgba)
        requires
            self@.wf(),
            x < self@.fb_width,
            y < self@.fb_height,
        ensures
            c == pixel_at(self@, x as int, y as int),
    {
        proof {
            lemma_row_major_in_bounds(self@.fb_width as int, self@.fb_height as int, x as int, y as int);
            lemma_dims_bound(self@.fb_width as int, self@.fb_height as int);
        }
        let p: usize = (y as usize) * (self.fb_width as usize) + (x as usize);
        self.framebuffer[p]
    }

    /// Whether `id` names a live shader object.
    pub fn is_shader(&self, id: u32) -> (r: bool)
        ensures
            r == self@.shaders.contains_key(id),
    {
        self.shaders.get(id).is_some()
    }

    /// Whether `id` names a live program object.
    pub fn is_program(&self, id: u32) -> (r: bool)
        ensures
            r == self@.programs.contains_key(id),
    {
        self.programs.get(id).is_some()
    }

    /// Whether `id` names a live vertex buffer.
    pub fn is_array_buffer(&self, id: u32) -> (r: bool)
        ensures
            r == self@.array_buffers.contains_key(id),
    {
        self.array_buffers.get(id).is_some()
    }

    /// Whether `id` names a live index buffer.
    pub fn is_index_buffer(&self, id: u32) -> (r: bool)
        ensures
            r == self@.index_buffers.contains_key(id),
    {
        self.index_buffers.get(id).is_some()
    }

    /// Whether `id` names a live vertex array object.
    pub fn is_vertex_array(&self, id: u32) -> (r: bool)
        ensures
            r == self@.vertex_arrays.contains_key(id),
    {
        self.vertex_arrays.get(id).is_some()
    }

    /// Whether `id` names a live texture object.
    pub fn is_texture(&self, id: u32) -> (r: bool)
        ensures
            r == self@.textures.contains_key(id),
    {
        self.textures.get(id).is_some()
    }

    /// How many attribute slots a vertex array has enabled.
    pub fn attrib_count(&self, vao: u32) -> (n: usize)
        requires
            self@.vertex_arrays.contains_key(vao),
        ensures
            n == self@.vertex_arrays[vao].attribs.len(),
    {
        let record = self.vertex_arrays.get(vao).unwrap();
        record.attribs.len()
    }

    /// Reads one enabled attribute slot back, exactly as configured.
    pub fn get_attrib(&self, vao: u32, slot: usize) -> (a: crate::vao::VertexAttribPointer)
        requires
            self@.vertex_arrays.contains_key(vao),
            slot < self@.vertex_arrays[vao].attribs.len(),
        ensures
            a == self@.vertex_arrays[vao].attribs[slot as int],
    {
        let record = self.vertex_arrays.get(vao).unwrap();
        record.attribs[slot]
    }

    /// Reads a texture's sampling parameters back, exactly as applied at
    /// creation.
    pub fn texture_params(&self, id: u32) -> (p: crate::textures::Texture2dParams)
        requires
            self@.textures.contains_key(id),
        ensures
            p == self@.textures[id].params,
    {
        let record = self.textures.get(id).unwrap();
        record.params
    }

    /// The unit a texture was associated with at creation.
    pub fn texture_unit(&self, id: u32) -> (u: u32)
        requires
            self@.textures.contains_key(id),
        ensures
            u == self@.textures[id].unit,
    {
        let record = self.textures.get(id).unwrap();
        record.unit
    }

    /// A texture's dimensions in pixels, width then height.
    pub fn texture_size(&self, id: u32) -> (s: (u32, u32))
        requires
            self@.textures.contains_key(id),
        ensures
            s.0 == self@.textures[id].width,
            s.1 == self@.textures[id].height,
    {
        let record = self.textures.get(id).unwrap();
        (record.width, record.height)
    }

    /// A copy of an index buffer's contents, as a draw call would read them.
    pub fn read_index_buffer(&self, id: u32) -> (r: Vec<u32>)
        requires
            self@.index_buffers.contains_key(id),
        ensures
            r@ == self@.index_buffers[id],
    {
        let data = self.index_buffers.get(id).unwrap();
        vstd::slice::slice_to_vec(data.as_slice())
    }
}

/// Row-major indexing stays inside a width * height framebuffer.
#[verifier::nonlinear]
pub proof fn lemma_row_major_in_bounds(w: int, h: int, x: int, y: int)
    requires
        0 <= x < w,
        0 <= y < h,
    ensures
        0 <= y * w + x < w * h,
        y * w <= (h - 1) * w,
{
}

/// Row-major indexing is injective: two distinct in-bounds pixels never share
/// a framebuffer entry.
#[verifier::nonlinear]
pub proof fn lemma_row_major_injective(w: int, x1: int, y1: int, x2: int, y2: int)
    requires
        0 <= x1 < w,
        0 <= x2 < w,
        y1 >= 0,
        y2 >= 0,
        y1 * w + x1 == y2 * w + x2,
    ensures
        x1 == x2 && y1 == y2,
{
}

/// The pixel count of bounded dimensions fits comfortably in 32 bits.
#[verifier::nonlinear]
pub proof fn lemma_dims_bound(w: int, h: int)
    requires
        0 <= w <= MAX_DIM,
        0 <= h <= MAX_DIM,
    ensures
        0 <= w * h <= 0x10000000,
{
}

} // verus!
