//! Texture upload, against the model context.
//!
//! A texture is one decoded RGBA image resource bound to a texture unit,
//! with sampling parameters fixed at creation. The image itself arrives
//! already decoded — decoding is an outside collaborator's job — as plain
//! bytes with their dimensions.

use vstd::prelude::*;

use crate::color::Rgba;
use crate::context::{GlContext, GlView, MAX_DIM, MAX_TEXTURE_UNITS};

verus! {

/// How sampling outside [0, 1] wraps along one texture axis.
#[derive(Clone, Copy, Debug, PartialEq, Eq, Structural)]
pub enum WrapMode {
    Repeat,
    MirroredRepeat,
    ClampToEdge,
    ClampToBorder,
}

/// How samples between texels are filtered.
#[derive(Clone, Copy, Debug, PartialEq, Eq, Structural)]
pub enum FilterMode {
    Nearest,
    Linear,
}

/// Sampling parameters applied at texture creation.
#[derive(Clone, Copy, Debug, PartialEq, Eq, Structural)]
pub struct Texture2dParams {
    /// Wrap mode along the horizontal axis.
    pub s_mode: WrapMode,
    /// Wrap mode along the vertical axis.
    pub t_mode: WrapMode,
    /// Filter when the texture is minified.
    pub min_filter: FilterMode,
    /// Filter when the texture is magnified.
    pub mag_filter: FilterMode,
}

impl Default for Texture2dParams {
    /// The defaults a caller gets without overriding anything: repeat wrap on
    /// both axes, linear filtering in both directions.
    fn default() -> (d: Self)
        ensures
            d == (Texture2dParams {
                s_mode: WrapMode::Repeat,
                t_mode: WrapMode::Repeat,
                min_filter: FilterMode::Linear,
                mag_filter: FilterMode::Linear,
            }),
    {
        Texture2dParams {
            s_mode: WrapMode::Repeat,
            t_mode: WrapMode::Repeat,
            min_filter: FilterMode::Linear,
            mag_filter: FilterMode::Linear,
        }
    }
}

/// A decoded image, 8 bits per channel, RGBA order, rows top to bottom:
/// exactly what the upload call consumes.
pub struct ImageRgba8 {
    width: u32,
    height: u32,
    pixels: Vec<u8>,
}

impl ImageRgba8 {
    pub closed spec fn spec_width(&self) -> u32 {
        self.width
    }

    pub closed spec fn spec_height(&self) -> u32 {
        self.height
    }

    /// The raw bytes, 4 per pixel.
    pub closed spec fn spec_pixels(&self) -> Seq<u8> {
        self.pixels@
    }

    /// A well-formed image: dimensions within the platform limit and exactly
    /// four bytes per pixel.
    pub open spec fn wf(&self) -> bool {
        &&& self.spec_width() <= MAX_DIM
        &&& self.spec_height() <= MAX_DIM
        &&& self.spec_pixels().len() == 4 * (self.spec_width() as int * self.spec_height() as int)
    }

    /// Wraps already-decoded bytes; `None` when the buffer does not hold
    /// exactly `4 * width * height` bytes or a dimension is over the limit.
    pub fn from_raw(width: u32, height: u32, pixels: Vec<u8>) -> (r: Option<ImageRgba8>)
        ensures
            match r {
                Some(img) => {
                    &&& img.wf()
                    &&& img.spec_width() == width
                    &&& img.spec_height() == height
                    &&& img.spec_pixels() == pixels@
                },
                None => !(width <= MAX_DIM && height <= MAX_DIM && pixels@.len() == 4 * (
                width as int * height as int)),
            },
    {
        if width <= MAX_DIM && height <= MAX_DIM {
            proof {
                crate::context::lemma_dims_bound(width as int, height as int);
            }
            let n: usize = (width as usize) * (height as usize);
            let expected: usize = 4 * n;
            if pixels.len() == expected {
                return Some(ImageRgba8 { width, height, pixels });
            }
        }
        None
    }

    pub fn width(&self) -> (w: u32)
        ensures
            w == self.spec_width(),
    {
        self.width
    }

    pub fn height(&self) -> (h: u32)
        ensures
            h == self.spec_height(),
    {
        self.height
    }

    /// A copy of the raw bytes.
    pub fn to_bytes(&self) -> (b: Vec<u8>)
        ensures
            b@ == self.spec_pixels(),
    {
        vstd::slice::slice_to_vec(self.pixels.as_slice())
    }

    /// An image of one solid color.
    pub fn solid(width: u32, height: u32, c: Rgba) -> (img: ImageRgba8)
        requires
            width <= MAX_DIM,
            height <= MAX_DIM,
        ensures
            img.wf(),
            img.spec_width() == width,
            img.spec_height() == height,
            forall|p: int|
                0 <= p < width * height ==> {
                    &&& #[trigger] img.spec_pixels()[4 * p] == c.r
                    &&& img.spec_pixels()[4 * p + 1] == c.g
                    &&& img.spec_pixels()[4 * p + 2] == c.b
                    &&& img.spec_pixels()[4 * p + 3] == c.a
                },
    {
        proof {
            crate::context::lemma_dims_bound(width as int, height as int);
        }
        let n: usize = (width as usize) * (height as usize);
        let mut pixels: Vec<u8> = Vec::new();
        let mut p: usize = 0;
        while p < n
            invariant
                p <= n,
                n == width * height,
                width <= MAX_DIM,
                height <= MAX_DIM,
                pixels@.len() == 4 * p,
                forall|q: int|
                    0 <= q < p ==> {
                        &&& #[trigger] pixels@[4 * q] == c.r
                        &&& pixels@[4 * q + 1] == c.g
                        &&& pixels@[4 * q + 2] == c.b
                        &&& pixels@[4 * q + 3] == c.a
                    },
            decreases n - p,
        {
            let ghost pre = pixels@;
            pixels.push(c.r);
            pixels.push(c.g);
            pixels.push(c.b);
            pixels.push(c.a);
            proof {
                assert forall|q: int| 0 <= q < p + 1 implies {
                    &&& #[trigger] pixels@[4 * q] == c.r
                    &&& pixels@[4 * q + 1] == c.g
                    &&& pixels@[4 * q + 2] == c.b
                    &&& pixels@[4 * q + 3] == c.a
                } by {
                    if q < p {
                        assert(pre[4 * q] == c.r);
                        assert(pixels@[4 * q] == pre[4 * q]);
                        assert(pixels@[4 * q + 1] == pre[4 * q + 1]);
                        assert(pixels@[4 * q + 2] == pre[4 * q + 2]);
                        assert(pixels@[4 * q + 3] == pre[4 * q + 3]);
                    } else {
                        assert(pixels@[4 * q] == c.r);
                        assert(pixels@[4 * q + 1] == c.g);
                        assert(pixels@[4 * q + 2] == c.b);
                        assert(pixels@[4 * q + 3] == c.a);
                    }
                }
            }
            p = p + 1;
        }
        ImageRgba8 { width, height, pixels }
    }
}

/// What the context records for one live texture object.
#[verifier::ext_equal]
pub ghost struct TexView {
    /// The unit the texture was associated with at creation.
    pub unit: u32,
    pub width: u32,
    pub height: u32,
    /// The uploaded mip level 0, 4 bytes per pixel, RGBA order.
    pub pixels: Seq<u8>,
    /// The sampling parameters applied at creation.
    pub params: Texture2dParams,
}

/// The executable record behind [`TexView`].
pub(crate) struct TexRecord {
    pub(crate) unit: u32,
    pub(crate) width: u32,
    pub(crate) height: u32,
    pub(crate) pixels: Vec<u8>,
    pub(crate) params: Texture2dParams,
}

/// An owned handle to a texture object, recording the unit it was created
/// for. An id of 0 denotes "not yet created".
pub struct Texture2d {
    pub id: u32,
    pub unit: u32,
}

impl Default for Texture2d {
    fn default() -> (d: Self)
        ensures
            d.id == 0,
            d.unit == 0,
    {
        Texture2d { id: 0, unit: 0 }
    }
}

/// Everything `create_2d` needs: a decoded image, the unit to associate, and
/// the sampling parameters.
pub struct Texture2dDescriptor<'a> {
    /// The texture unit to bind during upload.
    pub unit: u32,
    /// The decoded image to upload as mip level 0.
    pub img: &'a ImageRgba8,
    /// Sampling parameters; `Texture2dParams::default()` unless overridden.
    pub params: &'a Texture2dParams,
}

/// Allocates a texture, uploads the full image as 8-bit-per-channel RGBA mip
/// level 0, and applies the sampling parameters, exactly as given.
///
/// As part of the upload, the descriptor's unit becomes the active unit and
/// the new texture is bound to its 2D target; a caller whose draw depends on
/// texture state re-binds before the draw, since binding state is global to
/// the context and never restored. Using a unit the platform does not have
/// is a caller contract violation, as with the underlying API.
pub fn create_2d(gl: &mut GlContext, desc: &Texture2dDescriptor) -> (t: Texture2d)
    requires
        old(gl)@.next_texture <= u32::MAX,
        desc.img.wf(),
        desc.unit < MAX_TEXTURE_UNITS,
    ensures
        t.id == old(gl)@.next_texture,
        t.id != 0,
        t.unit == desc.unit,
        !old(gl)@.textures.contains_key(t.id),
        final(gl)@ == (GlView {
            textures: old(gl)@.textures.insert(
                t.id,
                (TexView {
                    unit: desc.unit,
                    width: desc.img.spec_width(),
                    height: desc.img.spec_height(),
                    pixels: desc.img.spec_pixels(),
                    params: *desc.params,
                }),
            ),
            next_texture: old(gl)@.next_texture + 1,
            active_unit: desc.unit,
            bound_texture: t.id,
            ..old(gl)@
        }),
{
    proof {
        crate::context::lemma_view(*old(gl));
    }
    let record = TexRecord {
        unit: desc.unit,
        width: desc.img.width(),
        height: desc.img.height(),
        pixels: desc.img.to_bytes(),
        params: *desc.params,
    };
    let id = gl.textures.gen(record);
    gl.active_unit = desc.unit;
    gl.bound_texture = id;
    proof {
        crate::context::lemma_view(*gl);
        assert(gl@.textures =~= old(gl)@.textures.insert(
            id,
            (TexView {
                unit: desc.unit,
                width: desc.img.spec_width(),
                height: desc.img.spec_height(),
                pixels: desc.img.spec_pixels(),
                params: *desc.params,
            }),
        ));
        assert(gl@ =~~= (GlView {
            textures: old(gl)@.textures.insert(
                id,
                (TexView {
                    unit: desc.unit,
                    width: desc.img.spec_width(),
                    height: desc.img.spec_height(),
                    pixels: desc.img.spec_pixels(),
                    params: *desc.params,
                }),
            ),
            next_texture: old(gl)@.next_texture + 1,
            active_unit: desc.unit,
            bound_texture: id,
            ..old(gl)@
        }));
    }
    Texture2d { id, unit: desc.unit }
}

impl Texture2d {
    /// Deletes the texture object, as dropping the handle did with
    /// `glDeleteTextures`: exactly this one object leaves the context, and a
    /// 2D-target binding that pointed at it reverts to 0, as on the platform.
    pub fn delete(self, gl: &mut GlContext)
        requires
            old(gl)@.textures.contains_key(self.id),
        ensures
            final(gl)@ == (GlView {
                textures: old(gl)@.textures.remove(self.id),
                bound_texture: if old(gl)@.bound_texture == self.id {
                    0u32
                } else {
                    old(gl)@.bound_texture
                },
                ..old(gl)@
            }),
    {
        proof {
            crate::context::lemma_view(*old(gl));
        }
        let _ = gl.textures.free(self.id);
        if gl.bound_texture == self.id {
            gl.bound_texture = 0;
        }
        proof {
            crate::context::lemma_view(*gl);
            assert(gl@.textures =~= old(gl)@.textures.remove(self.id));
            assert(gl@ =~~= (GlView {
                textures: old(gl)@.textures.remove(self.id),
                bound_texture: if old(gl)@.bound_texture == self.id {
                    0u32
                } else {
                    old(gl)@.bound_texture
                },
                ..old(gl)@
            }));
        }
    }
}

} // verus!
