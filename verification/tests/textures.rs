//! Texture creation: defaults, overrides, and the one-object lifecycle.

use glkit::color::Rgba;
use glkit::context::GlContext;
use glkit::textures::{
    create_2d, FilterMode, ImageRgba8, Texture2d, Texture2dDescriptor, Texture2dParams, WrapMode,
};

#[test]
fn default_parameters_are_repeat_wrap_and_linear_filter() {
    let p = Texture2dParams::default();
    assert_eq!(p.s_mode, WrapMode::Repeat);
    assert_eq!(p.t_mode, WrapMode::Repeat);
    assert_eq!(p.min_filter, FilterMode::Linear);
    assert_eq!(p.mag_filter, FilterMode::Linear);
}

#[test]
fn creation_with_defaults_records_repeat_and_linear() {
    let mut gl = GlContext::new(8, 8);
    let img = ImageRgba8::solid(4, 4, Rgba { r: 9, g: 8, b: 7, a: 255 });
    let params = Texture2dParams::default();
    let tex = create_2d(&mut gl, &Texture2dDescriptor { unit: 0, img: &img, params: &params });
    let stored = gl.texture_params(tex.id);
    assert_eq!(stored.s_mode, WrapMode::Repeat);
    assert_eq!(stored.t_mode, WrapMode::Repeat);
    assert_eq!(stored.min_filter, FilterMode::Linear);
    assert_eq!(stored.mag_filter, FilterMode::Linear);
}

#[test]
fn overridden_parameters_are_recorded_verbatim() {
    let mut gl = GlContext::new(8, 8);
    let img = ImageRgba8::solid(2, 2, Rgba { r: 0, g: 0, b: 0, a: 0 });
    let params = Texture2dParams {
        s_mode: WrapMode::ClampToEdge,
        min_filter: FilterMode::Nearest,
        ..Texture2dParams::default()
    };
    let tex = create_2d(&mut gl, &Texture2dDescriptor { unit: 3, img: &img, params: &params });
    let stored = gl.texture_params(tex.id);
    assert_eq!(stored.s_mode, WrapMode::ClampToEdge);
    assert_eq!(stored.t_mode, WrapMode::Repeat);
    assert_eq!(stored.min_filter, FilterMode::Nearest);
    assert_eq!(stored.mag_filter, FilterMode::Linear);
}

#[test]
fn creation_records_unit_and_size() {
    let mut gl = GlContext::new(8, 8);
    let img = ImageRgba8::solid(5, 3, Rgba { r: 1, g: 2, b: 3, a: 4 });
    let params = Texture2dParams::default();
    let tex = create_2d(&mut gl, &Texture2dDescriptor { unit: 2, img: &img, params: &params });
    assert_eq!(tex.unit, 2);
    assert_eq!(gl.texture_unit(tex.id), 2);
    assert_eq!(gl.texture_size(tex.id), (5, 3));
}

#[test]
fn from_raw_rejects_a_buffer_of_the_wrong_size() {
    assert!(ImageRgba8::from_raw(2, 2, vec![0u8; 15]).is_none());
    assert!(ImageRgba8::from_raw(2, 2, vec![0u8; 17]).is_none());
    let img = ImageRgba8::from_raw(2, 2, vec![0u8; 16]).unwrap();
    assert_eq!(img.width(), 2);
    assert_eq!(img.height(), 2);
}

#[test]
fn from_raw_rejects_a_dimension_over_the_platform_limit() {
    // 16384 is the largest dimension the model accepts.
    assert!(ImageRgba8::from_raw(16385, 1, vec![0u8; 4 * 16385]).is_none());
    assert!(ImageRgba8::from_raw(16384, 0, vec![0u8; 0]).is_some());
}

#[test]
fn solid_image_repeats_its_color() {
    let img = ImageRgba8::solid(2, 1, Rgba { r: 10, g: 20, b: 30, a: 40 });
    assert_eq!(img.to_bytes(), vec![10, 20, 30, 40, 10, 20, 30, 40]);
}

#[test]
fn deleting_a_texture_releases_exactly_that_object() {
    let mut gl = GlContext::new(8, 8);
    let img = ImageRgba8::solid(1, 1, Rgba { r: 0, g: 0, b: 0, a: 255 });
    let params = Texture2dParams::default();
    let a = create_2d(&mut gl, &Texture2dDescriptor { unit: 0, img: &img, params: &params });
    let b = create_2d(&mut gl, &Texture2dDescriptor { unit: 1, img: &img, params: &params });
    let a_id = a.id;
    a.delete(&mut gl);
    assert!(!gl.is_texture(a_id));
    assert!(gl.is_texture(b.id));
}

#[test]
fn rebinding_selects_unit_and_texture() {
    let mut gl = GlContext::new(8, 8);
    let img = ImageRgba8::solid(1, 1, Rgba { r: 0, g: 0, b: 0, a: 255 });
    let params = Texture2dParams::default();
    let a = create_2d(&mut gl, &Texture2dDescriptor { unit: 0, img: &img, params: &params });
    let b = create_2d(&mut gl, &Texture2dDescriptor { unit: 1, img: &img, params: &params });
    // Creation bound `b` last; re-bind `a` on its unit before a dependent draw.
    gl.bind_texture(a.unit, a.id);
    // Deleting the bound texture reverts the binding to 0; `b` stays live.
    let a_id = a.id;
    a.delete(&mut gl);
    assert!(!gl.is_texture(a_id));
    assert!(gl.is_texture(b.id));
}

#[test]
fn texture_default_denotes_not_yet_created() {
    let d = Texture2d::default();
    assert_eq!(d.id, 0);
    assert_eq!(d.unit, 0);
}
