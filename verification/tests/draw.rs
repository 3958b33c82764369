//! End to end: clear, upload a quad, link a solid-color program, draw one
//! frame, and read the framebuffer back.

use glkit::color::Rgba;
use glkit::context::GlContext;
use glkit::shaders::compile_and_link;
use glkit::vao::{create_indexed, AttribType, VertexAttribPointer};

const VS: &str = "void main() { gl_Position = vec4(aPos, 1.0); }";
// The model front end reads the constant output color from the final eight
// characters of the fragment source.
const FS: &str = "void main() { FragColor = color; } // color=336699ff";

fn quad_bytes(x0: u32, y0: u32, x1: u32, y1: u32) -> Vec<u8> {
    let corners: [(u32, u32); 4] = [(x0, y0), (x1, y0), (x1, y1), (x0, y1)];
    let mut data = Vec::new();
    for (x, y) in corners.iter() {
        data.extend_from_slice(&x.to_le_bytes());
        data.extend_from_slice(&y.to_le_bytes());
    }
    data
}

fn position_attrib() -> VertexAttribPointer {
    VertexAttribPointer {
        location: 0,
        len: 2,
        ty: AttribType::UnsignedInt,
        normalized: false,
        stride: 0,
        offset: 0,
    }
}

#[test]
fn one_frame_fills_the_quad_interior_and_keeps_the_clear_color_outside() {
    let mut gl = GlContext::new(8, 8);
    let clear = Rgba { r: 10, g: 20, b: 30, a: 255 };
    let fill = Rgba { r: 0x33, g: 0x66, b: 0x99, a: 0xff };

    gl.set_clear_color(clear);
    gl.clear();
    let program = compile_and_link(&mut gl, VS, FS).unwrap();
    // A unit quad over [2, 6) x [2, 6): 4 vertices, 2 triangles via 6 indices.
    let indices: [u32; 6] = [0, 1, 2, 2, 3, 0];
    let vao = create_indexed(&mut gl, &quad_bytes(2, 2, 6, 6), &[position_attrib()], &indices);
    gl.use_program(program.id);
    gl.bind_vertex_array(vao.id);
    let count = vao.index_count(&gl);
    gl.draw_elements(count);

    for y in 0..8u32 {
        for x in 0..8u32 {
            let expected = if (2..6).contains(&x) && (2..6).contains(&y) { fill } else { clear };
            assert_eq!(gl.read_pixel(x, y), expected, "pixel ({}, {})", x, y);
        }
    }
}

#[test]
fn a_draw_of_zero_indices_changes_nothing() {
    let mut gl = GlContext::new(4, 4);
    let clear = Rgba { r: 1, g: 2, b: 3, a: 4 };
    gl.set_clear_color(clear);
    gl.clear();
    let program = compile_and_link(&mut gl, VS, FS).unwrap();
    let indices: [u32; 6] = [0, 1, 2, 2, 3, 0];
    let vao = create_indexed(&mut gl, &quad_bytes(0, 0, 4, 4), &[position_attrib()], &indices);
    gl.use_program(program.id);
    gl.bind_vertex_array(vao.id);
    gl.draw_elements(0);
    for y in 0..4u32 {
        for x in 0..4u32 {
            assert_eq!(gl.read_pixel(x, y), clear);
        }
    }
}

#[test]
fn a_full_screen_quad_covers_every_pixel() {
    let mut gl = GlContext::new(4, 4);
    gl.set_clear_color(Rgba { r: 0, g: 0, b: 0, a: 255 });
    gl.clear();
    let program = compile_and_link(&mut gl, VS, FS).unwrap();
    let indices: [u32; 6] = [0, 1, 2, 2, 3, 0];
    let vao = create_indexed(&mut gl, &quad_bytes(0, 0, 4, 4), &[position_attrib()], &indices);
    gl.use_program(program.id);
    gl.bind_vertex_array(vao.id);
    gl.draw_elements(6);
    let fill = Rgba { r: 0x33, g: 0x66, b: 0x99, a: 0xff };
    for y in 0..4u32 {
        for x in 0..4u32 {
            assert_eq!(gl.read_pixel(x, y), fill);
        }
    }
}

#[test]
fn clear_fills_the_whole_framebuffer_with_the_clear_color() {
    let mut gl = GlContext::new(3, 2);
    let c = Rgba { r: 7, g: 7, b: 7, a: 7 };
    gl.set_clear_color(c);
    gl.clear();
    for y in 0..2u32 {
        for x in 0..3u32 {
            assert_eq!(gl.read_pixel(x, y), c);
        }
    }
}

#[test]
fn a_fresh_framebuffer_is_transparent_black() {
    let gl = GlContext::new(2, 2);
    assert_eq!(gl.read_pixel(1, 1), Rgba { r: 0, g: 0, b: 0, a: 0 });
}
