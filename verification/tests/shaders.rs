//! The compile/link lifecycle: success and failure conditions, diagnostics,
//! and which objects each call leaves live.

use glkit::context::GlContext;
use glkit::shaders::{compile, compile_and_link, link, ShaderStage};

const VS: &str = "void main() { gl_Position = vec4(aPos, 1.0); }";
const FS: &str = "void main() { FragColor = color; } // color=336699ff";

#[test]
fn compile_valid_vertex_source_yields_handle() {
    let mut gl = GlContext::new(8, 8);
    let sh = compile(&mut gl, VS, ShaderStage::Vertex).unwrap();
    assert_eq!(sh.id, 1);
    assert!(gl.is_shader(sh.id));
}

#[test]
fn compile_valid_fragment_source_yields_handle() {
    let mut gl = GlContext::new(8, 8);
    let sh = compile(&mut gl, FS, ShaderStage::Fragment).unwrap();
    assert!(gl.is_shader(sh.id));
    assert_eq!(sh.stage, ShaderStage::Fragment);
}

#[test]
fn compile_source_without_entry_point_fails_with_diagnostic() {
    let mut gl = GlContext::new(8, 8);
    let err = compile(&mut gl, "this is not a shader", ShaderStage::Vertex).unwrap_err();
    assert!(!err.is_empty());
    assert_eq!(err, "error: no entry point 'main' in shader source");
    // No usable handle was allocated.
    assert!(!gl.is_shader(1));
}

#[test]
fn compile_empty_source_fails_with_diagnostic() {
    let mut gl = GlContext::new(8, 8);
    let err = compile(&mut gl, "", ShaderStage::Vertex).unwrap_err();
    assert!(!err.is_empty());
    assert!(!gl.is_shader(1));
}

#[test]
fn compile_fragment_without_color_directive_fails() {
    let mut gl = GlContext::new(8, 8);
    let err = compile(&mut gl, "void main() {}", ShaderStage::Fragment).unwrap_err();
    assert_eq!(
        err,
        "error: fragment shader ends in no 'RRGGBBAA' color directive"
    );
    assert!(!gl.is_shader(1));
}

#[test]
fn link_two_compiled_stages_yields_program() {
    let mut gl = GlContext::new(8, 8);
    let vs = compile(&mut gl, VS, ShaderStage::Vertex).unwrap();
    let fs = compile(&mut gl, FS, ShaderStage::Fragment).unwrap();
    let program = link(&mut gl, &vs, &fs).unwrap();
    assert!(gl.is_program(program.id));
    vs.delete(&mut gl);
    fs.delete(&mut gl);
    assert!(gl.is_program(program.id));
}

#[test]
fn link_mismatched_stages_fails_with_diagnostic() {
    let mut gl = GlContext::new(8, 8);
    let a = compile(&mut gl, VS, ShaderStage::Vertex).unwrap();
    let b = compile(&mut gl, VS, ShaderStage::Vertex).unwrap();
    let err = link(&mut gl, &a, &b).unwrap_err();
    assert_eq!(
        err,
        "error: a program links exactly one vertex and one fragment stage"
    );
}

#[test]
fn compile_and_link_valid_pair_yields_usable_program() {
    let mut gl = GlContext::new(8, 8);
    let program = compile_and_link(&mut gl, VS, FS).unwrap();
    assert!(gl.is_program(program.id));
    // The intermediate shader objects were released once linked.
    assert!(!gl.is_shader(1));
    assert!(!gl.is_shader(2));
}

#[test]
fn compile_and_link_surfaces_the_failing_stage_diagnostic() {
    let mut gl = GlContext::new(8, 8);
    let err = compile_and_link(&mut gl, "nope", FS).unwrap_err();
    assert_eq!(err, "error: no entry point 'main' in shader source");
    let err = compile_and_link(&mut gl, VS, "void main() {}").unwrap_err();
    assert_eq!(
        err,
        "error: fragment shader ends in no 'RRGGBBAA' color directive"
    );
    // Nothing stayed live.
    assert!(!gl.is_shader(1));
    assert!(!gl.is_shader(2));
    assert!(!gl.is_program(1));
}

#[test]
fn deleting_a_shader_releases_exactly_that_object() {
    let mut gl = GlContext::new(8, 8);
    let a = compile(&mut gl, VS, ShaderStage::Vertex).unwrap();
    let b = compile(&mut gl, FS, ShaderStage::Fragment).unwrap();
    let (a_id, b_id) = (a.id, b.id);
    a.delete(&mut gl);
    assert!(!gl.is_shader(a_id));
    assert!(gl.is_shader(b_id));
    b.delete(&mut gl);
    assert!(!gl.is_shader(b_id));
}
