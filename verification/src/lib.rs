//! A verified model of the small OpenGL framework that tutorial-style demos
//! share: shader compilation and linking, vertex-array and buffer setup,
//! texture upload, and a window-runner state machine.
//!
//! The model keeps the whole rendering context as explicit state
//! ([`context::GlContext`]), so that the resource-lifecycle contract — every
//! GPU object allocated once, released exactly once, bindings updated
//! explicitly per call — is stated in the contracts and proved. The raw
//! platform calls themselves (unsafe FFI into a GL driver) cannot be part of
//! verified code; a thin unverified shell performs them, reusing the decision
//! logic verified here (see [`runner::step`]).

use vstd::prelude::*;

pub mod color;
pub mod context;
pub mod draw;
pub mod runner;
pub mod shaders;
pub mod store;
pub mod textures;
pub mod vao;

verus! {

/// The contract between the window runner and an application: a title and
/// preferred surface size, plus lifecycle callbacks. All callbacks have no-op
/// defaults except the ones a demo actually fills in.
pub trait OpenGLApp {
    /// Window title.
    fn title(&self) -> &str {
        "OpenGL App"
    }

    /// Preferred surface width in pixels.
    fn width(&self) -> u32 {
        800
    }

    /// Preferred surface height in pixels.
    fn height(&self) -> u32 {
        600
    }

    /// Whether the window may be resized.
    fn is_resizable(&self) -> bool {
        true
    }

    /// Build resources. The runner calls this once, before the first frame.
    fn initialize(&mut self) {
    }

    /// Draw one frame.
    fn render(&self) {
    }

    /// Draw an immediate-mode overlay, if any.
    fn render_ui(&self) {
    }

    /// Release resources. The runner calls this exactly once, on shutdown.
    fn cleanup(&self) {
    }

    /// The surface was resized to `width` by `height` pixels.
    fn on_resize(&mut self, _width: u32, _height: u32) {
    }
}

} // verus!
