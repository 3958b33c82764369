//! The runner's decisions: when the run ends, what each event triggers, and
//! that cleanup runs exactly once.

use std::cell::Cell;

use glkit::runner::{run_events, start, step, RunnerAction, RunnerState, WindowEvent};
use glkit::OpenGLApp;

#[test]
fn start_initializes_a_created_runner() {
    let (state, actions) = start(RunnerState::Created);
    assert_eq!(state, RunnerState::Running);
    assert_eq!(actions, vec![RunnerAction::Initialize]);
}

#[test]
fn start_of_a_running_runner_does_nothing() {
    let (state, actions) = start(RunnerState::Running);
    assert_eq!(state, RunnerState::Running);
    assert!(actions.is_empty());
}

#[test]
fn close_request_destroys_and_cleans_up() {
    let (state, actions) = step(RunnerState::Running, WindowEvent::CloseRequested);
    assert_eq!(state, RunnerState::Destroyed);
    assert_eq!(actions, vec![RunnerAction::Cleanup]);
}

#[test]
fn escape_destroys_and_cleans_up() {
    let (state, actions) = step(RunnerState::Running, WindowEvent::EscapePressed);
    assert_eq!(state, RunnerState::Destroyed);
    assert_eq!(actions, vec![RunnerAction::Cleanup]);
}

#[test]
fn a_ready_frame_renders_overlays_and_presents_in_order() {
    let (state, actions) = step(RunnerState::Running, WindowEvent::FrameReady);
    assert_eq!(state, RunnerState::Running);
    assert_eq!(
        actions,
        vec![RunnerAction::Render, RunnerAction::RenderUi, RunnerAction::SwapBuffers]
    );
}

#[test]
fn other_input_is_ignored() {
    let (state, actions) = step(RunnerState::Running, WindowEvent::OtherInput);
    assert_eq!(state, RunnerState::Running);
    assert!(actions.is_empty());
}

#[test]
fn a_destroyed_runner_never_acts_again() {
    for e in [
        WindowEvent::CloseRequested,
        WindowEvent::EscapePressed,
        WindowEvent::OtherInput,
        WindowEvent::FrameReady,
    ] {
        let (state, actions) = step(RunnerState::Destroyed, e);
        assert_eq!(state, RunnerState::Destroyed);
        assert!(actions.is_empty());
    }
}

struct CountingApp {
    initialized: u32,
    rendered: Cell<u32>,
    overlays: Cell<u32>,
    cleanups: Cell<u32>,
}

impl CountingApp {
    fn new() -> CountingApp {
        CountingApp {
            initialized: 0,
            rendered: Cell::new(0),
            overlays: Cell::new(0),
            cleanups: Cell::new(0),
        }
    }
}

impl OpenGLApp for CountingApp {
    fn initialize(&mut self) {
        self.initialized += 1;
    }

    fn render(&self) {
        self.rendered.set(self.rendered.get() + 1);
    }

    fn render_ui(&self) {
        self.overlays.set(self.overlays.get() + 1);
    }

    fn cleanup(&self) {
        self.cleanups.set(self.cleanups.get() + 1);
    }
}

#[test]
fn a_run_renders_each_ready_frame_until_the_close_request() {
    let mut app = CountingApp::new();
    let events = vec![
        WindowEvent::FrameReady,
        WindowEvent::OtherInput,
        WindowEvent::FrameReady,
        WindowEvent::CloseRequested,
        WindowEvent::FrameReady,
    ];
    let stats = run_events(&mut app, &events);
    assert_eq!(stats.state, RunnerState::Destroyed);
    assert_eq!(stats.frames, 2);
    assert_eq!(stats.cleanups, 1);
    assert_eq!(app.initialized, 1);
    assert_eq!(app.rendered.get(), 2);
    assert_eq!(app.overlays.get(), 2);
    assert_eq!(app.cleanups.get(), 1);
}

#[test]
fn escape_ends_a_run_like_a_close_request() {
    let mut app = CountingApp::new();
    let events = vec![WindowEvent::FrameReady, WindowEvent::EscapePressed];
    let stats = run_events(&mut app, &events);
    assert_eq!(stats.frames, 1);
    assert_eq!(stats.cleanups, 1);
}

#[test]
fn a_run_that_exhausts_its_events_still_cleans_up_exactly_once() {
    let mut app = CountingApp::new();
    let events = vec![WindowEvent::FrameReady, WindowEvent::FrameReady];
    let stats = run_events(&mut app, &events);
    assert_eq!(stats.state, RunnerState::Destroyed);
    assert_eq!(stats.frames, 2);
    assert_eq!(stats.cleanups, 1);
    assert_eq!(app.cleanups.get(), 1);
}

struct Bare;

impl OpenGLApp for Bare {}

#[test]
fn default_app_reports_its_surface() {
    let app = Bare;
    assert_eq!(app.title(), "OpenGL App");
    assert_eq!(app.width(), 800);
    assert_eq!(app.height(), 600);
    assert!(app.is_resizable());
}
