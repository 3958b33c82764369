//! The window runner's decisions: a state machine from events to actions.
//!
//! The native loop — window creation, making the context current, pumping
//! events — is platform work outside verified code. What it decides, though,
//! is stated here: which events end the run, which deliver a frame, and that
//! the application's cleanup runs exactly once, on shutdown. The unverified
//! shell maps native events to [`WindowEvent`], asks [`step`] what to do,
//! and performs the returned actions.

use vstd::prelude::*;

use crate::OpenGLApp;

verus! {

/// Where the runner stands. It is created, runs frames, and is destroyed
/// exactly once.
#[derive(Clone, Copy, Debug, PartialEq, Eq, Structural)]
pub enum RunnerState {
    /// The window exists; the application is not initialized yet.
    Created,
    /// The loop delivers events and frames.
    Running,
    /// The run is over; cleanup has run.
    Destroyed,
}

/// The events the runner recognizes. Anything else a platform reports is
/// `OtherInput`.
#[derive(Clone, Copy, Debug, PartialEq, Eq, Structural)]
pub enum WindowEvent {
    /// The window was asked to close.
    CloseRequested,
    /// The escape key was pressed.
    EscapePressed,
    /// Any other input; the runner ignores it.
    OtherInput,
    /// All pending events are delivered: time to draw a frame.
    FrameReady,
}

/// What the runner asks the shell to do, in order.
#[derive(Clone, Copy, Debug, PartialEq, Eq, Structural)]
pub enum RunnerAction {
    /// Call the application's `initialize`.
    Initialize,
    /// Call the application's `render`.
    Render,
    /// Call the application's `render_ui`.
    RenderUi,
    /// Present the frame.
    SwapBuffers,
    /// Call the application's `cleanup`.
    Cleanup,
}

/// One step of the runner: the next state and the actions to perform, in
/// order. A close request or the escape key destroys a running runner at
/// once, with cleanup as the one remaining action; a ready frame is drawn
/// and presented; anything else changes nothing. A destroyed runner does
/// nothing ever again, so cleanup cannot run twice.
pub open spec fn step_spec(s: RunnerState, e: WindowEvent) -> (RunnerState, Seq<RunnerAction>) {
    match s {
        RunnerState::Created => (RunnerState::Created, Seq::empty()),
        RunnerState::Running => match e {
            WindowEvent::CloseRequested => (
                RunnerState::Destroyed,
                seq![RunnerAction::Cleanup],
            ),
            WindowEvent::EscapePressed => (RunnerState::Destroyed, seq![RunnerAction::Cleanup]),
            WindowEvent::OtherInput => (RunnerState::Running, Seq::empty()),
            WindowEvent::FrameReady => (
                RunnerState::Running,
                seq![RunnerAction::Render, RunnerAction::RenderUi, RunnerAction::SwapBuffers],
            ),
        },
        RunnerState::Destroyed => (RunnerState::Destroyed, Seq::empty()),
    }
}

/// Starting a freshly created runner: it initializes the application and
/// runs; starting it in any other state changes nothing.
pub open spec fn start_spec(s: RunnerState) -> (RunnerState, Seq<RunnerAction>) {
    match s {
        RunnerState::Created => (RunnerState::Running, seq![RunnerAction::Initialize]),
        _ => (s, Seq::empty()),
    }
}

/// Executable form of [`step_spec`]; the unverified shell drives its native
/// event loop with this.
pub fn step(s: RunnerState, e: WindowEvent) -> (r: (RunnerState, Vec<RunnerAction>))
    ensures
        r.0 == step_spec(s, e).0,
        r.1@ == step_spec(s, e).1,
{
    match s {
        RunnerState::Created => (RunnerState::Created, Vec::new()),
        RunnerState::Running => match e {
            WindowEvent::CloseRequested => {
                let mut acts: Vec<RunnerAction> = Vec::new();
                acts.push(RunnerAction::Cleanup);
                proof {
                    assert(acts@ =~= seq![RunnerAction::Cleanup]);
                }
                (RunnerState::Destroyed, acts)
            },
            WindowEvent::EscapePressed => {
                let mut acts: Vec<RunnerAction> = Vec::new();
                acts.push(RunnerAction::Cleanup);
                proof {
                    assert(acts@ =~= seq![RunnerAction::Cleanup]);
                }
                (RunnerState::Destroyed, acts)
            },
            WindowEvent::OtherInput => (RunnerState::Running, Vec::new()),
            WindowEvent::FrameReady => {
                let mut acts: Vec<RunnerAction> = Vec::new();
                acts.push(RunnerAction::Render);
                acts.push(RunnerAction::RenderUi);
                acts.push(RunnerAction::SwapBuffers);
                proof {
                    assert(acts@ =~= seq![
                        RunnerAction::Render,
                        RunnerAction::RenderUi,
                        RunnerAction::SwapBuffers,
                    ]);
                }
                (RunnerState::Running, acts)
            },
        },
        RunnerState::Destroyed => (RunnerState::Destroyed, Vec::new()),
    }
}

/// Executable form of [`start_spec`].
pub fn start(s: RunnerState) -> (r: (RunnerState, Vec<RunnerAction>))
    ensures
        r.0 == start_spec(s).0,
        r.1@ == start_spec(s).1,
{
    match s {
        RunnerState::Created => {
            let mut acts: Vec<RunnerAction> = Vec::new();
            acts.push(RunnerAction::Initialize);
            proof {
                assert(acts@ =~= seq![RunnerAction::Initialize]);
            }
            (RunnerState::Running, acts)
        },
        _ => (s, Vec::new()),
    }
}

/// What a finished run reports.
#[derive(Clone, Copy, Debug, PartialEq, Eq, Structural)]
pub struct RunStats {
    /// Frames delivered before the run ended.
    pub frames: usize,
    /// How often the application's `cleanup` ran: always exactly 1.
    pub cleanups: usize,
    /// The runner's final state: always `Destroyed`.
    pub state: RunnerState,
}

/// How many frames a run over `events` shows: one per ready frame before the
/// first close request or escape press.
pub open spec fn frames_shown(events: Seq<WindowEvent>) -> int
    decreases events.len(),
{
    if events.len() == 0 {
        0
    } else {
        match events[0] {
            WindowEvent::CloseRequested => 0,
            WindowEvent::EscapePressed => 0,
            WindowEvent::FrameReady => 1 + frames_shown(events.skip(1)),
            WindowEvent::OtherInput => frames_shown(events.skip(1)),
        }
    }
}

/// A run shows at most one frame per event.
proof fn lemma_frames_shown_bounded(events: Seq<WindowEvent>)
    ensures
        0 <= frames_shown(events) <= events.len(),
    decreases events.len(),
{
    if events.len() > 0 {
        lemma_frames_shown_bounded(events.skip(1));
    }
}

/// Runs an application over a finite sequence of events, as the native loop
/// would: initialize once, then one [`step_spec`] transition per event until
/// the runner is destroyed; a run that exhausts its events shuts down as a
/// close request would. However the run ends, cleanup runs exactly once, and
/// exactly the ready frames before the first close or escape are rendered.
pub fn run_events<A: OpenGLApp>(app: &mut A, events: &Vec<WindowEvent>) -> (stats: RunStats)
    ensures
        stats.state == RunnerState::Destroyed,
        stats.cleanups == 1,
        stats.frames == frames_shown(events@),
{
    proof {
        lemma_frames_shown_bounded(events@);
        assert(events@.skip(0) =~= events@);
    }
    app.initialize();
    let mut state = RunnerState::Running;
    let mut frames: usize = 0;
    let mut cleanups: usize = 0;
    let mut i: usize = 0;
    while i < events.len() && state == RunnerState::Running
        invariant
            i <= events@.len(),
            state == RunnerState::Running || state == RunnerState::Destroyed,
            state == RunnerState::Running ==> frames_shown(events@) == frames + frames_shown(
                events@.skip(i as int),
            ),
            state == RunnerState::Destroyed ==> frames == frames_shown(events@),
            frames <= i,
            cleanups == if state == RunnerState::Destroyed {
                1int
            } else {
                0int
            },
        decreases events@.len() - i,
    {
        proof {
            lemma_frames_shown_bounded(events@.skip(i as int));
        }
        match events[i] {
            WindowEvent::CloseRequested => {
                app.cleanup();
                cleanups = cleanups + 1;
                state = RunnerState::Destroyed;
            },
            WindowEvent::EscapePressed => {
                app.cleanup();
                cleanups = cleanups + 1;
                state = RunnerState::Destroyed;
            },
            WindowEvent::OtherInput => {},
            WindowEvent::FrameReady => {
                app.render();
                app.render_ui();
                frames = frames + 1;
            },
        }
        proof {
            assert(events@.skip(i as int).skip(1) =~= events@.skip(i as int + 1));
        }
        i = i + 1;
    }
    if state == RunnerState::Running {
        app.cleanup();
        cleanups = cleanups + 1;
        state = RunnerState::Destroyed;
        proof {
            assert(events@.skip(i as int) =~= Seq::<WindowEvent>::empty());
        }
    }
    RunStats { frames, cleanups, state }
}

} // verus!
