//! The decisions of the run loop, apart from the window, the GPU and the
//! floating-point settings they act on: which key does what, what a render
//! outcome calls for, and the states a frame goes through.
use vstd::prelude::*;

verus! {

/// The keys the viewer binds, and all others.
#[derive(Clone, Copy, Debug, PartialEq, Eq, Structural)]
pub enum Key {
    Escape,
    Minus,
    Equals,
    Q,
    E,
    Z,
    X,
    F,
    G,
    A,
    D,
    W,
    S,
    O,
    P,
    Other,
}

/// A setting that keys scale up or down.
#[derive(Clone, Copy, Debug, PartialEq, Eq, Structural)]
pub enum Scaled {
    TimeStep,
    Zoom,
    BlurRadius,
    GravitationalConstant,
    GhostStackVisibleLimit,
}

/// A camera offset that keys pan.
#[derive(Clone, Copy, Debug, PartialEq, Eq, Structural)]
pub enum Axis {
    X,
    Y,
}

/// What an input asks of the settings or of the loop.
#[derive(Clone, Copy, Debug, PartialEq, Eq, Structural)]
pub enum Command {
    /// End the run.
    Quit,
    /// Multiply the setting by `factor` when `grow`, else divide it by `factor`.
    Scale { setting: Scaled, factor: u32, grow: bool },
    /// Add `delta` to a camera offset.
    Pan { axis: Axis, delta: i32 },
    /// A key with no binding: report it, change nothing.
    Unbound,
}

/// The command of each key.
pub open spec fn key_command_spec(key: Key) -> Command {
    match key {
        Key::Escape => Command::Quit,
        Key::Minus => Command::Scale { setting: Scaled::TimeStep, factor: 10, grow: false },
        Key::Equals => Command::Scale { setting: Scaled::TimeStep, factor: 10, grow: true },
        Key::Q => Command::Scale { setting: Scaled::Zoom, factor: 2, grow: false },
        Key::E => Command::Scale { setting: Scaled::Zoom, factor: 2, grow: true },
        Key::Z => Command::Scale { setting: Scaled::BlurRadius, factor: 2, grow: false },
        Key::X => Command::Scale { setting: Scaled::BlurRadius, factor: 2, grow: true },
        Key::F => Command::Scale { setting: Scaled::GravitationalConstant, factor: 2, grow: false },
        Key::G => Command::Scale { setting: Scaled::GravitationalConstant, factor: 2, grow: true },
        Key::A => Command::Pan { axis: Axis::X, delta: 10 },
        Key::D => Command::Pan { axis: Axis::X, delta: -10i32 },
        Key::W => Command::Pan { axis: Axis::Y, delta: 10 },
        Key::S => Command::Pan { axis: Axis::Y, delta: -10i32 },
        Key::O => Command::Scale { setting: Scaled::GhostStackVisibleLimit, factor: 2, grow: false },
        Key::P => Command::Scale { setting: Scaled::GhostStackVisibleLimit, factor: 2, grow: true },
        Key::Other => Command::Unbound,
    }
}

/// The command bound to a key.
pub fn key_command(key: Key) -> (r: Command)
    ensures
        r == key_command_spec(key),
{
    match key {
        Key::Escape => Command::Quit,
        Key::Minus => Command::Scale { setting: Scaled::TimeStep, factor: 10, grow: false },
        Key::Equals => Command::Scale { setting: Scaled::TimeStep, factor: 10, grow: true },
        Key::Q => Command::Scale { setting: Scaled::Zoom, factor: 2, grow: false },
        Key::E => Command::Scale { setting: Scaled::Zoom, factor: 2, grow: true },
        Key::Z => Command::Scale { setting: Scaled::BlurRadius, factor: 2, grow: false },
        Key::X => Command::Scale { setting: Scaled::BlurRadius, factor: 2, grow: true },
        Key::F => Command::Scale { setting: Scaled::GravitationalConstant, factor: 2, grow: false },
        Key::G => Command::Scale { setting: Scaled::GravitationalConstant, factor: 2, grow: true },
        Key::A => Command::Pan { axis: Axis::X, delta: 10 },
        Key::D => Command::Pan { axis: Axis::X, delta: -10 },
        Key::W => Command::Pan { axis: Axis::Y, delta: 10 },
        Key::S => Command::Pan { axis: Axis::Y, delta: -10 },
        Key::O => Command::Scale { setting: Scaled::GhostStackVisibleLimit, factor: 2, grow: false },
        Key::P => Command::Scale { setting: Scaled::GhostStackVisibleLimit, factor: 2, grow: true },
        Key::Other => Command::Unbound,
    }
}

/// How presenting a frame went.
#[derive(Clone, Copy, Debug, PartialEq, Eq, Structural)]
pub enum RenderOutcome {
    Presented,
    Lost,
    Outdated,
    OutOfMemory,
    Timeout,
}

/// The states of the run loop.
#[derive(Clone, Copy, Debug, PartialEq, Eq, Structural)]
pub enum RunState {
    WaitingForEvent,
    Updating,
    Rendering,
    ShuttingDown,
}

/// What reaches the run loop.
#[derive(Clone, Copy, Debug, PartialEq, Eq, Structural)]
pub enum LoopEvent {
    /// A bound or unbound key, or the window's close button (`Quit`).
    Input(Command),
    /// The window changed size.
    Resized,
    /// A frame is due.
    RedrawDue,
    /// The simulation step and the vertex sync of the frame are done.
    Updated,
    /// The frame was rendered with this outcome.
    Rendered(RenderOutcome),
    /// A fault nothing can recover from.
    Fatal,
}

/// What the run loop does next.
#[derive(Clone, Copy, Debug, PartialEq, Eq, Structural)]
pub enum LoopAction {
    Nothing,
    /// Apply a command to the settings.
    Apply(Command),
    /// Print that a key has no binding.
    ReportUnbound,
    /// Recreate the surface and the accumulation buffer at the window's size.
    Resize,
    /// Advance the simulation by one step, then sync the vertex buffer.
    Advance,
    /// Render and present the frame.
    Render,
    /// Log that the surface timed out; the frame is dropped.
    WarnTimeout,
    /// Stop the loop at once.
    Exit,
}

/// The next state and action of the run loop.
pub open spec fn transition(state: RunState, event: LoopEvent) -> (RunState, LoopAction) {
    match (state, event) {
        (RunState::ShuttingDown, _) => (RunState::ShuttingDown, LoopAction::Nothing),
        (_, LoopEvent::Fatal) => (RunState::ShuttingDown, LoopAction::Exit),
        (RunState::WaitingForEvent, LoopEvent::Input(Command::Quit)) => (
            RunState::ShuttingDown,
            LoopAction::Exit,
        ),
        (RunState::WaitingForEvent, LoopEvent::Input(Command::Unbound)) => (
            RunState::WaitingForEvent,
            LoopAction::ReportUnbound,
        ),
        (RunState::WaitingForEvent, LoopEvent::Input(c)) => (
            RunState::WaitingForEvent,
            LoopAction::Apply(c),
        ),
        (RunState::WaitingForEvent, LoopEvent::Resized) => (
            RunState::WaitingForEvent,
            LoopAction::Resize,
        ),
        (RunState::WaitingForEvent, LoopEvent::RedrawDue) => (
            RunState::Updating,
            LoopAction::Advance,
        ),
        (RunState::Updating, LoopEvent::Updated) => (RunState::Rendering, LoopAction::Render),
        (RunState::Rendering, LoopEvent::Rendered(o)) => match o {
            RenderOutcome::Presented => (RunState::WaitingForEvent, LoopAction::Nothing),
            RenderOutcome::Lost => (RunState::WaitingForEvent, LoopAction::Resize),
            RenderOutcome::Outdated => (RunState::WaitingForEvent, LoopAction::Resize),
            RenderOutcome::OutOfMemory => (RunState::ShuttingDown, LoopAction::Exit),
            RenderOutcome::Timeout => (RunState::WaitingForEvent, LoopAction::WarnTimeout),
        },
        (s, _) => (s, LoopAction::Nothing),
    }
}

/// Moves the run loop on by one event.
pub fn step(state: RunState, event: LoopEvent) -> (r: (RunState, LoopAction))
    ensures
        r == transition(state, event),
{
    match (state, event) {
        (RunState::ShuttingDown, _) => (RunState::ShuttingDown, LoopAction::Nothing),
        (_, LoopEvent::Fatal) => (RunState::ShuttingDown, LoopAction::Exit),
        (RunState::WaitingForEvent, LoopEvent::Input(Command::Quit)) => (
            RunState::ShuttingDown,
            LoopAction::Exit,
        ),
        (RunState::WaitingForEvent, LoopEvent::Input(Command::Unbound)) => (
            RunState::WaitingForEvent,
            LoopAction::ReportUnbound,
        ),
        (RunState::WaitingForEvent, LoopEvent::Input(c)) => (
            RunState::WaitingForEvent,
            LoopAction::Apply(c),
        ),
        (RunState::WaitingForEvent, LoopEvent::Resized) => (
            RunState::WaitingForEvent,
            LoopAction::Resize,
        ),
        (RunState::WaitingForEvent, LoopEvent::RedrawDue) => (
            RunState::Updating,
            LoopAction::Advance,
        ),
        (RunState::Updating, LoopEvent::Updated) => (RunState::Rendering, LoopAction::Render),
        (RunState::Rendering, LoopEvent::Rendered(o)) => match o {
            RenderOutcome::Presented => (RunState::WaitingForEvent, LoopAction::Nothing),
            RenderOutcome::Lost => (RunState::WaitingForEvent, LoopAction::Resize),
            RenderOutcome::Outdated => (RunState::WaitingForEvent, LoopAction::Resize),
            RenderOutcome::OutOfMemory => (RunState::ShuttingDown, LoopAction::Exit),
            RenderOutcome::Timeout => (RunState::WaitingForEvent, LoopAction::WarnTimeout),
        },
        (s, _) => (s, LoopAction::Nothing),
    }
}

/// Once shutting down, the loop stays so and renders no further frame.
pub proof fn lemma_shutdown_is_final(event: LoopEvent)
    ensures
        transition(RunState::ShuttingDown, event) == (RunState::ShuttingDown, LoopAction::Nothing),
{
}

/// Within a frame the step comes before the render: the loop renders only
/// right after an update, and updates only when a frame falls due while it
/// waits for events.
pub proof fn lemma_frame_order(state: RunState, event: LoopEvent)
    ensures
        transition(state, event).1 == LoopAction::Render ==> state == RunState::Updating
            && event == LoopEvent::Updated,
        transition(state, event).1 == LoopAction::Advance ==> state == RunState::WaitingForEvent
            && event == LoopEvent::RedrawDue,
        transition(state, event).0 == RunState::Rendering ==> state == RunState::Rendering
            || state == RunState::Updating,
{
}

/// Settings change only while the loop waits for events, never in the middle
/// of a frame.
pub proof fn lemma_settings_change_between_frames(state: RunState, event: LoopEvent)
    ensures
        transition(state, event).1 is Apply ==> state == RunState::WaitingForEvent
            && transition(state, event).0 == RunState::WaitingForEvent,
{
}

} // verus!
