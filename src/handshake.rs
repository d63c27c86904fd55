use vstd::prelude::*;

use crate::error::InitError;
use crate::format::{config_for, surface_config, SurfaceConfig, SurfaceFormat, SurfaceSize};

verus! {

/// How the window is obtained.
#[derive(Clone, Copy, Debug, PartialEq, Eq, Structural)]
pub enum Platform {
    /// The window is bound to a canvas element of a browser document.
    WebEmbedded,
    /// The window is created by the platform's default path; no target is bound.
    Native,
}

/// Where the handshake stands.
#[derive(Clone, Debug, PartialEq, Eq)]
pub enum Stage {
    /// Waiting for the element named by the target descriptor to be looked up.
    FindingTarget,
    /// Waiting to learn whether the element is a canvas.
    CheckingCanvas,
    /// Waiting to learn whether the canvas offers a WebGPU drawing context.
    ProbingGraphics,
    /// Waiting for the window to be built.
    BuildingWindow,
    /// Waiting for a surface-compatible adapter.
    AwaitingAdapter,
    /// Waiting for the adapter's device and queue.
    AwaitingDevice,
    /// Waiting for the window's physical size and the surface's preferred format.
    QueryingSurface,
    /// The surface is to be configured as given; the handshake is complete.
    Ready(SurfaceConfig),
    /// The handshake failed for good.
    Failed(InitError),
}

/// What the platform reported after performing the last requested action.
#[derive(Clone, Debug, PartialEq, Eq)]
pub enum Event {
    /// Whether the document holds an element with the target's id.
    TargetLookedUp { found: bool },
    /// Whether the element is a canvas.
    CanvasChecked { is_canvas: bool },
    /// Whether the canvas offers a WebGPU drawing context.
    GraphicsProbed { supported: bool },
    /// The window exists.
    WindowBuilt,
    /// The window could not be built, for the given reason.
    WindowFailed(String),
    /// A compatible adapter was found.
    AdapterFound,
    /// No compatible adapter is available.
    AdapterMissing,
    /// The device and its queue exist.
    DeviceReady,
    /// The device request failed, for the given reason.
    DeviceFailed(String),
    /// The window's physical size and the surface's preferred format, if any.
    SurfaceQueried { size: SurfaceSize, preferred: Option<SurfaceFormat> },
}

/// What the platform is asked to do next.
#[derive(Clone, Debug, PartialEq, Eq)]
pub enum Action {
    /// Look up the element whose id is the target descriptor.
    LookUpTarget,
    /// Check that the element is a canvas.
    CheckCanvas,
    /// Check that the canvas offers a WebGPU drawing context.
    ProbeGraphics,
    /// Build the window (bound to the canvas on the web).
    BuildWindow,
    /// Create the surface on the window, then request a compatible adapter.
    RequestAdapter,
    /// Request a device and queue with default features and limits.
    RequestDevice,
    /// Query the window's physical size and the surface's preferred format.
    QuerySurface,
    /// Configure the surface as given and hand the context to the caller.
    Configure(SurfaceConfig),
    /// Give up; the stage holds the reason.
    Abort,
    /// Nothing: the event does not apply to the current stage.
    Idle,
}

/// The stage a handshake starts in.
pub open spec fn initial_stage(platform: Platform) -> Stage {
    match platform {
        Platform::WebEmbedded => Stage::FindingTarget,
        Platform::Native => Stage::BuildingWindow,
    }
}

/// The first action of a handshake.
pub open spec fn initial_action(platform: Platform) -> Action {
    match platform {
        Platform::WebEmbedded => Action::LookUpTarget,
        Platform::Native => Action::BuildWindow,
    }
}

/// The transition table: the next stage and action for a stage and an event.
/// An event that does not apply to a stage leaves it unchanged.
pub open spec fn next(stage: Stage, event: Event) -> (Stage, Action) {
    match (stage, event) {
        (Stage::FindingTarget, Event::TargetLookedUp { found }) =>
            if found {
                (Stage::CheckingCanvas, Action::CheckCanvas)
            } else {
                (Stage::Failed(InitError::TargetNotFound), Action::Abort)
            },
        (Stage::CheckingCanvas, Event::CanvasChecked { is_canvas }) =>
            if is_canvas {
                (Stage::ProbingGraphics, Action::ProbeGraphics)
            } else {
                (Stage::Failed(InitError::InvalidTargetType), Action::Abort)
            },
        (Stage::ProbingGraphics, Event::GraphicsProbed { supported }) =>
            if supported {
                (Stage::BuildingWindow, Action::BuildWindow)
            } else {
                (Stage::Failed(InitError::GraphicsUnsupported), Action::Abort)
            },
        (Stage::BuildingWindow, Event::WindowBuilt) =>
            (Stage::AwaitingAdapter, Action::RequestAdapter),
        (Stage::BuildingWindow, Event::WindowFailed(reason)) =>
            (Stage::Failed(InitError::WindowCreationFailed(reason)), Action::Abort),
        (Stage::AwaitingAdapter, Event::AdapterFound) =>
            (Stage::AwaitingDevice, Action::RequestDevice),
        (Stage::AwaitingAdapter, Event::AdapterMissing) =>
            (Stage::Failed(InitError::NoCompatibleAdapter), Action::Abort),
        (Stage::AwaitingDevice, Event::DeviceReady) =>
            (Stage::QueryingSurface, Action::QuerySurface),
        (Stage::AwaitingDevice, Event::DeviceFailed(reason)) =>
            (Stage::Failed(InitError::DeviceNegotiationFailed(reason)), Action::Abort),
        (Stage::QueryingSurface, Event::SurfaceQueried { size, preferred }) =>
            (Stage::Ready(config_for(size, preferred)), Action::Configure(config_for(size, preferred))),
        (stage, _) => (stage, Action::Idle),
    }
}

/// The handshake between a window, its surface and a graphics backend.
pub struct Handshake {
    pub stage: Stage,
}

impl Handshake {
    /// Starts a handshake on the given platform and returns the first action.
    pub fn start(platform: Platform) -> (r: (Handshake, Action))
        ensures
            r.0.stage == initial_stage(platform),
            r.1 == initial_action(platform),
    {
        match platform {
            Platform::WebEmbedded => (Handshake { stage: Stage::FindingTarget }, Action::LookUpTarget),
            Platform::Native => (Handshake { stage: Stage::BuildingWindow }, Action::BuildWindow),
        }
    }

    /// Feeds the outcome of the last action and returns the next action.
    pub fn step(self, event: Event) -> (r: (Handshake, Action))
        ensures
            (r.0.stage, r.1) == next(self.stage, event),
    {
        let (stage, action) = match self.stage {
            Stage::FindingTarget => match event {
                Event::TargetLookedUp { found } => if found {
                    (Stage::CheckingCanvas, Action::CheckCanvas)
                } else {
                    (Stage::Failed(InitError::TargetNotFound), Action::Abort)
                },
                _ => (Stage::FindingTarget, Action::Idle),
            },
            Stage::CheckingCanvas => match event {
                Event::CanvasChecked { is_canvas } => if is_canvas {
                    (Stage::ProbingGraphics, Action::ProbeGraphics)
                } else {
                    (Stage::Failed(InitError::InvalidTargetType), Action::Abort)
                },
                _ => (Stage::CheckingCanvas, Action::Idle),
            },
            Stage::ProbingGraphics => match event {
                Event::GraphicsProbed { supported } => if supported {
                    (Stage::BuildingWindow, Action::BuildWindow)
                } else {
                    (Stage::Failed(InitError::GraphicsUnsupported), Action::Abort)
                },
                _ => (Stage::ProbingGraphics, Action::Idle),
            },
            Stage::BuildingWindow => match event {
                Event::WindowBuilt => (Stage::AwaitingAdapter, Action::RequestAdapter),
                Event::WindowFailed(reason) => (
                    Stage::Failed(InitError::WindowCreationFailed(reason)),
                    Action::Abort,
                ),
                _ => (Stage::BuildingWindow, Action::Idle),
            },
            Stage::AwaitingAdapter => match event {
                Event::AdapterFound => (Stage::AwaitingDevice, Action::RequestDevice),
                Event::AdapterMissing => (Stage::Failed(InitError::NoCompatibleAdapter), Action::Abort),
                _ => (Stage::AwaitingAdapter, Action::Idle),
            },
            Stage::AwaitingDevice => match event {
                Event::DeviceReady => (Stage::QueryingSurface, Action::QuerySurface),
                Event::DeviceFailed(reason) => (
                    Stage::Failed(InitError::DeviceNegotiationFailed(reason)),
                    Action::Abort,
                ),
                _ => (Stage::AwaitingDevice, Action::Idle),
            },
            Stage::QueryingSurface => match event {
                Event::SurfaceQueried { size, preferred } => {
                    let config = surface_config(size, preferred);
                    (Stage::Ready(config), Action::Configure(config))
                },
                _ => (Stage::QueryingSurface, Action::Idle),
            },
            Stage::Ready(config) => (Stage::Ready(config), Action::Idle),
            Stage::Failed(e) => (Stage::Failed(e), Action::Idle),
        };
        (Handshake { stage }, action)
    }
}

} // verus!

verus! {

/// Whether the handshake has ended, well or badly.
pub open spec fn is_terminal(stage: Stage) -> bool {
    stage is Ready || stage is Failed
}

/// The stage reached from `stage` after the given events, one at a time.
pub open spec fn run(stage: Stage, events: Seq<Event>) -> Stage
    decreases events.len(),
{
    if events.len() == 0 {
        stage
    } else {
        run(next(stage, events[0]).0, events.drop_first())
    }
}

/// The actions requested while the given events are fed in from `stage`.
pub open spec fn actions(stage: Stage, events: Seq<Event>) -> Seq<Action>
    decreases events.len(),
{
    if events.len() == 0 {
        Seq::empty()
    } else {
        seq![next(stage, events[0]).1] + actions(next(stage, events[0]).0, events.drop_first())
    }
}

/// Whether `event` reports a window size and preferred format that give `config`.
pub open spec fn reports(event: Event, config: SurfaceConfig) -> bool {
    match event {
        Event::SurfaceQueried { size, preferred } => config == config_for(size, preferred)
            && config.width == size.width && config.height == size.height,
        _ => false,
    }
}

} // verus!
