use vstd::prelude::*;

use crate::error::InitError;
use crate::format::{config_for, SurfaceFormat, SurfaceSize};
use crate::handshake::{
    actions, initial_action, initial_stage, is_terminal, next, reports, run, Action, Event,
    Platform, Stage,
};

verus! {

/// Once the handshake has ended, no event changes its stage and no action is
/// requested.
pub proof fn lemma_terminal_is_final(stage: Stage, events: Seq<Event>)
    requires
        is_terminal(stage),
    ensures
        run(stage, events) == stage,
        actions(stage, events).len() == events.len(),
        forall|i: int| 0 <= i < events.len() ==> actions(stage, events)[i] == Action::Idle,
    decreases events.len(),
{
    if events.len() > 0 {
        lemma_terminal_is_final(stage, events.drop_first());
    }
}

/// A step that fails aborts once, and then the handshake stays failed with
/// that error and requests nothing more.
proof fn lemma_failure_is_final(stage: Stage, events: Seq<Event>, error: InitError)
    requires
        events.len() > 0,
        next(stage, events[0]) == (Stage::Failed(error), Action::Abort),
    ensures
        run(stage, events) == Stage::Failed(error),
        actions(stage, events).len() == events.len(),
        actions(stage, events)[0] == Action::Abort,
        forall|i: int| 1 <= i < events.len() ==> actions(stage, events)[i] == Action::Idle,
{
    lemma_terminal_is_final(Stage::Failed(error), events.drop_first());
}

/// On the web, when the target descriptor names no element, the handshake
/// fails with `TargetNotFound` and never asks for a window, whatever is
/// reported afterwards.
pub proof fn lemma_missing_target_builds_no_window(rest: Seq<Event>)
    ensures
        ({
            let events = seq![Event::TargetLookedUp { found: false }] + rest;
            let start = initial_stage(Platform::WebEmbedded);
            &&& run(start, events) == Stage::Failed(InitError::TargetNotFound)
            &&& initial_action(Platform::WebEmbedded) != Action::BuildWindow
            &&& forall|i: int|
                0 <= i < actions(start, events).len() ==> actions(start, events)[i]
                    != Action::BuildWindow
        }),
{
    let events = seq![Event::TargetLookedUp { found: false }] + rest;
    assert(events.drop_first() =~= rest);
    lemma_failure_is_final(Stage::FindingTarget, events, InitError::TargetNotFound);
}

/// On the web, when the target names an element that is not a canvas, the
/// handshake fails with `InvalidTargetType`, whatever is reported afterwards.
pub proof fn lemma_non_canvas_is_invalid_target(rest: Seq<Event>)
    ensures
        run(
            initial_stage(Platform::WebEmbedded),
            seq![Event::TargetLookedUp { found: true }, Event::CanvasChecked { is_canvas: false }]
                + rest,
        ) == Stage::Failed(InitError::InvalidTargetType),
{
    let events = seq![Event::TargetLookedUp { found: true }, Event::CanvasChecked { is_canvas: false }]
        + rest;
    let tail = events.drop_first();
    assert(tail.drop_first() =~= rest);
    lemma_failure_is_final(Stage::CheckingCanvas, tail, InitError::InvalidTargetType);
}

/// On the web, when the canvas offers no WebGPU context, the handshake fails
/// with `GraphicsUnsupported` and no adapter is ever requested.
pub proof fn lemma_no_graphics_requests_no_adapter(rest: Seq<Event>)
    ensures
        ({
            let events = seq![
                Event::TargetLookedUp { found: true },
                Event::CanvasChecked { is_canvas: true },
                Event::GraphicsProbed { supported: false },
            ] + rest;
            let start = initial_stage(Platform::WebEmbedded);
            &&& run(start, events) == Stage::Failed(InitError::GraphicsUnsupported)
            &&& initial_action(Platform::WebEmbedded) != Action::RequestAdapter
            &&& forall|i: int|
                0 <= i < actions(start, events).len() ==> actions(start, events)[i]
                    != Action::RequestAdapter
        }),
{
    let events = seq![
        Event::TargetLookedUp { found: true },
        Event::CanvasChecked { is_canvas: true },
        Event::GraphicsProbed { supported: false },
    ] + rest;
    let start = initial_stage(Platform::WebEmbedded);
    let t1 = events.drop_first();
    let t2 = t1.drop_first();
    assert(t2.drop_first() =~= rest);
    assert(events[0] == Event::TargetLookedUp { found: true });
    assert(t1[0] == Event::CanvasChecked { is_canvas: true });
    assert(t2[0] == Event::GraphicsProbed { supported: false });
    lemma_failure_is_final(Stage::ProbingGraphics, t2, InitError::GraphicsUnsupported);
    assert(run(Stage::CheckingCanvas, t1) == run(Stage::ProbingGraphics, t2));
    assert(run(start, events) == run(Stage::CheckingCanvas, t1));
    let a2 = actions(Stage::ProbingGraphics, t2);
    let a1 = actions(Stage::CheckingCanvas, t1);
    assert(a1 == seq![Action::ProbeGraphics] + a2);
    assert(actions(start, events) == seq![Action::CheckCanvas] + a1);
    assert forall|i: int| 0 <= i < actions(start, events).len() implies actions(start, events)[i]
        != Action::RequestAdapter by {
        if i >= 2 {
            assert(actions(start, events)[i] == a2[i - 2]);
        } else if i == 1 {
            assert(actions(start, events)[i] == a1[0]);
        }
    }
}

/// A handshake that completes configures the surface from a reported window
/// size and preferred format: its width and height are the window's physical
/// size at that moment.
pub proof fn lemma_ready_uses_reported_size(stage: Stage, events: Seq<Event>)
    requires
        !(stage is Ready),
        run(stage, events) is Ready,
    ensures
        exists|i: int| 0 <= i < events.len() && reports(events[i], run(stage, events)->Ready_0),
    decreases events.len(),
{
    let first = next(stage, events[0]).0;
    if first is Ready {
        lemma_terminal_is_final(first, events.drop_first());
        assert(reports(events[0], run(stage, events)->Ready_0));
    } else {
        lemma_ready_uses_reported_size(first, events.drop_first());
        let j = choose|j: int|
            0 <= j < events.drop_first().len() && reports(
                events.drop_first()[j],
                run(first, events.drop_first())->Ready_0,
            );
        assert(events.drop_first()[j] == events[j + 1]);
    }
}

/// When the backend reports no preferred format, the surface is configured
/// with 8-bit BGRA, sRGB.
pub proof fn lemma_no_preference_falls_back(size: SurfaceSize)
    ensures
        next(Stage::QueryingSurface, Event::SurfaceQueried { size, preferred: None }).0
            == Stage::Ready(config_for(size, None)),
        config_for(size, None).format == SurfaceFormat::Bgra8UnormSrgb,
{
}

} // verus!
