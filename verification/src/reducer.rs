//! The input reducer: folds one batch of input events into the view state.
//!
//! The event loop drains the events queued since the last frame and hands
//! them here in arrival order. The reducer is total: out-of-range inputs are
//! clamped, never rejected. A close request or the Escape or Q key ends the
//! batch early and asks the loop to terminate.

use vstd::prelude::*;
use crate::events::ElementState;
use crate::events::InputEvent;
use crate::events::MouseScrollDelta;
use crate::events::TouchPhase;
use crate::events::VirtualKey;
use crate::events::is_terminator;
use crate::events::event_is_terminator;
use crate::geom::DeviceSize;
use crate::geom::LayoutPoint;
use crate::state::ScrollOffset;
use crate::state::ViewState;
use crate::state::compute_layout_size;
use crate::state::layout_size_of;

verus! {

/// Pixels per line of a line-based wheel delta.
pub const LINE_HEIGHT: i32 = 24;

/// The scroll position and touch point recorded when a touch drag starts.
#[derive(Clone, Copy, PartialEq, Eq, Structural, Debug)]
pub struct TouchAnchor {
    /// The scroll offset at the moment the touch started.
    pub scroll: ScrollOffset,
    /// The touch point at the moment the touch started, in device pixels.
    pub touch_x: i32,
    pub touch_y: i32,
}

/// Whether a touch drag is in progress. The anchor is valid only between a
/// touch start and the matching end or cancel.
#[derive(Clone, Copy, PartialEq, Eq, Structural, Debug)]
pub enum TouchDragState {
    Idle,
    Dragging(TouchAnchor),
}

/// What one batch of events reduces to: the new view state and touch state,
/// whether the window parameters or the scroll position changed, and whether
/// the event loop should terminate.
#[derive(Clone, Copy, PartialEq, Eq, Structural, Debug)]
pub struct ReduceResult {
    pub view: ViewState,
    pub touch: TouchDragState,
    pub window_parameters_changed: bool,
    pub scroll_changed: bool,
    pub terminate: bool,
}

/// The state a batch starts from: the carried-over view and touch state,
/// with all change flags down.
pub open spec fn batch_start(view: ViewState, touch: TouchDragState) -> ReduceResult {
    ReduceResult {
        view,
        touch,
        window_parameters_changed: false,
        scroll_changed: false,
        terminate: false,
    }
}

/// A scroll coordinate clamped into `[0, i32::MAX]`.
pub open spec fn clamp_scroll(v: int) -> int {
    if v < 0 {
        0
    } else if v > i32::MAX {
        i32::MAX as int
    } else {
        v
    }
}

/// The vertical pixel distance a wheel delta stands for.
pub open spec fn wheel_delta_pixels(d: MouseScrollDelta) -> int {
    match d {
        MouseScrollDelta::PixelDelta(_, dy) => dy as int,
        MouseScrollDelta::LineDelta(_, dy) => dy as int * LINE_HEIGHT,
    }
}

/// A device coordinate scaled to layout units: multiplied by 100, divided by
/// the DPI factor in hundredths, truncated toward zero.
pub open spec fn scale_to_layout(v: int, dpi_factor_hundredths: int) -> int
    recommends
        dpi_factor_hundredths >= 1,
{
    if v >= 0 {
        (v * 100) / dpi_factor_hundredths
    } else {
        -(((-v) * 100) / dpi_factor_hundredths)
    }
}

/// The scroll offset a touch drag yields: the anchored scroll position moved
/// by how far the touch has travelled from its anchor, clamped at zero.
pub open spec fn drag_scroll(current: ScrollOffset, anchor: TouchAnchor, touch_y: int) -> ScrollOffset {
    ScrollOffset {
        x: current.x,
        y: clamp_scroll(anchor.scroll.y + (anchor.touch_y - touch_y)) as i32,
    }
}

/// How one touch event changes the state.
pub open spec fn step_touch(r: ReduceResult, phase: TouchPhase, x: i32, y: i32) -> ReduceResult {
    if phase == TouchPhase::Ended || phase == TouchPhase::Cancelled {
        ReduceResult { touch: TouchDragState::Idle, ..r }
    } else if phase == TouchPhase::Started {
        let anchor = TouchAnchor { scroll: r.view.scroll_offset, touch_x: x, touch_y: y };
        ReduceResult {
            touch: TouchDragState::Dragging(anchor),
            view: ViewState {
                scroll_offset: drag_scroll(r.view.scroll_offset, anchor, y as int),
                ..r.view
            },
            scroll_changed: true,
            ..r
        }
    } else {
        match r.touch {
            TouchDragState::Dragging(anchor) => ReduceResult {
                view: ViewState {
                    scroll_offset: drag_scroll(r.view.scroll_offset, anchor, y as int),
                    ..r.view
                },
                scroll_changed: true,
                ..r
            },
            // without a live anchor the scroll position stays, but a touch
            // move still marks the scroll as touched
            TouchDragState::Idle => ReduceResult { scroll_changed: true, ..r },
        }
    }
}

/// How one event changes the state. A terminating event only raises the
/// terminate flag; every other event is reduced by the rules of its kind,
/// and unrecognised events change nothing.
pub open spec fn step(r: ReduceResult, e: InputEvent) -> ReduceResult {
    if is_terminator(e) {
        ReduceResult { terminate: true, ..r }
    } else {
        match e {
            InputEvent::KeyboardInput(st, key) => {
                if st == ElementState::Pressed && key == Some(VirtualKey::D) {
                    ReduceResult {
                        view: ViewState {
                            debug_overlay_enabled: !r.view.debug_overlay_enabled,
                            ..r.view
                        },
                        ..r
                    }
                } else {
                    r
                }
            },
            InputEvent::Moved(dpi) => {
                let nd = if dpi == 0 { 1u32 } else { dpi };
                ReduceResult {
                    view: ViewState {
                        dpi_factor_hundredths: nd,
                        layout_size: layout_size_of(r.view.window_size, nd as int),
                        ..r.view
                    },
                    window_parameters_changed: true,
                    ..r
                }
            },
            InputEvent::Resized(w, h) => {
                let ns = DeviceSize { width: w, height: h };
                ReduceResult {
                    view: ViewState {
                        window_size: ns,
                        layout_size: layout_size_of(ns, r.view.dpi_factor_hundredths as int),
                        ..r.view
                    },
                    window_parameters_changed: true,
                    ..r
                }
            },
            InputEvent::MouseMoved(x, y) => ReduceResult {
                view: ViewState {
                    cursor_position: LayoutPoint {
                        x: scale_to_layout(x as int, r.view.dpi_factor_hundredths as int) as i64,
                        y: scale_to_layout(y as int, r.view.dpi_factor_hundredths as int) as i64,
                    },
                    ..r.view
                },
                ..r
            },
            InputEvent::MouseWheel(d) => ReduceResult {
                view: ViewState {
                    scroll_offset: ScrollOffset {
                        x: r.view.scroll_offset.x,
                        y: clamp_scroll(r.view.scroll_offset.y - wheel_delta_pixels(d)) as i32,
                    },
                    ..r.view
                },
                scroll_changed: true,
                ..r
            },
            InputEvent::Touch(phase, x, y) => step_touch(r, phase, x, y),
            _ => r,
        }
    }
}

/// The whole batch, folded in arrival order. Once the terminate flag is up,
/// the remaining events are not processed.
pub open spec fn run(r: ReduceResult, events: Seq<InputEvent>) -> ReduceResult
    decreases events.len(),
{
    if r.terminate || events.len() == 0 {
        r
    } else {
        run(step(r, events[0]), events.skip(1))
    }
}

/// Law: no single step drives the scroll offset below zero. Every event
/// that touches the scroll position clamps it at zero, and every other
/// event leaves it alone.
pub proof fn lemma_step_scroll_nonnegative(r: ReduceResult, e: InputEvent)
    requires
        r.view.scroll_offset.y >= 0,
    ensures
        step(r, e).view.scroll_offset.y >= 0,
{
}

/// Law: for any batch of events — wheel scrolls included — the resulting
/// scroll offset's y component is never negative.
pub proof fn lemma_scroll_offset_stays_nonnegative(r: ReduceResult, events: Seq<InputEvent>)
    requires
        r.view.scroll_offset.y >= 0,
    ensures
        run(r, events).view.scroll_offset.y >= 0,
    decreases events.len(),
{
    if r.terminate || events.len() == 0 {
    } else {
        lemma_step_scroll_nonnegative(r, events[0]);
        lemma_scroll_offset_stays_nonnegative(step(r, events[0]), events.skip(1));
    }
}

/// Law: one step preserves well-formedness of the view state.
pub proof fn lemma_step_preserves_wf(r: ReduceResult, e: InputEvent)
    requires
        r.view.wf(),
    ensures
        step(r, e).view.wf(),
{
}

/// Law: a whole batch preserves well-formedness of the view state.
pub proof fn lemma_run_preserves_wf(r: ReduceResult, events: Seq<InputEvent>)
    requires
        r.view.wf(),
    ensures
        run(r, events).view.wf(),
    decreases events.len(),
{
    if r.terminate || events.len() == 0 {
    } else {
        lemma_step_preserves_wf(r, events[0]);
        lemma_run_preserves_wf(step(r, events[0]), events.skip(1));
    }
}

/// Law: pressing the D key toggles the debug overlay, and pressing it twice
/// restores it — whatever the rest of the state holds.
pub proof fn lemma_debug_toggle_twice(r: ReduceResult)
    ensures
        step(
            r,
            InputEvent::KeyboardInput(ElementState::Pressed, Some(VirtualKey::D)),
        ).view.debug_overlay_enabled == !r.view.debug_overlay_enabled,
        step(
            step(r, InputEvent::KeyboardInput(ElementState::Pressed, Some(VirtualKey::D))),
            InputEvent::KeyboardInput(ElementState::Pressed, Some(VirtualKey::D)),
        ).view.debug_overlay_enabled == r.view.debug_overlay_enabled,
{
}

/// Law: a terminated state absorbs every further event.
pub proof fn lemma_run_terminated(r: ReduceResult, events: Seq<InputEvent>)
    requires
        r.terminate,
    ensures
        run(r, events) == r,
{
}

/// Law: a close request or an Escape or Q key anywhere in a batch makes the
/// batch ask for termination, whatever other events stand around it.
pub proof fn lemma_terminator_terminates(r: ReduceResult, events: Seq<InputEvent>, i: int)
    requires
        0 <= i < events.len(),
        is_terminator(events[i]),
    ensures
        run(r, events).terminate,
    decreases i,
{
    if r.terminate {
    } else if i == 0 {
        assert(step(r, events[0]).terminate);
        lemma_run_terminated(step(r, events[0]), events.skip(1));
    } else {
        assert(events.skip(1)[i - 1] == events[i]);
        lemma_terminator_terminates(step(r, events[0]), events.skip(1), i - 1);
    }
}

/// Law: a batch without a close request or an Escape or Q key never asks
/// for termination.
pub proof fn lemma_no_terminator_keeps_running(r: ReduceResult, events: Seq<InputEvent>)
    requires
        !r.terminate,
        forall|i: int| 0 <= i < events.len() ==> !is_terminator(#[trigger] events[i]),
    ensures
        !run(r, events).terminate,
    decreases events.len(),
{
    if events.len() == 0 {
    } else {
        assert(!is_terminator(events[0]));
        assert(!step(r, events[0]).terminate);
        assert forall|i: int| 0 <= i < events.skip(1).len() implies !is_terminator(
            #[trigger] events.skip(1)[i],
        ) by {
            assert(events.skip(1)[i] == events[i + 1]);
        }
        lemma_no_terminator_keeps_running(step(r, events[0]), events.skip(1));
    }
}

/// Law: a touch end or cancel clears the drag anchor.
pub proof fn lemma_touch_end_clears_anchor(r: ReduceResult, phase: TouchPhase, x: i32, y: i32)
    requires
        phase == TouchPhase::Ended || phase == TouchPhase::Cancelled,
    ensures
        step(r, InputEvent::Touch(phase, x, y)).touch == TouchDragState::Idle,
{
}

/// Law: a touch move without a live anchor — after an end or cancel, before
/// the next start — leaves the view state and the touch state unchanged; it
/// only marks the scroll as touched.
pub proof fn lemma_touch_move_without_anchor(r: ReduceResult, x: i32, y: i32)
    requires
        r.touch == TouchDragState::Idle,
    ensures
        step(r, InputEvent::Touch(TouchPhase::Moved, x, y)).view == r.view,
        step(r, InputEvent::Touch(TouchPhase::Moved, x, y)).touch == r.touch,
        step(r, InputEvent::Touch(TouchPhase::Moved, x, y)).scroll_changed,
{
}

/// Clamps an i64 scroll coordinate into `[0, i32::MAX]`.
fn clamp_scroll_i64(v: i64) -> (r: i32)
    ensures
        r as int == clamp_scroll(v as int),
{
    if v < 0 {
        0
    } else if v > i32::MAX as i64 {
        i32::MAX
    } else {
        v as i32
    }
}

/// Computes `scale_to_layout` on machine integers.
fn scale_coord(v: i32, dpi_factor_hundredths: u32) -> (r: i64)
    requires
        dpi_factor_hundredths >= 1,
    ensures
        r as int == scale_to_layout(v as int, dpi_factor_hundredths as int),
{
    if v >= 0 {
        (((v as u64) * 100) / (dpi_factor_hundredths as u64)) as i64
    } else {
        let mag: u64 = (((-(v as i64)) as u64) * 100) / (dpi_factor_hundredths as u64);
        -(mag as i64)
    }
}

/// Computes `drag_scroll` on machine integers.
fn compute_drag_scroll(current: ScrollOffset, anchor: &TouchAnchor, touch_y: i32) -> (s: ScrollOffset)
    ensures
        s == drag_scroll(current, *anchor, touch_y as int),
{
    let target: i64 = anchor.scroll.y as i64 + (anchor.touch_y as i64 - touch_y as i64);
    ScrollOffset { x: current.x, y: clamp_scroll_i64(target) }
}

/// Reduces a single event: the executable form of `step`.
pub fn reduce_event(r: ReduceResult, e: &InputEvent) -> (out: ReduceResult)
    requires
        r.view.wf(),
    ensures
        out == step(r, *e),
        out.view.wf(),
{
    if event_is_terminator(e) {
        let mut out = r;
        out.terminate = true;
        return out;
    }
    match e {
        InputEvent::KeyboardInput(st, key) => {
            match key {
                Some(VirtualKey::D) => {
                    if *st == ElementState::Pressed {
                        let mut out = r;
                        out.view.debug_overlay_enabled = !r.view.debug_overlay_enabled;
                        out
                    } else {
                        r
                    }
                },
                _ => r,
            }
        },
        InputEvent::Moved(dpi) => {
            let nd: u32 = if *dpi == 0 { 1 } else { *dpi };
            let mut out = r;
            out.view.dpi_factor_hundredths = nd;
            out.view.layout_size = compute_layout_size(r.view.window_size, nd);
            out.window_parameters_changed = true;
            out
        },
        InputEvent::Resized(w, h) => {
            let ns = DeviceSize { width: *w, height: *h };
            let mut out = r;
            out.view.window_size = ns;
            out.view.layout_size = compute_layout_size(ns, r.view.dpi_factor_hundredths);
            out.window_parameters_changed = true;
            out
        },
        InputEvent::MouseMoved(x, y) => {
            let mut out = r;
            out.view.cursor_position = LayoutPoint {
                x: scale_coord(*x, r.view.dpi_factor_hundredths),
                y: scale_coord(*y, r.view.dpi_factor_hundredths),
            };
            out
        },
        InputEvent::MouseWheel(d) => {
            let dy_pixels: i64 = match d {
                MouseScrollDelta::PixelDelta(_, dy) => *dy as i64,
                MouseScrollDelta::LineDelta(_, dy) => (*dy as i64) * (LINE_HEIGHT as i64),
            };
            let mut out = r;
            out.view.scroll_offset.y = clamp_scroll_i64(r.view.scroll_offset.y as i64 - dy_pixels);
            out.scroll_changed = true;
            out
        },
        InputEvent::Touch(phase, x, y) => {
            match phase {
                TouchPhase::Ended | TouchPhase::Cancelled => {
                    let mut out = r;
                    out.touch = TouchDragState::Idle;
                    out
                },
                TouchPhase::Started => {
                    let anchor = TouchAnchor {
                        scroll: r.view.scroll_offset,
                        touch_x: *x,
                        touch_y: *y,
                    };
                    let mut out = r;
                    out.touch = TouchDragState::Dragging(anchor);
                    out.view.scroll_offset = compute_drag_scroll(r.view.scroll_offset, &anchor, *y);
                    out.scroll_changed = true;
                    out
                },
                TouchPhase::Moved => {
                    match &r.touch {
                        TouchDragState::Dragging(anchor) => {
                            let a = *anchor;
                            let mut out = r;
                            out.view.scroll_offset = compute_drag_scroll(r.view.scroll_offset, &a, *y);
                            out.scroll_changed = true;
                            out
                        },
                        TouchDragState::Idle => {
                            let mut out = r;
                            out.scroll_changed = true;
                            out
                        },
                    }
                },
            }
        },
        _ => r,
    }
}

/// Reduces a whole batch of events in arrival order: the executable form of
/// `run`, started on the carried-over view and touch state with all change
/// flags down.
pub fn process_events(view: &ViewState, touch: &TouchDragState, events: &Vec<InputEvent>) -> (r: ReduceResult)
    requires
        view.wf(),
    ensures
        r == run(batch_start(*view, *touch), events@),
        r.view.wf(),
{
    let mut r = ReduceResult {
        view: *view,
        touch: *touch,
        window_parameters_changed: false,
        scroll_changed: false,
        terminate: false,
    };
    let ghost start = r;
    proof {
        assert(events@.skip(0) =~= events@);
    }
    let mut i: usize = 0;
    while i < events.len()
        invariant
            i <= events.len(),
            r.view.wf(),
            run(start, events@) == run(r, events@.skip(i as int)),
        decreases events.len() - i,
    {
        if !r.terminate {
            r = reduce_event(r, &events[i]);
            proof {
                assert(events@.skip(i as int)[0] == events@[i as int]);
                assert(events@.skip(i as int).skip(1) =~= events@.skip(i as int + 1));
            }
        } else {
            proof {
                assert(run(r, events@.skip(i as int)) == r);
                assert(run(r, events@.skip(i as int + 1)) == r);
            }
        }
        i += 1;
    }
    proof {
        assert(events@.skip(events@.len() as int).len() == 0);
    }
    r
}

} // verus!
