use scrolldemo::events::ElementState;
use scrolldemo::events::InputEvent;
use scrolldemo::events::MouseScrollDelta;
use scrolldemo::events::TouchPhase;
use scrolldemo::events::VirtualKey;
use scrolldemo::reducer::process_events;
use scrolldemo::reducer::ReduceResult;
use scrolldemo::reducer::TouchDragState;
use scrolldemo::state::ViewState;

fn reduce(view: ViewState, touch: TouchDragState, events: Vec<InputEvent>) -> ReduceResult {
    process_events(&view, &touch, &events)
}

fn fresh(dpi_hundredths: u32) -> ViewState {
    ViewState::new(800, 600, dpi_hundredths)
}

#[test]
fn wheel_scroll_stays_nonnegative() {
    let mut view = fresh(100);
    let mut touch = TouchDragState::Idle;
    let batches = vec![
        vec![InputEvent::MouseWheel(MouseScrollDelta::LineDelta(0, 5))],
        vec![InputEvent::MouseWheel(MouseScrollDelta::PixelDelta(0, -30))],
        vec![InputEvent::MouseWheel(MouseScrollDelta::PixelDelta(0, 1000))],
        vec![
            InputEvent::MouseWheel(MouseScrollDelta::LineDelta(0, -2)),
            InputEvent::MouseWheel(MouseScrollDelta::LineDelta(0, 100)),
        ],
    ];
    for batch in batches {
        let r = reduce(view, touch, batch);
        assert!(r.view.scroll_offset.y >= 0);
        assert!(r.scroll_changed);
        view = r.view;
        touch = r.touch;
    }
}

#[test]
fn wheel_pixel_delta_moves_scroll_exactly() {
    let view = fresh(100);
    let r = reduce(
        view,
        TouchDragState::Idle,
        vec![InputEvent::MouseWheel(MouseScrollDelta::PixelDelta(0, -30))],
    );
    assert_eq!(r.view.scroll_offset.y, 30);
    let r2 = reduce(
        r.view,
        r.touch,
        vec![InputEvent::MouseWheel(MouseScrollDelta::PixelDelta(0, 12))],
    );
    assert_eq!(r2.view.scroll_offset.y, 18);
}

#[test]
fn wheel_line_delta_scales_by_line_height() {
    let view = fresh(100);
    let r = reduce(
        view,
        TouchDragState::Idle,
        vec![InputEvent::MouseWheel(MouseScrollDelta::LineDelta(0, -4))],
    );
    // 4 lines of 24 pixels each
    assert_eq!(r.view.scroll_offset.y, 96);
    let r2 = reduce(
        r.view,
        r.touch,
        vec![InputEvent::MouseWheel(MouseScrollDelta::LineDelta(0, 1))],
    );
    assert_eq!(r2.view.scroll_offset.y, 72);
}

#[test]
fn wheel_overshoot_clamps_to_zero() {
    let view = fresh(100);
    let r = reduce(
        view,
        TouchDragState::Idle,
        vec![
            InputEvent::MouseWheel(MouseScrollDelta::PixelDelta(0, -10)),
            InputEvent::MouseWheel(MouseScrollDelta::PixelDelta(0, 50)),
        ],
    );
    assert_eq!(r.view.scroll_offset.y, 0);
}

#[test]
fn wheel_huge_delta_saturates() {
    let view = fresh(100);
    let r = reduce(
        view,
        TouchDragState::Idle,
        vec![InputEvent::MouseWheel(MouseScrollDelta::PixelDelta(0, i32::MIN))],
    );
    assert_eq!(r.view.scroll_offset.y, i32::MAX);
}

#[test]
fn touch_drag_sequence_scrolls_then_clears_anchor() {
    let mut view = fresh(100);
    let mut touch = TouchDragState::Idle;

    let r = reduce(view, touch, vec![InputEvent::Touch(TouchPhase::Started, 0, 100)]);
    assert_eq!(r.view.scroll_offset.y, 0);
    assert!(r.scroll_changed);
    assert!(matches!(r.touch, TouchDragState::Dragging(_)));
    view = r.view;
    touch = r.touch;

    let r = reduce(view, touch, vec![InputEvent::Touch(TouchPhase::Moved, 0, 80)]);
    assert_eq!(r.view.scroll_offset.y, 20);
    view = r.view;
    touch = r.touch;

    let r = reduce(view, touch, vec![InputEvent::Touch(TouchPhase::Moved, 0, 60)]);
    assert_eq!(r.view.scroll_offset.y, 40);
    view = r.view;
    touch = r.touch;

    let r = reduce(view, touch, vec![InputEvent::Touch(TouchPhase::Ended, 0, 60)]);
    assert_eq!(r.view.scroll_offset.y, 40);
    assert!(matches!(r.touch, TouchDragState::Idle));
    view = r.view;
    touch = r.touch;

    // a further move without a new start leaves the scroll position alone,
    // though it still marks the scroll as touched
    let r = reduce(view, touch, vec![InputEvent::Touch(TouchPhase::Moved, 0, 10)]);
    assert_eq!(r.view.scroll_offset.y, 40);
    assert!(r.scroll_changed);
    assert!(matches!(r.touch, TouchDragState::Idle));
}

#[test]
fn touch_cancel_clears_anchor() {
    let view = fresh(100);
    let r = reduce(
        view,
        TouchDragState::Idle,
        vec![
            InputEvent::Touch(TouchPhase::Started, 0, 50),
            InputEvent::Touch(TouchPhase::Cancelled, 0, 50),
            InputEvent::Touch(TouchPhase::Moved, 0, 10),
        ],
    );
    assert_eq!(r.view.scroll_offset.y, 0);
    assert!(matches!(r.touch, TouchDragState::Idle));
}

#[test]
fn touch_drag_upward_clamps_at_zero() {
    let view = fresh(100);
    let r = reduce(
        view,
        TouchDragState::Idle,
        vec![
            InputEvent::Touch(TouchPhase::Started, 0, 100),
            InputEvent::Touch(TouchPhase::Moved, 0, 300),
        ],
    );
    assert_eq!(r.view.scroll_offset.y, 0);
}

#[test]
fn pressing_d_twice_toggles_debug_overlay_back() {
    let view = fresh(100);
    assert!(!view.debug_overlay_enabled);
    let press = InputEvent::KeyboardInput(ElementState::Pressed, Some(VirtualKey::D));
    let r = reduce(view, TouchDragState::Idle, vec![press]);
    assert!(r.view.debug_overlay_enabled);
    let r2 = reduce(r.view, r.touch, vec![press]);
    assert!(!r2.view.debug_overlay_enabled);
}

#[test]
fn releasing_d_does_not_toggle() {
    let view = fresh(100);
    let r = reduce(
        view,
        TouchDragState::Idle,
        vec![InputEvent::KeyboardInput(ElementState::Released, Some(VirtualKey::D))],
    );
    assert!(!r.view.debug_overlay_enabled);
}

#[test]
fn resize_at_dpi_two_halves_layout_size() {
    let view = fresh(200);
    let r = reduce(view, TouchDragState::Idle, vec![InputEvent::Resized(800, 600)]);
    assert_eq!(r.view.layout_size.width, 400);
    assert_eq!(r.view.layout_size.height, 300);
    assert_eq!(r.view.window_size.width, 800);
    assert_eq!(r.view.window_size.height, 600);
    assert!(r.window_parameters_changed);
}

#[test]
fn window_move_requeries_dpi_and_rescales_layout() {
    let view = fresh(100);
    assert_eq!(view.layout_size.width, 800);
    let r = reduce(view, TouchDragState::Idle, vec![InputEvent::Moved(200)]);
    assert_eq!(r.view.dpi_factor_hundredths, 200);
    assert_eq!(r.view.layout_size.width, 400);
    assert_eq!(r.view.layout_size.height, 300);
    assert!(r.window_parameters_changed);
}

#[test]
fn mouse_move_scales_to_layout_units() {
    let view = fresh(200);
    let r = reduce(view, TouchDragState::Idle, vec![InputEvent::MouseMoved(100, 50)]);
    assert_eq!(r.view.cursor_position.x, 50);
    assert_eq!(r.view.cursor_position.y, 25);
    // negative coordinates truncate toward zero
    let r2 = reduce(r.view, r.touch, vec![InputEvent::MouseMoved(-51, -1)]);
    assert_eq!(r2.view.cursor_position.x, -25);
    assert_eq!(r2.view.cursor_position.y, 0);
}

#[test]
fn close_event_terminates_mid_batch() {
    let view = fresh(100);
    let r = reduce(
        view,
        TouchDragState::Idle,
        vec![
            InputEvent::MouseWheel(MouseScrollDelta::PixelDelta(0, -10)),
            InputEvent::Closed,
            InputEvent::MouseWheel(MouseScrollDelta::PixelDelta(0, -10)),
        ],
    );
    assert!(r.terminate);
    // the first wheel event was applied, the one after the close was not
    assert_eq!(r.view.scroll_offset.y, 10);
}

#[test]
fn escape_and_q_terminate_in_any_state() {
    let view = fresh(100);
    for key in [VirtualKey::Escape, VirtualKey::Q] {
        for st in [ElementState::Pressed, ElementState::Released] {
            let r = reduce(
                view,
                TouchDragState::Idle,
                vec![InputEvent::KeyboardInput(st, Some(key))],
            );
            assert!(r.terminate);
        }
    }
}

#[test]
fn batch_without_terminator_keeps_running() {
    let view = fresh(100);
    let r = reduce(
        view,
        TouchDragState::Idle,
        vec![
            InputEvent::MouseWheel(MouseScrollDelta::LineDelta(0, 1)),
            InputEvent::KeyboardInput(ElementState::Pressed, Some(VirtualKey::D)),
            InputEvent::Other,
        ],
    );
    assert!(!r.terminate);
}

#[test]
fn other_events_are_ignored() {
    let view = fresh(100);
    let r = reduce(view, TouchDragState::Idle, vec![InputEvent::Other]);
    assert_eq!(r.view, view);
    assert!(!r.scroll_changed);
    assert!(!r.window_parameters_changed);
    assert!(!r.terminate);
}

#[test]
fn new_view_state_clamps_zero_dpi() {
    let view = ViewState::new(640, 480, 0);
    assert_eq!(view.dpi_factor_hundredths, 1);
    // a factor of 0.01 blows the layout size up a hundredfold
    assert_eq!(view.layout_size.width, 64000);
    assert_eq!(view.layout_size.height, 48000);
}

#[test]
fn new_view_state_starts_at_rest() {
    let view = ViewState::new(1024, 768, 150);
    assert_eq!(view.window_size.width, 1024);
    assert_eq!(view.window_size.height, 768);
    assert_eq!(view.layout_size.width, 682);
    assert_eq!(view.layout_size.height, 512);
    assert_eq!(view.scroll_offset.x, 0);
    assert_eq!(view.scroll_offset.y, 0);
    assert_eq!(view.cursor_position.x, 0);
    assert_eq!(view.cursor_position.y, 0);
    assert!(!view.debug_overlay_enabled);
}
