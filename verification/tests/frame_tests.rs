use scrolldemo::events::InputEvent;
use scrolldemo::frame::build_display_list;
use scrolldemo::frame::scroll_content_size;
use scrolldemo::geom::HandyDandyRectBuilder;
use scrolldemo::geom::LayoutRect;
use scrolldemo::reducer::process_events;
use scrolldemo::reducer::TouchDragState;
use scrolldemo::state::ViewState;

/// A 400x300 layout with the cursor at (100, 50).
fn sample_view() -> ViewState {
    let view = ViewState::new(400, 300, 100);
    let events = vec![InputEvent::MouseMoved(100, 50)];
    process_events(&view, &TouchDragState::Idle, &events).view
}

#[test]
fn display_list_is_deterministic() {
    let view = sample_view();
    let a = build_display_list(&view);
    let b = build_display_list(&view);
    assert_eq!(a, b);
}

#[test]
fn display_list_holds_band_then_rows() {
    let view = sample_view();
    let rects = build_display_list(&view);
    assert_eq!(rects.len(), 512);

    // outermost band rectangle: spans from the cursor to its mirror image
    let outer = &rects[0];
    assert_eq!(outer.rect, LayoutRect { x: 100, y: 50, width: 200, height: 200 });
    assert_eq!(outer.color.gray, 0);

    // innermost band rectangle: shrunk to the centre, darkest
    let inner = &rects[255];
    assert_eq!(inner.rect, LayoutRect { x: 199, y: 149, width: 1, height: 1 });
    assert_eq!(inner.color.gray, 255);

    // first rows: alternate between the rising and the falling fade
    let row0 = &rects[256];
    assert_eq!(row0.rect, LayoutRect { x: 5, y: 10, width: 390, height: 25 });
    assert_eq!(row0.color.gray, 0);

    let row1 = &rects[257];
    assert_eq!(row1.rect, LayoutRect { x: 5, y: 45, width: 390, height: 25 });
    assert_eq!(row1.color.gray, 510);

    let row2 = &rects[258];
    assert_eq!(row2.rect, LayoutRect { x: 5, y: 80, width: 390, height: 25 });
    assert_eq!(row2.color.gray, 4);

    // last row
    let row255 = &rects[511];
    assert_eq!(row255.rect, LayoutRect { x: 5, y: 8935, width: 390, height: 25 });
    assert_eq!(row255.color.gray, 2);
}

#[test]
fn display_list_centers_band_when_cursor_in_far_half() {
    // the cursor is mirrored about the centre, so (300, 250) draws the same
    // band as (100, 50)
    let near = sample_view();
    let far_view = ViewState::new(400, 300, 100);
    let events = vec![InputEvent::MouseMoved(300, 250)];
    let far = process_events(&far_view, &TouchDragState::Idle, &events).view;
    assert_eq!(build_display_list(&near), build_display_list(&far));
}

#[test]
fn scroll_content_spans_full_row_list() {
    let view = sample_view();
    let content = scroll_content_size(view.layout_size);
    assert_eq!(content.width, 400);
    // 256 rows of 35 layout units each
    assert_eq!(content.height, 8960);
}

#[test]
fn rect_builder_to_spans_corners() {
    let r = (5, 10).to(395, 35);
    assert_eq!(r, LayoutRect { x: 5, y: 10, width: 390, height: 25 });
    // inverted corners give a degenerate negative extent
    let r2 = (10, 10).to(0, 0);
    assert_eq!(r2, LayoutRect { x: 10, y: 10, width: -10, height: -10 });
}

#[test]
fn rect_builder_by_uses_extent() {
    let r = (1, 2).by(3, 4);
    assert_eq!(r, LayoutRect { x: 1, y: 2, width: 3, height: 4 });
}
