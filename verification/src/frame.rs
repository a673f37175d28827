//! The frame builder: enumerates the rectangles of one frame.
//!
//! Each frame is rebuilt whole from the view state: first a gradient band of
//! nested rectangles converging on the cursor, then the scrollable row list.
//! The output is a pure function of the layout size and cursor position, so
//! building the same state twice gives identical lists.

use vstd::prelude::*;
use vstd::arithmetic::div_mod::lemma_div_is_ordered;
use crate::geom::LayoutPoint;
use crate::geom::LayoutRect;
use crate::geom::LayoutSize;
use crate::state::ViewState;

verus! {

/// How many nested rectangles the gradient band holds.
pub const BAND_COUNT: u64 = 256;

/// How many rows the list holds.
pub const ROW_COUNT: u64 = 256;

/// Height of one row in layout units.
pub const ROW_HEIGHT: i64 = 35;

/// Top padding of each row in layout units.
pub const ROW_PADDING: i64 = 10;

/// Horizontal inset of each row in layout units.
pub const ROW_INSET: i64 = 5;

/// Height of the scrollable content area in layout units: the full virtual
/// row list, `ROW_COUNT` rows of `ROW_HEIGHT` each.
pub const SCROLL_CONTENT_HEIGHT: u32 = 256 * 35;

/// Denominator of the gray levels in `ColorShade`.
pub const COLOR_DENOM: u16 = 512;

/// A grayscale fill: all three channels hold `gray / COLOR_DENOM`, with full
/// alpha.
#[derive(Clone, Copy, PartialEq, Eq, Structural, Debug)]
pub struct ColorShade {
    pub gray: u16,
}

/// One draw command: fill `rect` with `color`.
#[derive(Clone, Copy, PartialEq, Eq, Structural, Debug)]
pub struct RectCommand {
    pub rect: LayoutRect,
    pub color: ColorShade,
}

/// A cursor coordinate folded into the near half of the window: clamped into
/// `[0, extent]`, then mirrored about the centre when it lies in the far
/// half. The result never exceeds half the extent.
pub open spec fn fold_toward_center(extent: int, pos: int) -> int {
    let clamped = if pos < 0 {
        0
    } else if pos > extent {
        extent
    } else {
        pos
    };
    if 2 * clamped > extent {
        extent - clamped
    } else {
        clamped
    }
}

/// The near edge of band rectangle `i` along one axis: the centre pulled
/// toward the folded cursor coordinate by the factor `(256 - i) / 256`.
pub open spec fn band_low(extent: int, pos: int, i: int) -> int {
    (extent * 256 - (extent - 2 * fold_toward_center(extent, pos)) * (256 - i)) / 512
}

/// The far edge of band rectangle `i` along one axis, mirror of `band_low`
/// about the centre.
pub open spec fn band_high(extent: int, pos: int, i: int) -> int {
    (extent * 256 + (extent - 2 * fold_toward_center(extent, pos)) * (256 - i)) / 512
}

/// Band rectangle `i`: spans from the low to the high edge on both axes and
/// darkens as it shrinks, gray level `i` in 512ths.
pub open spec fn band_rect(layout: LayoutSize, cursor: LayoutPoint, i: int) -> RectCommand {
    let x1 = band_low(layout.width as int, cursor.x as int, i);
    let x2 = band_high(layout.width as int, cursor.x as int, i);
    let y1 = band_low(layout.height as int, cursor.y as int, i);
    let y2 = band_high(layout.height as int, cursor.y as int, i);
    RectCommand {
        rect: LayoutRect {
            x: x1 as i64,
            y: y1 as i64,
            width: (x2 - x1) as i64,
            height: (y2 - y1) as i64,
        },
        color: ColorShade { gray: i as u16 },
    }
}

/// Row rectangle `i`: a full-width bar 25 units tall at `35 * i + 10`, inset
/// 5 units on each side. Even rows fade from black to white with `i`, odd
/// rows from white to black; gray levels in 512ths.
pub open spec fn row_rect(layout: LayoutSize, i: int) -> RectCommand {
    RectCommand {
        rect: LayoutRect {
            x: ROW_INSET,
            y: (i * ROW_HEIGHT + ROW_PADDING) as i64,
            width: (layout.width as int - 2 * ROW_INSET) as i64,
            height: (ROW_HEIGHT - ROW_PADDING) as i64,
        },
        color: ColorShade {
            gray: if i % 2 == 0 {
                (2 * i) as u16
            } else {
                (512 - 2 * i) as u16
            },
        },
    }
}

/// The full display list of one frame: the 256 band rectangles, then the 256
/// row rectangles, in draw order.
pub open spec fn display_list(layout: LayoutSize, cursor: LayoutPoint) -> Seq<RectCommand> {
    Seq::new(256, |i: int| band_rect(layout, cursor, i)) + Seq::new(
        256,
        |i: int| row_rect(layout, i),
    )
}

/// The size of the scrollable content area: as wide as the layout, and
/// `SCROLL_CONTENT_HEIGHT` tall.
pub fn scroll_content_size(layout: LayoutSize) -> (s: LayoutSize)
    ensures
        s.width == layout.width,
        s.height == SCROLL_CONTENT_HEIGHT,
{
    LayoutSize { width: layout.width, height: SCROLL_CONTENT_HEIGHT }
}

/// Computes `fold_toward_center` on machine integers.
fn fold_coord(extent: u32, pos: i64) -> (f: u64)
    ensures
        f as int == fold_toward_center(extent as int, pos as int),
        2 * f <= extent as u64,
{
    let e: u64 = extent as u64;
    let clamped: u64 = if pos < 0 {
        0
    } else if pos > e as i64 {
        e
    } else {
        pos as u64
    };
    if 2 * clamped > e {
        e - clamped
    } else {
        clamped
    }
}

/// Builds the display list of one frame from the view state.
///
/// The result is exactly `display_list(view.layout_size,
/// view.cursor_position)`: a pure function of the state, so two builds from
/// identical states yield identical lists.
pub fn build_display_list(view: &ViewState) -> (rects: Vec<RectCommand>)
    ensures
        rects@ == display_list(view.layout_size, view.cursor_position),
        rects@.len() == 512,
{
    let layout = view.layout_size;
    let cursor = view.cursor_position;
    let mut rects: Vec<RectCommand> = Vec::new();

    let lw: u64 = layout.width as u64;
    let lh: u64 = layout.height as u64;
    let fx: u64 = fold_coord(layout.width, cursor.x);
    let fy: u64 = fold_coord(layout.height, cursor.y);
    let dx: u64 = lw - 2 * fx;
    let dy: u64 = lh - 2 * fy;

    let mut i: u64 = 0;
    while i < BAND_COUNT
        invariant
            i <= 256,
            rects@.len() == i,
            forall|j: int| 0 <= j < i ==> rects@[j] == band_rect(layout, cursor, j),
            lw == layout.width,
            lh == layout.height,
            dx == lw - 2 * fold_toward_center(layout.width as int, cursor.x as int),
            dy == lh - 2 * fold_toward_center(layout.height as int, cursor.y as int),
            dx <= lw,
            dy <= lh,
            lw <= u32::MAX,
            lh <= u32::MAX,
        decreases 256 - i,
    {
        let k: u64 = 256 - i;
        proof {
            assert(dx * k <= lw * 256) by (nonlinear_arith)
                requires
                    dx <= lw,
                    k <= 256,
            ;
            assert(dy * k <= lh * 256) by (nonlinear_arith)
                requires
                    dy <= lh,
                    k <= 256,
            ;
            assert(lw * 256 <= u32::MAX as u64 * 256);
            assert(lh * 256 <= u32::MAX as u64 * 256);
        }
        let prod_x: u64 = dx * k;
        let prod_y: u64 = dy * k;
        let x1: u64 = (lw * 256 - prod_x) / 512;
        let x2: u64 = (lw * 256 + prod_x) / 512;
        let y1: u64 = (lh * 256 - prod_y) / 512;
        let y2: u64 = (lh * 256 + prod_y) / 512;
        proof {
            lemma_div_is_ordered((lw * 256 + prod_x) as int, (lw * 512) as int, 512);
            lemma_div_is_ordered((lh * 256 + prod_y) as int, (lh * 512) as int, 512);
            assert((lw * 512) as int / 512 == lw);
            assert((lh * 512) as int / 512 == lh);
            assert(x1 <= x2);
            assert(y1 <= y2);
        }
        let cmd = RectCommand {
            rect: LayoutRect {
                x: x1 as i64,
                y: y1 as i64,
                width: x2 as i64 - x1 as i64,
                height: y2 as i64 - y1 as i64,
            },
            color: ColorShade { gray: i as u16 },
        };
        proof {
            assert(cmd == band_rect(layout, cursor, i as int));
        }
        rects.push(cmd);
        i = i + 1;
    }

    let mut i: u64 = 0;
    while i < ROW_COUNT
        invariant
            i <= 256,
            rects@.len() == 256 + i,
            forall|j: int| 0 <= j < 256 ==> rects@[j] == band_rect(layout, cursor, j),
            forall|j: int| 256 <= j < 256 + i ==> rects@[j] == row_rect(layout, j - 256),
            lw == layout.width,
            lw <= u32::MAX,
        decreases 256 - i,
    {
        let y: i64 = (i as i64) * ROW_HEIGHT + ROW_PADDING;
        let gray: u16 = if i % 2 == 0 {
            (2 * i) as u16
        } else {
            (512 - 2 * i) as u16
        };
        let cmd = RectCommand {
            rect: LayoutRect {
                x: ROW_INSET,
                y,
                width: lw as i64 - 2 * ROW_INSET,
                height: ROW_HEIGHT - ROW_PADDING,
            },
            color: ColorShade { gray },
        };
        proof {
            assert(cmd == row_rect(layout, i as int));
        }
        rects.push(cmd);
        i = i + 1;
    }

    proof {
        let full = display_list(layout, cursor);
        assert(full.len() == 512);
        assert forall|j: int| 0 <= j < 512 implies rects@[j] == full[j] by {
            if j < 256 {
                assert(full[j] == band_rect(layout, cursor, j));
            } else {
                assert(full[j] == row_rect(layout, j - 256));
            }
        }
        assert(rects@ =~= full);
    }
    rects
}

/// The frame builder is deterministic: two view states that agree on layout
/// size, scroll offset and cursor position yield the same display list.
pub proof fn lemma_display_list_deterministic(a: ViewState, b: ViewState)
    requires
        a.layout_size == b.layout_size,
        a.scroll_offset == b.scroll_offset,
        a.cursor_position == b.cursor_position,
    ensures
        display_list(a.layout_size, a.cursor_position) == display_list(
            b.layout_size,
            b.cursor_position,
        ),
{
}

} // verus!
