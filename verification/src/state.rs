//! The view state that the reducer threads through the event loop.

use vstd::prelude::*;
use crate::geom::DeviceSize;
use crate::geom::LayoutPoint;
use crate::geom::LayoutSize;

verus! {

/// The scroll position of the root scroll frame, in layout units.
///
/// Both components are kept non-negative: the reducer clamps every scroll
/// update at zero.
#[derive(Clone, Copy, PartialEq, Eq, Structural, Debug)]
pub struct ScrollOffset {
    pub x: i32,
    pub y: i32,
}

impl ScrollOffset {
    /// The resting position.
    pub fn zero() -> (s: ScrollOffset)
        ensures
            s.x == 0,
            s.y == 0,
    {
        ScrollOffset { x: 0, y: 0 }
    }
}

/// One layout dimension derived from a device dimension: the device pixel
/// count divided by the DPI factor (given in hundredths), rounded down and
/// saturated at `u32::MAX`.
pub open spec fn layout_dim(device: int, dpi_factor_hundredths: int) -> int
    recommends
        dpi_factor_hundredths >= 1,
{
    let scaled = (device * 100) / dpi_factor_hundredths;
    if scaled > u32::MAX { u32::MAX as int } else { scaled }
}

/// The layout size that a window of size `device` has under the DPI factor
/// `dpi_factor_hundredths`.
pub open spec fn layout_size_of(device: DeviceSize, dpi_factor_hundredths: int) -> LayoutSize
    recommends
        dpi_factor_hundredths >= 1,
{
    LayoutSize {
        width: layout_dim(device.width as int, dpi_factor_hundredths) as u32,
        height: layout_dim(device.height as int, dpi_factor_hundredths) as u32,
    }
}

/// Everything the frame builder and the renderer need to know about the
/// window: its size in device pixels and in layout units, the DPI factor
/// binding the two, the scroll position, the cursor, and whether the debug
/// overlay is up.
#[derive(Clone, Copy, PartialEq, Eq, Structural, Debug)]
pub struct ViewState {
    /// Window size in device pixels.
    pub window_size: DeviceSize,
    /// Window size in layout units; always `window_size` scaled by the DPI
    /// factor.
    pub layout_size: LayoutSize,
    /// Device pixels per layout unit, in hundredths (200 is a factor of 2).
    /// Always at least 1.
    pub dpi_factor_hundredths: u32,
    /// Scroll position of the root scroll frame; components never negative.
    pub scroll_offset: ScrollOffset,
    /// Last seen cursor position, in layout units.
    pub cursor_position: LayoutPoint,
    /// Whether the renderer's profiler overlay is toggled on.
    pub debug_overlay_enabled: bool,
}

impl ViewState {
    /// Well-formedness: the DPI factor is positive, the scroll position is
    /// clamped, and the layout size is the one derived from the window size.
    pub open spec fn wf(self) -> bool {
        &&& self.dpi_factor_hundredths >= 1
        &&& self.scroll_offset.x >= 0
        &&& self.scroll_offset.y >= 0
        &&& self.layout_size == layout_size_of(self.window_size, self.dpi_factor_hundredths as int)
    }

    /// The state at startup: the window's initial size and DPI factor, no
    /// scrolling, the cursor at the origin, the debug overlay off.
    ///
    /// A DPI factor of zero is clamped to 1, so the state is well formed for
    /// every input.
    pub fn new(width: u32, height: u32, dpi_factor_hundredths: u32) -> (s: ViewState)
        ensures
            s.wf(),
            s.window_size == (DeviceSize { width, height }),
            s.dpi_factor_hundredths == if dpi_factor_hundredths == 0 { 1u32 } else {
                dpi_factor_hundredths
            },
            s.scroll_offset.x == 0,
            s.scroll_offset.y == 0,
            s.cursor_position.x == 0,
            s.cursor_position.y == 0,
            !s.debug_overlay_enabled,
    {
        let dpi = if dpi_factor_hundredths == 0 { 1 } else { dpi_factor_hundredths };
        let window_size = DeviceSize { width, height };
        ViewState {
            window_size,
            layout_size: compute_layout_size(window_size, dpi),
            dpi_factor_hundredths: dpi,
            scroll_offset: ScrollOffset::zero(),
            cursor_position: LayoutPoint::zero(),
            debug_overlay_enabled: false,
        }
    }
}

/// Computes `layout_size_of` on machine integers.
pub fn compute_layout_size(device: DeviceSize, dpi_factor_hundredths: u32) -> (s: LayoutSize)
    requires
        dpi_factor_hundredths >= 1,
    ensures
        s == layout_size_of(device, dpi_factor_hundredths as int),
{
    LayoutSize {
        width: compute_layout_dim(device.width, dpi_factor_hundredths),
        height: compute_layout_dim(device.height, dpi_factor_hundredths),
    }
}

/// Computes `layout_dim` on machine integers.
pub fn compute_layout_dim(device: u32, dpi_factor_hundredths: u32) -> (d: u32)
    requires
        dpi_factor_hundredths >= 1,
    ensures
        d == layout_dim(device as int, dpi_factor_hundredths as int),
{
    let scaled: u64 = (device as u64 * 100) / (dpi_factor_hundredths as u64);
    if scaled > u32::MAX as u64 {
        u32::MAX
    } else {
        scaled as u32
    }
}

} // verus!
