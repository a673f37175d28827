//! A scrolling list of shaded rectangles, reduced to its pure core.
//!
//! The windowing system, the GL loader and the GPU renderer live outside this
//! crate; what is verified here is the logic that drives them: a reducer that
//! folds a batch of input events into the view state, and a frame builder
//! that enumerates the rectangles of one frame from that state.
//!
//! All geometry is kept in integer layout units. The DPI factor is carried in
//! hundredths, and colors are grayscale levels in 512ths, so that every
//! quantity the logic touches is exact.

pub mod geom;
pub mod state;
pub mod events;
pub mod reducer;
pub mod frame;
