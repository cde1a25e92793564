//! Rotation of four-cornered rectangles about their center.
//!
//! A rectangle is rotated by one of two kernels: a scalar one, which works on
//! one coordinate at a time, and a vectorized one, which works on four lanes
//! at a time. This crate holds everything about that which is not arithmetic
//! on coordinates: the rectangle itself, the corners each kernel takes its
//! center from, the choice of kernel for a bulk call, and the bulk call. The
//! coordinate type is a parameter, and the arithmetic of a kernel is handed in
//! by the caller.

pub mod bulk;
pub mod center;
pub mod corner;
pub mod kernel;
pub mod rect;

pub use bulk::rotate_all;
pub use center::{CenterRule, CenterSources, CornerPair};
pub use corner::Corner;
pub use kernel::Kernel;
pub use rect::Rect;
