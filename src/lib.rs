//! Integer-coordinate 2D geometry for cell-based layout: offsets, sizes,
//! margins and axis-aligned regions, with the placement algorithms a layout
//! engine builds on them.
//!
//! All coordinates are `i32`. Every operation is pure and returns a new value.
//! Contracts are stated over mathematical integers; where a result has to be
//! stored back into an `i32`, the precondition asks that it fits.

pub mod common;
pub mod error;
pub mod laws;
pub mod offset;
pub mod placement;
pub mod region;
pub mod size;
pub mod spacing;
pub mod text;

pub use common::{clamp, extract_integer_pair, extract_integer_quad};
pub use error::GeometryError;
pub use offset::{GeometryOffset, OffsetPair};
pub use placement::ConstrainMode;
pub use region::Region;
pub use size::Size;
pub use spacing::{Spacing, SpacingDimensions};
