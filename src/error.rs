use vstd::prelude::*;

verus! {

/// The ways a geometry operation can refuse its arguments.
#[derive(Debug, Clone, Copy, PartialEq, Eq, Structural)]
pub enum GeometryError {
    /// An argument did not have an accepted shape; `found` is the number of
    /// values that it held.
    ShapeMismatch { found: usize },
    /// A collection that must hold at least one value was empty.
    EmptyCollection,
    /// A fixed-length indexed access used an index beyond the field count.
    IndexOutOfRange,
}

} // verus!
