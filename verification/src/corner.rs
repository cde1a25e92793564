use vstd::prelude::*;

verus! {

/// One of the four corners of a rectangle, in the order in which the
/// coordinate arrays hold them.
#[derive(Clone, Copy, Debug, PartialEq, Eq, Structural)]
pub enum Corner {
    TopLeft,
    TopRight,
    BottomLeft,
    BottomRight,
}

impl Corner {
    /// The place of this corner in both coordinate arrays.
    pub open spec fn position(self) -> int {
        match self {
            Corner::TopLeft => 0,
            Corner::TopRight => 1,
            Corner::BottomLeft => 2,
            Corner::BottomRight => 3,
        }
    }

    /// The index at which both coordinate arrays hold this corner.
    pub fn index(self) -> (i: usize)
        ensures
            i == self.position(),
            i < 4,
    {
        match self {
            Corner::TopLeft => 0,
            Corner::TopRight => 1,
            Corner::BottomLeft => 2,
            Corner::BottomRight => 3,
        }
    }
}

} // verus!
