use vstd::prelude::*;
use crate::center::{CenterRule, CornerPair};
use crate::corner::Corner;

verus! {

/// The two ways a rectangle can be rotated: one coordinate at a time, or four
/// lanes at a time.
#[derive(Clone, Copy, Debug, PartialEq, Eq, Structural)]
pub enum Kernel {
    Scalar,
    Vectorized,
}

impl Kernel {
    /// The kernel that a bulk call runs on every element, given whether the
    /// processor has the four-wide vector extension.
    pub open spec fn chosen(vector_supported: bool) -> Kernel {
        if vector_supported {
            Kernel::Vectorized
        } else {
            Kernel::Scalar
        }
    }

    /// Picks the kernel for one bulk call. Without the vector extension the
    /// scalar kernel is the fallback.
    pub fn select(vector_supported: bool) -> (kernel: Kernel)
        ensures
            kernel == Kernel::chosen(vector_supported),
    {
        if vector_supported {
            Kernel::Vectorized
        } else {
            Kernel::Scalar
        }
    }

    /// The corners this kernel takes its center from.
    ///
    /// The scalar kernel takes both axes from the diagonal that joins the
    /// top-right and the bottom-left corner. The vectorized kernel takes the
    /// horizontal center from the top edge and the vertical center from the
    /// left edge. The two are not the same rule.
    pub open spec fn center_corners(self) -> CenterRule {
        match self {
            Kernel::Scalar => CenterRule {
                x: CornerPair { far: Corner::TopRight, base: Corner::BottomLeft },
                y: CornerPair { far: Corner::TopRight, base: Corner::BottomLeft },
            },
            Kernel::Vectorized => CenterRule {
                x: CornerPair { far: Corner::TopRight, base: Corner::TopLeft },
                y: CornerPair { far: Corner::TopLeft, base: Corner::BottomLeft },
            },
        }
    }

    /// The corners this kernel takes its center from.
    pub fn center_rule(self) -> (rule: CenterRule)
        ensures
            rule == self.center_corners(),
    {
        match self {
            Kernel::Scalar => CenterRule {
                x: CornerPair { far: Corner::TopRight, base: Corner::BottomLeft },
                y: CornerPair { far: Corner::TopRight, base: Corner::BottomLeft },
            },
            Kernel::Vectorized => CenterRule {
                x: CornerPair { far: Corner::TopRight, base: Corner::TopLeft },
                y: CornerPair { far: Corner::TopLeft, base: Corner::BottomLeft },
            },
        }
    }
}

} // verus!
