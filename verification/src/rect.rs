use vstd::prelude::*;
use crate::center::{CenterRule, CenterSources};
use crate::corner::Corner;
use crate::kernel::Kernel;

verus! {

/// A rectangle as four corners: `x[i]` and `y[i]` are the coordinates of the
/// corner at index `i`. Nothing asks that the four points form a rectangle.
#[derive(Debug)]
pub struct Rect<T> {
    pub x: [T; 4],
    pub y: [T; 4],
}

impl<T: Copy> Copy for Rect<T> {
}

impl<T: Copy> Clone for Rect<T> {
    fn clone(&self) -> (copy: Self)
        ensures
            copy == *self,
    {
        *self
    }
}

impl<T: Copy> Rect<T> {
    /// The coordinates that `rule` names, as they stand in this rectangle.
    pub open spec fn sources(self, rule: CenterRule) -> CenterSources<T> {
        CenterSources {
            x_far: self.x[rule.x.far.position()],
            x_base: self.x[rule.x.base.position()],
            y_far: self.y[rule.y.far.position()],
            y_base: self.y[rule.y.base.position()],
        }
    }

    /// Reads the coordinates from which a kernel computes its center.
    pub fn center_sources(&self, rule: CenterRule) -> (picked: CenterSources<T>)
        ensures
            picked == self.sources(rule),
    {
        CenterSources {
            x_far: self.x[rule.x.far.index()],
            x_base: self.x[rule.x.base.index()],
            y_far: self.y[rule.y.far.index()],
            y_base: self.y[rule.y.base.index()],
        }
    }
}

/// The two kernels do not take their center from the same corners, yet they
/// read the same four coordinates wherever the left edge is vertical and the
/// top edge horizontal, as in every axis-aligned rectangle held in the order
/// top-left, top-right, bottom-left, bottom-right.
pub proof fn kernels_read_alike_on_upright_rect<T: Copy>(rect: Rect<T>)
    requires
        rect.x[Corner::TopLeft.position()] == rect.x[Corner::BottomLeft.position()],
        rect.y[Corner::TopLeft.position()] == rect.y[Corner::TopRight.position()],
    ensures
        rect.sources(Kernel::Scalar.center_corners()) == rect.sources(
            Kernel::Vectorized.center_corners(),
        ),
{
}

} // verus!
