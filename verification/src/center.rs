use vstd::prelude::*;
use crate::corner::Corner;

verus! {

/// Two corners whose coordinates on one axis give the center on that axis:
/// the center lies half way from `base` towards `far`, that is at
/// `((far - base) * 1/2) + base`.
#[derive(Clone, Copy, Debug, PartialEq, Eq, Structural)]
pub struct CornerPair {
    pub far: Corner,
    pub base: Corner,
}

/// The corners a kernel takes the center of rotation from, one pair for each
/// axis.
#[derive(Clone, Copy, Debug, PartialEq, Eq, Structural)]
pub struct CenterRule {
    pub x: CornerPair,
    pub y: CornerPair,
}

/// The four coordinates that a `CenterRule` picks out of a rectangle.
#[derive(Debug)]
pub struct CenterSources<T> {
    pub x_far: T,
    pub x_base: T,
    pub y_far: T,
    pub y_base: T,
}

impl<T: Copy> Copy for CenterSources<T> {
}

impl<T: Copy> Clone for CenterSources<T> {
    fn clone(&self) -> (copy: Self)
        ensures
            copy == *self,
    {
        *self
    }
}

} // verus!
