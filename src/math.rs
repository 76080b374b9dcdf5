use vstd::prelude::*;

verus! {

/// A 2D vector over the scalar type `S`.
///
/// The library only moves coordinates around; arithmetic on them is up to
/// the scalar type's owner.
#[derive(Clone, Copy, Debug, PartialEq)]
pub struct Vec2<S> {
    /// Horizontal component; zero at the left edge of the screen
    pub x: S,
    /// Vertical component; zero at the top edge of the screen
    pub y: S,
}

impl<S: Copy> Vec2<S> {
    /// A vector from its two components.
    pub fn new(x: S, y: S) -> (r: Vec2<S>)
        ensures
            r == (Vec2 { x, y }),
    {
        Vec2 { x, y }
    }
}

} // verus!
