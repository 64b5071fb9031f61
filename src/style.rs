use vstd::prelude::*;

verus! {

/// Layout constants shared by the components.
#[derive(Debug, Clone, Copy, PartialEq, Eq, Structural)]
pub struct Styled {}

impl Styled {
    pub fn new() -> (r: Styled) {
        Styled {}
    }

    /// Rows taken by the top and bottom border of a box.
    pub fn box_border_height(&self) -> (r: u16)
        ensures
            r == 2,
    {
        2
    }
}

} // verus!
