//! How entities are drawn.
use vstd::prelude::*;

verus! {

/// Which prepared shape draws an entity.
#[derive(Debug, Clone, Copy, PartialEq, Eq, Structural, Hash)]
pub enum DrawableHandle {
    Circle,
    Box,
}

impl DrawableHandle {
    /// The slot of the shape in the list of prepared shapes.
    pub fn slot(self) -> (r: usize)
        ensures
            r == match self {
                DrawableHandle::Circle => 0usize,
                DrawableHandle::Box => 1usize,
            },
    {
        match self {
            DrawableHandle::Circle => 0,
            DrawableHandle::Box => 1,
        }
    }

    /// How many shapes there are.
    pub fn count() -> (r: usize)
        ensures
            r == 2,
    {
        2
    }
}

} // verus!
