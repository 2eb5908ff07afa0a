use vstd::prelude::*;

verus! {

/// A rectangular region of the terminal grid, given by the column and
/// row of its top-left corner and by its extent in columns and rows.
/// The drawing of its border is done by the binary around this crate.
pub struct Window {
    pub position: (u16, u16),
    pub size: (u16, u16),
}

impl Window {
    pub fn new(position: (u16, u16), size: (u16, u16)) -> (w: Window)
        ensures
            w.position == position,
            w.size == size,
    {
        Window { position, size }
    }
}

} // verus!
