use vstd::prelude::*;

verus! {

/// The exclusive UI mode of the session. `Normal` is the initial mode
/// and the mode every other one returns to; the prompt modes
/// (`Rename`, `Add`, `Search`) route nearly every key into a text
/// buffer, `Remove` only waits for a confirmation, and `Help` only
/// waits to be dismissed.
#[derive(Clone, Copy, Debug, PartialEq, Eq, Structural)]
pub enum Mode {
    Normal,
    Rename,
    Remove,
    Add,
    Search,
    Help,
}

} // verus!
