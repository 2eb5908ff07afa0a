use vstd::prelude::*;

verus! {

/// A key press, reduced to what the state machine distinguishes. The
/// binary translates the terminal backend's key events into this type;
/// keys the browser never reacts to arrive as `Other`.
#[derive(Clone, Copy, Debug, PartialEq, Eq, Structural)]
pub enum Key {
    Esc,
    Enter,
    Backspace,
    Left,
    Right,
    Up,
    Down,
    Home,
    End,
    Char(char),
    Other,
}

/// An abstract intent derived from a key press under the active mode.
/// `Input` carries a key through to the text buffer of the active
/// prompt mode.
#[derive(Clone, Copy, Debug, PartialEq, Eq, Structural)]
pub enum Action {
    Close,
    Redraw,
    MoveUp,
    MoveDown,
    ScrollUp,
    ScrollDown,
    Home,
    End,
    ToggleHidden,
    Rename,
    Remove,
    Add,
    Open,
    Back,
    Search,
    ToggleHelp,
    Input(Key),
}

/// A request the state machine asks its surroundings to perform. The
/// state machine never touches the filesystem or spawns an editor
/// itself: applying an action yields one of these, and the binary
/// carries it out, then reports the refreshed directory listing back.
/// Names are handed over as sequences of characters.
#[derive(Debug)]
pub enum Effect {
    /// No outside work to do.
    Nothing,
    /// Rename the entry called `old_name` to `new_name`.
    RenameEntry { old_name: Vec<char>, new_name: Vec<char> },
    /// Delete the regular file with this name.
    RemoveFile { name: Vec<char> },
    /// Delete the directory with this name together with its contents.
    RemoveDirRecursive { name: Vec<char> },
    /// Create an empty regular file with this name.
    CreateFile { name: Vec<char> },
    /// Create an empty directory with this name.
    CreateDir { name: Vec<char> },
    /// Change the working directory to this child directory.
    OpenDirectory { name: Vec<char> },
    /// Open this regular file in the external editor, blocking until
    /// the editor exits.
    OpenFile { name: Vec<char> },
    /// Change the working directory to the parent directory.
    GoToParent,
}

} // verus!
