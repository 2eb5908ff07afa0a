use vstd::prelude::*;
use crate::action::{Action, Effect, Key};
use crate::buffer::{
    spec_cursor_left, spec_cursor_right, spec_deleted, spec_inserted, EditBuffer,
};
use crate::entry::Entry;
use crate::mode::Mode;
use crate::text::{chars_eq, copy_chars, to_chars};
use crate::viewport::{
    spec_jump_end, spec_jump_home, spec_move_selection, spec_reclamp, spec_scroll_by, Viewport,
};

verus! {

/// Terminal rows that the header and the footer occupy; the rest of
/// the height shows list entries.
pub const RESERVED_ROWS: usize = 3;

/// How many list rows a terminal of `rows` rows can show: everything
/// but the reserved rows, and never less than one.
pub open spec fn spec_visible_rows(rows: int) -> int {
    if rows > RESERVED_ROWS + 1 {
        rows - RESERVED_ROWS
    } else {
        1
    }
}

/// The key→action table: what a key press means under each mode. The
/// prompt modes route every key but Esc (and, in the add prompt,
/// Enter) into their text buffer; keys without a meaning yield no
/// action at all. `ctrl` tells a scroll request apart from a selection
/// move.
pub open spec fn spec_classify(mode: Mode, key: Key, ctrl: bool) -> Option<Action> {
    match mode {
        Mode::Normal => match key {
            Key::Esc => Some(Action::Close),
            Key::Up => Some(if ctrl { Action::ScrollUp } else { Action::MoveUp }),
            Key::Down => Some(if ctrl { Action::ScrollDown } else { Action::MoveDown }),
            Key::Enter => Some(Action::Open),
            Key::Backspace => Some(Action::Back),
            Key::Home => Some(Action::Home),
            Key::End => Some(Action::End),
            Key::Char(c) => if c == 'h' {
                Some(Action::ToggleHidden)
            } else if c == 'r' {
                Some(Action::Rename)
            } else if c == 'd' {
                Some(Action::Remove)
            } else if c == 'a' {
                Some(Action::Add)
            } else if c == '/' {
                Some(Action::Search)
            } else if c == '?' {
                Some(Action::ToggleHelp)
            } else {
                None
            },
            _ => None,
        },
        Mode::Rename => match key {
            Key::Esc => Some(Action::Close),
            _ => Some(Action::Input(key)),
        },
        Mode::Remove => match key {
            Key::Esc => Some(Action::Close),
            Key::Enter => Some(Action::Remove),
            _ => None,
        },
        Mode::Add => match key {
            Key::Esc => Some(Action::Close),
            Key::Enter => Some(Action::Add),
            _ => Some(Action::Input(key)),
        },
        Mode::Search => match key {
            Key::Esc => Some(Action::Close),
            _ => Some(Action::Input(key)),
        },
        Mode::Help => match key {
            Key::Esc => Some(Action::Close),
            Key::Char(c) => if c == '?' {
                Some(Action::Close)
            } else {
                None
            },
            _ => None,
        },
    }
}

/// How a key routed into a prompt edits its buffer: backspace deletes
/// before the cursor, the arrow keys move it, a printable character is
/// inserted at it, and any other key leaves the buffer alone.
pub open spec fn buffer_edited(pre: EditBuffer, key: Key, post: EditBuffer) -> bool {
    match key {
        Key::Backspace => post.content@ == spec_deleted(pre) && post.cursor == spec_cursor_left(
            pre,
        ),
        Key::Left => post.content@ == pre.content@ && post.cursor == spec_cursor_left(pre),
        Key::Right => post.content@ == pre.content@ && post.cursor == spec_cursor_right(pre),
        Key::Char(c) => post.content@ == spec_inserted(pre, c) && post.cursor == pre.cursor + 1,
        _ => post == pre,
    }
}

/// The whole interactive session as the state machine sees it. The
/// binary around this crate owns exactly one value of this type, feeds
/// key presses and terminal sizes in, carries the returned effects
/// out, and reports every rebuilt directory snapshot back.
pub struct NFM {
    pub viewport: Viewport,
    pub entries: Vec<Entry>,
    pub actions: Vec<Action>,
    pub mode: Mode,
    pub show_hidden: bool,
    pub visible_rows: usize,
    pub rename_buffer: EditBuffer,
    pub add_buffer: EditBuffer,
    pub search_buffer: EditBuffer,
    pub should_close: bool,
}

/// The full transition relation of the mode state machine: given the
/// state before an action, it pins down the state afterwards and the
/// request handed to the surroundings, for every mode and action.
pub open spec fn step(pre: NFM, action: Action, post: NFM, eff: Effect) -> bool {
    let len = pre.entries@.len() as int;
    let vis = pre.visible_rows as int;
    let sel = pre.viewport.selection as int;
    match pre.mode {
        Mode::Normal => match action {
            Action::Close => post == (NFM { should_close: true, ..pre }) && eff is Nothing,
            Action::Redraw => post == pre && eff is Nothing,
            Action::MoveUp => post == (NFM {
                viewport: spec_move_selection(pre.viewport, -1, len, vis),
                ..pre
            }) && eff is Nothing,
            Action::MoveDown => post == (NFM {
                viewport: spec_move_selection(pre.viewport, 1, len, vis),
                ..pre
            }) && eff is Nothing,
            Action::ScrollUp => post == (NFM {
                viewport: spec_scroll_by(pre.viewport, -1, len, vis),
                ..pre
            }) && eff is Nothing,
            Action::ScrollDown => post == (NFM {
                viewport: spec_scroll_by(pre.viewport, 1, len, vis),
                ..pre
            }) && eff is Nothing,
            Action::Home => post == (NFM { viewport: spec_jump_home(), ..pre })
                && eff is Nothing,
            Action::End => post == (NFM { viewport: spec_jump_end(pre.viewport, len, vis), ..pre })
                && eff is Nothing,
            Action::ToggleHidden => post == (NFM {
                show_hidden: !pre.show_hidden,
                viewport: spec_reclamp(
                    Viewport { selection: pre.viewport.selection, scroll: 0 },
                    len,
                    vis,
                ),
                ..pre
            }) && eff is Nothing,
            Action::Rename => if sel < len {
                post == (NFM { mode: Mode::Rename, rename_buffer: post.rename_buffer, ..pre })
                    && post.rename_buffer.content@ == pre.entries@[sel].name@
                    && post.rename_buffer.cursor == pre.entries@[sel].name@.len()
                    && eff is Nothing
            } else {
                post == pre && eff is Nothing
            },
            Action::Remove => if sel < len {
                post == (NFM { mode: Mode::Remove, ..pre }) && eff is Nothing
            } else {
                post == pre && eff is Nothing
            },
            Action::Add => post == (NFM { mode: Mode::Add, ..pre }) && eff is Nothing,
            Action::Open => if sel < len {
                post == (NFM {
                    search_buffer: post.search_buffer,
                    viewport: spec_reclamp(
                        Viewport { selection: pre.viewport.selection, scroll: 0 },
                        len,
                        vis,
                    ),
                    ..pre
                }) && post.search_buffer.content@.len() == 0 && post.search_buffer.cursor == 0
                    && (if pre.entries@[sel].is_directory {
                    eff matches Effect::OpenDirectory { name } && name@ == pre.entries@[sel].name@
                } else {
                    eff matches Effect::OpenFile { name } && name@ == pre.entries@[sel].name@
                })
            } else {
                post == pre && eff is Nothing
            },
            Action::Back => post == (NFM {
                viewport: spec_reclamp(
                    Viewport { selection: pre.viewport.selection, scroll: 0 },
                    len,
                    vis,
                ),
                ..pre
            }) && eff is GoToParent,
            Action::Search => post == (NFM {
                mode: Mode::Search,
                search_buffer: post.search_buffer,
                ..pre
            }) && post.search_buffer.content@.len() == 0 && post.search_buffer.cursor == 0
                && eff is Nothing,
            Action::ToggleHelp => post == (NFM { mode: Mode::Help, ..pre }) && eff is Nothing,
            Action::Input(_) => post == pre && eff is Nothing,
        },
        Mode::Rename => match action {
            Action::Close => post == (NFM { mode: Mode::Normal, ..pre }) && eff is Nothing,
            Action::Input(key) => match key {
                Key::Enter => post == (NFM { mode: Mode::Normal, ..pre }) && (if sel < len
                    && pre.entries@[sel].name@ != pre.rename_buffer.content@ {
                    eff matches Effect::RenameEntry { old_name, new_name } && old_name@
                        == pre.entries@[sel].name@ && new_name@ == pre.rename_buffer.content@
                } else {
                    eff is Nothing
                }),
                _ => post == (NFM { rename_buffer: post.rename_buffer, ..pre }) && buffer_edited(
                    pre.rename_buffer,
                    key,
                    post.rename_buffer,
                ) && eff is Nothing,
            },
            _ => post == pre && eff is Nothing,
        },
        Mode::Remove => match action {
            Action::Close => post == (NFM { mode: Mode::Normal, ..pre }) && eff is Nothing,
            Action::Remove => post == (NFM { mode: Mode::Normal, ..pre }) && (if sel < len {
                if pre.entries@[sel].is_directory {
                    eff matches Effect::RemoveDirRecursive { name } && name@
                        == pre.entries@[sel].name@
                } else {
                    eff matches Effect::RemoveFile { name } && name@ == pre.entries@[sel].name@
                }
            } else {
                eff is Nothing
            }),
            _ => post == pre && eff is Nothing,
        },
        Mode::Add => match action {
            Action::Close => post == (NFM {
                mode: Mode::Normal,
                add_buffer: post.add_buffer,
                ..pre
            }) && post.add_buffer.content@.len() == 0 && post.add_buffer.cursor == 0
                && eff is Nothing,
            Action::Add => post == (NFM {
                mode: Mode::Normal,
                add_buffer: post.add_buffer,
                ..pre
            }) && post.add_buffer.content@.len() == 0 && post.add_buffer.cursor == 0 && (if pre
                .add_buffer.content@.len() > 0 && pre.add_buffer.content@.last() == '/' {
                eff matches Effect::CreateDir { name } && name@ == pre.add_buffer.content@
            } else {
                eff matches Effect::CreateFile { name } && name@ == pre.add_buffer.content@
            }),
            Action::Input(key) => match key {
                Key::Enter => post == (NFM { mode: Mode::Normal, ..pre }) && eff is Nothing,
                _ => post == (NFM { add_buffer: post.add_buffer, ..pre }) && buffer_edited(
                    pre.add_buffer,
                    key,
                    post.add_buffer,
                ) && eff is Nothing,
            },
            _ => post == pre && eff is Nothing,
        },
        Mode::Search => {
            // Whatever happens in the search prompt, the live filter
            // may have changed the listing, so the window is reset to
            // the top and repaired.
            let vp = spec_reclamp(
                Viewport { selection: pre.viewport.selection, scroll: 0 },
                len,
                vis,
            );
            match action {
                Action::Close => post == (NFM {
                    mode: Mode::Normal,
                    search_buffer: post.search_buffer,
                    viewport: vp,
                    ..pre
                }) && post.search_buffer.content@.len() == 0 && post.search_buffer.cursor == 0
                    && eff is Nothing,
                Action::Input(key) => match key {
                    Key::Enter => post == (NFM { mode: Mode::Normal, viewport: vp, ..pre })
                        && eff is Nothing,
                    _ => post == (NFM { search_buffer: post.search_buffer, viewport: vp, ..pre })
                        && buffer_edited(pre.search_buffer, key, post.search_buffer)
                        && eff is Nothing,
                },
                _ => post == (NFM { viewport: vp, ..pre }) && eff is Nothing,
            }
        },
        Mode::Help => match action {
            Action::Close => post == (NFM { mode: Mode::Normal, ..pre }) && eff is Nothing,
            _ => post == pre && eff is Nothing,
        },
    }
}

/// Applies one key press to a prompt buffer as `buffer_edited` says.
fn apply_edit(buf: &mut EditBuffer, key: Key)
    requires
        old(buf).wf(),
    ensures
        final(buf).wf(),
        buffer_edited(*old(buf), key, *final(buf)),
{
    match key {
        Key::Backspace => buf.delete_before_cursor(),
        Key::Left => buf.move_left(),
        Key::Right => buf.move_right(),
        Key::Char(c) => buf.insert_char(c),
        _ => {},
    }
}

impl NFM {
    /// Consistency of the whole session: the viewport agrees with the
    /// current snapshot and terminal height, and every prompt buffer
    /// keeps its cursor inside its content.
    pub open spec fn wf(self) -> bool {
        &&& self.viewport.wf(self.entries@.len() as int, self.visible_rows as int)
        &&& self.rename_buffer.wf()
        &&& self.add_buffer.wf()
        &&& self.search_buffer.wf()
    }

    /// A fresh session: normal mode, nothing listed, nothing queued,
    /// hidden entries not shown, all prompts empty.
    pub fn new() -> (s: NFM)
        ensures
            s.wf(),
            s.viewport == spec_jump_home(),
            s.entries@.len() == 0,
            s.actions@.len() == 0,
            s.mode == Mode::Normal,
            !s.show_hidden,
            s.visible_rows == 1,
            s.rename_buffer.content@.len() == 0 && s.rename_buffer.cursor == 0,
            s.add_buffer.content@.len() == 0 && s.add_buffer.cursor == 0,
            s.search_buffer.content@.len() == 0 && s.search_buffer.cursor == 0,
            !s.should_close,
    {
        NFM {
            viewport: Viewport::new(),
            entries: Vec::new(),
            actions: Vec::new(),
            mode: Mode::Normal,
            show_hidden: false,
            visible_rows: 1,
            rename_buffer: EditBuffer::new(),
            add_buffer: EditBuffer::new(),
            search_buffer: EditBuffer::new(),
            should_close: false,
        }
    }

    /// Translates a key press under the active mode and queues the
    /// resulting action, if the key means anything; nothing else of
    /// the session changes.
    pub fn handle_key_event(&mut self, key: Key, ctrl: bool)
        requires
            old(self).wf(),
        ensures
            final(self).wf(),
            match spec_classify(old(self).mode, key, ctrl) {
                Some(a) => final(self).actions@ == old(self).actions@.push(a),
                None => final(self).actions@ == old(self).actions@,
            },
            *final(self) == (NFM { actions: final(self).actions, ..*old(self) }),
    {
        let a: Option<Action> = match self.mode {
            Mode::Normal => match key {
                Key::Esc => Some(Action::Close),
                Key::Up => Some(if ctrl { Action::ScrollUp } else { Action::MoveUp }),
                Key::Down => Some(if ctrl { Action::ScrollDown } else { Action::MoveDown }),
                Key::Enter => Some(Action::Open),
                Key::Backspace => Some(Action::Back),
                Key::Home => Some(Action::Home),
                Key::End => Some(Action::End),
                Key::Char(c) => if c == 'h' {
                    Some(Action::ToggleHidden)
                } else if c == 'r' {
                    Some(Action::Rename)
                } else if c == 'd' {
                    Some(Action::Remove)
                } else if c == 'a' {
                    Some(Action::Add)
                } else if c == '/' {
                    Some(Action::Search)
                } else if c == '?' {
                    Some(Action::ToggleHelp)
                } else {
                    None
                },
                _ => None,
            },
            Mode::Rename => match key {
                Key::Esc => Some(Action::Close),
                _ => Some(Action::Input(key)),
            },
            Mode::Remove => match key {
                Key::Esc => Some(Action::Close),
                Key::Enter => Some(Action::Remove),
                _ => None,
            },
            Mode::Add => match key {
                Key::Esc => Some(Action::Close),
                Key::Enter => Some(Action::Add),
                _ => Some(Action::Input(key)),
            },
            Mode::Search => match key {
                Key::Esc => Some(Action::Close),
                _ => Some(Action::Input(key)),
            },
            Mode::Help => match key {
                Key::Esc => Some(Action::Close),
                Key::Char(c) => if c == '?' {
                    Some(Action::Close)
                } else {
                    None
                },
                _ => None,
            },
        };
        if let Some(action) = a {
            self.actions.push(action);
        }
    }

    /// Hands out the oldest queued action, in arrival order.
    pub fn take_next_action(&mut self) -> (a: Option<Action>)
        requires
            old(self).wf(),
        ensures
            final(self).wf(),
            old(self).actions@.len() == 0 ==> a is None && *final(self) == *old(self),
            old(self).actions@.len() > 0 ==> a == Some(old(self).actions@[0])
                && final(self).actions@ == old(self).actions@.drop_first(),
            *final(self) == (NFM { actions: final(self).actions, ..*old(self) }),
    {
        if self.actions.len() == 0 {
            None
        } else {
            let a = self.actions.remove(0);
            proof {
                assert(old(self).actions@.remove(0) =~= old(self).actions@.drop_first());
            }
            Some(a)
        }
    }

    /// Replaces the snapshot with a freshly rebuilt listing and
    /// repairs the viewport against its length.
    pub fn set_entries(&mut self, entries: Vec<Entry>)
        requires
            old(self).wf(),
        ensures
            final(self).wf(),
            final(self).entries == entries,
            final(self).viewport == spec_reclamp(
                old(self).viewport,
                entries@.len() as int,
                old(self).visible_rows as int,
            ),
            *final(self) == (NFM {
                entries: final(self).entries,
                viewport: final(self).viewport,
                ..*old(self)
            }),
    {
        let len: usize = entries.len();
        self.entries = entries;
        self.viewport.reclamp(len, self.visible_rows);
    }

    /// Adjusts to a new terminal height and repairs the viewport
    /// against the rows it can show.
    pub fn resize(&mut self, terminal_rows: usize)
        requires
            old(self).wf(),
        ensures
            final(self).wf(),
            final(self).visible_rows == spec_visible_rows(terminal_rows as int),
            final(self).viewport == spec_reclamp(
                old(self).viewport,
                old(self).entries@.len() as int,
                spec_visible_rows(terminal_rows as int),
            ),
            *final(self) == (NFM {
                visible_rows: final(self).visible_rows,
                viewport: final(self).viewport,
                ..*old(self)
            }),
    {
        let vis: usize = if terminal_rows > RESERVED_ROWS + 1 {
            terminal_rows - RESERVED_ROWS
        } else {
            1
        };
        self.visible_rows = vis;
        let len: usize = self.entries.len();
        self.viewport.reclamp(len, vis);
    }

    /// Applies one action under the active mode: the state changes and
    /// the returned request are exactly those of the `step` relation,
    /// and the session stays consistent.
    pub fn apply_action(&mut self, action: Action) -> (eff: Effect)
        requires
            old(self).wf(),
        ensures
            final(self).wf(),
            step(*old(self), action, *final(self), eff),
    {
        let len: usize = self.entries.len();
        let vis: usize = self.visible_rows;
        match self.mode {
            Mode::Normal => match action {
                Action::Close => {
                    self.should_close = true;
                    Effect::Nothing
                },
                Action::Redraw => Effect::Nothing,
                Action::MoveUp => {
                    self.viewport.move_selection(-1, len, vis);
                    Effect::Nothing
                },
                Action::MoveDown => {
                    self.viewport.move_selection(1, len, vis);
                    Effect::Nothing
                },
                Action::ScrollUp => {
                    self.viewport.scroll_by(-1, len, vis);
                    Effect::Nothing
                },
                Action::ScrollDown => {
                    self.viewport.scroll_by(1, len, vis);
                    Effect::Nothing
                },
                Action::Home => {
                    self.viewport.jump_home();
                    Effect::Nothing
                },
                Action::End => {
                    self.viewport.jump_end(len, vis);
                    Effect::Nothing
                },
                Action::ToggleHidden => {
                    self.show_hidden = !self.show_hidden;
                    self.viewport.scroll = 0;
                    self.viewport.reclamp(len, vis);
                    Effect::Nothing
                },
                Action::Rename => {
                    if self.viewport.selection < len {
                        let name_chars = to_chars(
                            self.entries[self.viewport.selection].name.as_str(),
                        );
                        self.rename_buffer.set_text(name_chars);
                        self.mode = Mode::Rename;
                    }
                    Effect::Nothing
                },
                Action::Remove => {
                    if self.viewport.selection < len {
                        self.mode = Mode::Remove;
                    }
                    Effect::Nothing
                },
                Action::Add => {
                    self.mode = Mode::Add;
                    Effect::Nothing
                },
                Action::Open => {
                    if self.viewport.selection < len {
                        let sel: usize = self.viewport.selection;
                        let name = to_chars(self.entries[sel].name.as_str());
                        let is_dir = self.entries[sel].is_directory;
                        self.search_buffer.clear();
                        self.viewport.scroll = 0;
                        self.viewport.reclamp(len, vis);
                        if is_dir {
                            Effect::OpenDirectory { name }
                        } else {
                            Effect::OpenFile { name }
                        }
                    } else {
                        Effect::Nothing
                    }
                },
                Action::Back => {
                    self.viewport.scroll = 0;
                    self.viewport.reclamp(len, vis);
                    Effect::GoToParent
                },
                Action::Search => {
                    self.mode = Mode::Search;
                    self.search_buffer.clear();
                    Effect::Nothing
                },
                Action::ToggleHelp => {
                    self.mode = Mode::Help;
                    Effect::Nothing
                },
                Action::Input(_) => Effect::Nothing,
            },
            Mode::Rename => match action {
                Action::Close => {
                    self.mode = Mode::Normal;
                    Effect::Nothing
                },
                Action::Input(key) => match key {
                    Key::Enter => {
                        self.mode = Mode::Normal;
                        let sel: usize = self.viewport.selection;
                        if sel < len {
                            let old_chars = to_chars(self.entries[sel].name.as_str());
                            if !chars_eq(&old_chars, &self.rename_buffer.content) {
                                let new_name = copy_chars(&self.rename_buffer.content);
                                Effect::RenameEntry { old_name: old_chars, new_name }
                            } else {
                                Effect::Nothing
                            }
                        } else {
                            Effect::Nothing
                        }
                    },
                    _ => {
                        apply_edit(&mut self.rename_buffer, key);
                        Effect::Nothing
                    },
                },
                _ => Effect::Nothing,
            },
            Mode::Remove => match action {
                Action::Close => {
                    self.mode = Mode::Normal;
                    Effect::Nothing
                },
                Action::Remove => {
                    self.mode = Mode::Normal;
                    let sel: usize = self.viewport.selection;
                    if sel < len {
                        let name = to_chars(self.entries[sel].name.as_str());
                        if self.entries[sel].is_directory {
                            Effect::RemoveDirRecursive { name }
                        } else {
                            Effect::RemoveFile { name }
                        }
                    } else {
                        Effect::Nothing
                    }
                },
                _ => Effect::Nothing,
            },
            Mode::Add => match action {
                Action::Close => {
                    self.mode = Mode::Normal;
                    self.add_buffer.clear();
                    Effect::Nothing
                },
                Action::Add => {
                    self.mode = Mode::Normal;
                    let name = copy_chars(&self.add_buffer.content);
                    self.add_buffer.clear();
                    let n: usize = name.len();
                    if n > 0 && name[n - 1] == '/' {
                        Effect::CreateDir { name }
                    } else {
                        Effect::CreateFile { name }
                    }
                },
                Action::Input(key) => match key {
                    Key::Enter => {
                        self.mode = Mode::Normal;
                        Effect::Nothing
                    },
                    _ => {
                        apply_edit(&mut self.add_buffer, key);
                        Effect::Nothing
                    },
                },
                _ => Effect::Nothing,
            },
            Mode::Search => {
                let eff = match action {
                    Action::Close => {
                        self.mode = Mode::Normal;
                        self.search_buffer.clear();
                        Effect::Nothing
                    },
                    Action::Input(key) => match key {
                        Key::Enter => {
                            self.mode = Mode::Normal;
                            Effect::Nothing
                        },
                        _ => {
                            apply_edit(&mut self.search_buffer, key);
                            Effect::Nothing
                        },
                    },
                    _ => Effect::Nothing,
                };
                self.viewport.scroll = 0;
                self.viewport.reclamp(len, vis);
                eff
            },
            Mode::Help => match action {
                Action::Close => {
                    self.mode = Mode::Normal;
                    Effect::Nothing
                },
                _ => Effect::Nothing,
            },
        }
    }
}

/// Rename is idempotent on an unchanged name: committing the rename
/// prompt while its buffer still holds the selected entry's name
/// requests no filesystem change at all, and only the mode returns to
/// normal.
pub proof fn lemma_rename_unchanged_is_noop(pre: NFM, post: NFM, eff: Effect)
    requires
        pre.mode == Mode::Rename,
        pre.viewport.selection < pre.entries@.len(),
        pre.entries@[pre.viewport.selection as int].name@ == pre.rename_buffer.content@,
        step(pre, Action::Input(Key::Enter), post, eff),
    ensures
        eff is Nothing,
        post == (NFM { mode: Mode::Normal, ..pre }),
{
}

/// The session-wide invariants, spelled out: after any run of actions
/// on a consistent session the selection indexes the snapshot (resting
/// at 0 when it is empty), the selection sits inside the visible
/// window whenever the snapshot is non-empty, and every prompt cursor
/// stays inside its buffer.
pub proof fn lemma_session_invariants(s: NFM)
    requires
        s.wf(),
    ensures
        s.entries@.len() > 0 ==> s.viewport.selection < s.entries@.len(),
        s.entries@.len() == 0 ==> s.viewport.selection == 0,
        s.entries@.len() > 0 ==> s.viewport.scroll <= s.viewport.selection
            < s.viewport.scroll + s.visible_rows,
        s.rename_buffer.cursor <= s.rename_buffer.content@.len(),
        s.add_buffer.cursor <= s.add_buffer.content@.len(),
        s.search_buffer.cursor <= s.search_buffer.content@.len(),
{
}

} // verus!
