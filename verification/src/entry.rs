use vstd::prelude::*;

verus! {

/// Transient UI state of a listed entry: `Removal` flags it as awaiting
/// a removal confirmation. The mark is reset whenever the snapshot is
/// rebuilt, because a snapshot is always built from fresh entries.
#[derive(Clone, Copy, Debug, PartialEq, Eq, Structural)]
pub enum EntryMark {
    Normal,
    Removal,
}

/// One item of a directory listing: its display name, whether it is a
/// directory, and its transient removal mark. The name and kind are
/// read once from the filesystem by the binary around this crate and
/// never change afterwards; only the mark can be toggled.
pub struct Entry {
    pub name: String,
    pub is_directory: bool,
    pub mark: EntryMark,
}

impl Entry {
    pub fn new(name: String, is_directory: bool) -> (e: Entry)
        ensures
            e.name == name,
            e.is_directory == is_directory,
            e.mark == EntryMark::Normal,
    {
        Entry { name, is_directory, mark: EntryMark::Normal }
    }

    /// Toggles the removal mark and touches nothing else.
    pub fn mark_for_removal(&mut self)
        ensures
            final(self).mark == (if old(self).mark == EntryMark::Normal {
                EntryMark::Removal
            } else {
                EntryMark::Normal
            }),
            final(self).name == old(self).name,
            final(self).is_directory == old(self).is_directory,
    {
        self.mark = if self.mark == EntryMark::Normal {
            EntryMark::Removal
        } else {
            EntryMark::Normal
        };
    }
}

} // verus!
