//! The path clipboard of the file explorer: one slot holding the path last
//! copied or cut.
//!
//! The slot is an ordinary value; the host keeps it behind its own lock, so
//! that a copy and a paste never interleave.
use vstd::prelude::*;

verus! {

/// What the slot holds.
pub struct ClipEntry {
    pub path: String,
    /// Whether the path was cut (moved on paste) rather than copied.
    pub cut: bool,
}

/// Errors of a paste.
#[derive(Clone, Copy, PartialEq, Eq, Structural, Debug)]
pub enum ClipboardError {
    /// Nothing was copied or cut yet, or a cut path was already moved.
    Empty,
}

/// Message for an empty clipboard.
pub const EMPTY_CLIPBOARD: &'static str = "Nothing in clipboard";

impl ClipboardError {
    /// Text shown to the user for this error.
    pub fn message(&self) -> (r: String)
        ensures
            r@ == EMPTY_CLIPBOARD@,
    {
        EMPTY_CLIPBOARD.to_owned()
    }
}

/// The clipboard slot.
pub struct PathClipboard {
    pub entry: Option<ClipEntry>,
}

impl PathClipboard {
    /// An empty clipboard.
    pub fn new() -> (r: PathClipboard)
        ensures
            r.entry is None,
    {
        PathClipboard { entry: None }
    }

    /// Puts `path` in the slot, replacing what was there.
    pub fn copy_path(&mut self, path: String, cut: bool)
        ensures
            final(self).entry matches Some(e) && e.path@ == path@ && e.cut == cut,
    {
        self.entry = Some(ClipEntry { path, cut });
    }

    /// What a paste works on: the path and whether to move it.
    pub fn pending(&self) -> (r: Result<(String, bool), ClipboardError>)
        ensures
            match self.entry {
                None => r == Err::<(String, bool), ClipboardError>(ClipboardError::Empty),
                Some(e) => r matches Ok(p) && p.0@ == e.path@ && p.1 == e.cut,
            },
    {
        match &self.entry {
            None => Err(ClipboardError::Empty),
            Some(e) => Ok((e.path.clone(), e.cut)),
        }
    }

    /// Records a paste that succeeded: a cut path is gone from its place, so
    /// the slot empties; a copied one stays for further pastes.
    pub fn paste_done(&mut self)
        ensures
            match old(self).entry {
                Some(e) => if e.cut {
                    final(self).entry is None
                } else {
                    final(self).entry == old(self).entry
                },
                None => final(self).entry is None,
            },
    {
        let clear = match &self.entry {
            Some(e) => e.cut,
            None => true,
        };
        if clear {
            self.entry = None;
        }
    }
}

} // verus!
