//! The cursor cache: the OS cursor is only touched when the GUI asks for a
//! different shape or visibility than the one last applied.
use vstd::prelude::*;

verus! {

/// A cursor shape the GUI may ask for.
#[derive(Clone, Copy, Debug, PartialEq, Eq, Structural)]
pub enum MouseCursor {
    Arrow,
    TextInput,
    ResizeAll,
    ResizeNS,
    ResizeEW,
    ResizeNESW,
    ResizeNWSE,
    Hand,
    NotAllowed,
}

/// What the GUI wants of the cursor in one frame: a shape (`None` hides it)
/// and whether the GUI draws the cursor itself.
#[derive(Clone, Copy, Debug, PartialEq, Eq, Structural)]
pub struct CursorSettings {
    pub cursor: Option<MouseCursor>,
    pub draw_cursor: bool,
}

/// The settings last applied to the OS window, if any.
#[derive(Clone, Copy, Debug)]
pub struct CursorCache {
    pub last: Option<CursorSettings>,
}

impl CursorCache {
    /// A cache that has applied nothing yet.
    pub fn new() -> (r: CursorCache)
        ensures
            r.last.is_none(),
    {
        CursorCache { last: None }
    }

    /// Offers the settings that a frame asks for. When the GUI allows cursor
    /// changes and `wanted` differs from what was last applied, the result is
    /// `true` (apply it) and `wanted` is remembered. Otherwise nothing changes.
    pub fn update(&mut self, change_allowed: bool, wanted: CursorSettings) -> (apply: bool)
        ensures
            apply == (change_allowed && old(self).last != Some(wanted)),
            final(self).last == if change_allowed {
                Some(wanted)
            } else {
                old(self).last
            },
    {
        if !change_allowed {
            return false;
        }
        let same = match self.last {
            Some(prev) => prev == wanted,
            None => false,
        };
        self.last = Some(wanted);
        !same
    }
}

} // verus!
