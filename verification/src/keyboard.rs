use vstd::prelude::*;

verus! {

/// A key as the keyboard shortcuts tell them apart.
#[derive(Debug, Clone, Copy, PartialEq, Eq, Structural)]
pub enum Key {
    Tab,
    Other,
}

/// Where the keyboard focus moves.
#[derive(Debug, Clone, Copy, PartialEq, Eq, Structural)]
pub enum FocusMove {
    Next,
    Previous,
}

/// The focus move a key press asks for: Tab moves to the next field,
/// Shift+Tab to the previous one; other keys move nothing.
pub fn listen(key: Key, shift: bool) -> (r: Option<FocusMove>)
    ensures
        key == Key::Tab && shift ==> r == Some(FocusMove::Previous),
        key == Key::Tab && !shift ==> r == Some(FocusMove::Next),
        key == Key::Other ==> r is None,
{
    match key {
        Key::Tab => if shift {
            Some(FocusMove::Previous)
        } else {
            Some(FocusMove::Next)
        },
        Key::Other => None,
    }
}

} // verus!
