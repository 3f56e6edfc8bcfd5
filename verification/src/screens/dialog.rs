use vstd::prelude::*;

verus! {

/// What the dialog's user can do.
#[derive(Debug, Clone, Copy, PartialEq, Eq, Structural)]
pub enum Message {
    OkPressed,
}

/// What the dialog asks of the window that shows it.
#[derive(Debug, Clone, Copy, PartialEq, Eq, Structural)]
pub enum Action {
    OkPressed,
}

/// A window that shows a message and an "Ok" button.
pub struct Dialog {
    pub message: String,
}

impl Dialog {
    pub fn new(message: String) -> (d: Dialog)
        ensures
            d.message@ == message@,
    {
        Dialog { message }
    }

    /// Any message closes the dialog.
    pub fn update(&mut self, message: Message) -> (a: Option<Action>)
        ensures
            a == Some(Action::OkPressed),
            final(self).message@ == old(self).message@,
    {
        Some(Action::OkPressed)
    }
}

} // verus!
