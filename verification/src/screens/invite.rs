use crate::text::{blank, is_blank};
use vstd::prelude::*;

verus! {

/// The window to invite someone into a conversation.
pub struct Invite {
    pub email: String,
}

impl Invite {
    pub fn new() -> (i: Invite)
        ensures
            i.email@ == Seq::<char>::empty(),
    {
        Invite { email: String::new() }
    }

    /// "Ok": the address to invite, unless only white space was typed.
    pub fn invite(&self) -> (r: Option<String>)
        ensures
            is_blank(self.email@) ==> r is None,
            !is_blank(self.email@) ==> r is Some && r.unwrap()@ == self.email@,
    {
        if blank(self.email.as_str()) {
            None
        } else {
            Some(self.email.clone())
        }
    }
}

} // verus!
