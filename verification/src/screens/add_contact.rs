use vstd::prelude::*;

verus! {

/// The window to add a contact: its address and the name to list it under.
pub struct AddContact {
    pub email: String,
    pub display_name: String,
}

impl AddContact {
    pub fn new() -> (a: AddContact)
        ensures
            a.email@ == Seq::<char>::empty(),
            a.display_name@ == Seq::<char>::empty(),
    {
        AddContact { email: String::new(), display_name: String::new() }
    }

    /// "Ok": the contact to add to the forward list, with the name typed, or
    /// its address when no name was typed.
    pub fn add_contact(&self) -> (r: (String, String))
        ensures
            r.0@ == self.email@,
            r.1@ == if self.display_name@.len() > 0 {
                self.display_name@
            } else {
                self.email@
            },
    {
        let display_name = if !self.display_name.as_str().is_empty() {
            self.display_name.clone()
        } else {
            self.email.clone()
        };
        (self.email.clone(), display_name)
    }
}

} // verus!
