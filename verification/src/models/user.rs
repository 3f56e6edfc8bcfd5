use crate::models::display_picture::DisplayPicture;
use vstd::prelude::*;

verus! {

/// What is remembered of a user who signed in on this computer.
pub struct User {
    pub personal_message: Option<String>,
    pub display_picture: Option<DisplayPicture>,
}

} // verus!
