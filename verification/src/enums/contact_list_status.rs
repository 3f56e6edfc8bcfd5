use crate::status::PresenceStatus;
use vstd::prelude::*;

verus! {

/// The entries of the contact list's status menu, as the menu writes them.
#[derive(Debug, Clone, Copy, PartialEq, Eq, Structural)]
pub enum ContactListStatus {
    Online,
    Busy,
    Away,
    AppearOffline,
    ChangeDisplayPicture,
    PersonalSettings,
    SignOut,
}

impl Default for ContactListStatus {
    fn default() -> (s: Self)
        ensures
            s == ContactListStatus::Online,
    {
        ContactListStatus::Online
    }
}

impl ContactListStatus {
    pub open spec fn spec_label(self) -> Seq<char> {
        match self {
            ContactListStatus::Online => "(Online)"@,
            ContactListStatus::Busy => "(Busy)"@,
            ContactListStatus::Away => "(Away)"@,
            ContactListStatus::AppearOffline => "(Appear Offline)"@,
            ContactListStatus::ChangeDisplayPicture => "Change Display Picture"@,
            ContactListStatus::PersonalSettings => "Personal Settings"@,
            ContactListStatus::SignOut => "Sign Out"@,
        }
    }

    /// The text of the entry.
    pub fn label(&self) -> (s: String)
        ensures
            s@ == self.spec_label(),
    {
        match self {
            ContactListStatus::Online => String::from_str("(Online)"),
            ContactListStatus::Busy => String::from_str("(Busy)"),
            ContactListStatus::Away => String::from_str("(Away)"),
            ContactListStatus::AppearOffline => String::from_str("(Appear Offline)"),
            ContactListStatus::ChangeDisplayPicture => String::from_str("Change Display Picture"),
            ContactListStatus::PersonalSettings => String::from_str("Personal Settings"),
            ContactListStatus::SignOut => String::from_str("Sign Out"),
        }
    }

    /// Every entry, in the menu's order.
    pub fn all() -> (v: Vec<ContactListStatus>)
        ensures
            v@ == seq![
                ContactListStatus::Online,
                ContactListStatus::Busy,
                ContactListStatus::Away,
                ContactListStatus::AppearOffline,
                ContactListStatus::ChangeDisplayPicture,
                ContactListStatus::PersonalSettings,
                ContactListStatus::SignOut,
            ],
    {
        vec![
            ContactListStatus::Online,
            ContactListStatus::Busy,
            ContactListStatus::Away,
            ContactListStatus::AppearOffline,
            ContactListStatus::ChangeDisplayPicture,
            ContactListStatus::PersonalSettings,
            ContactListStatus::SignOut,
        ]
    }

    /// The presence set for an entry; every other entry counts as online.
    pub open spec fn spec_presence(self) -> PresenceStatus {
        match self {
            ContactListStatus::Busy => PresenceStatus::Busy,
            ContactListStatus::Away => PresenceStatus::Away,
            ContactListStatus::AppearOffline => PresenceStatus::AppearOffline,
            _ => PresenceStatus::Online,
        }
    }

    pub fn presence(&self) -> (p: PresenceStatus)
        ensures
            p == self.spec_presence(),
    {
        match self {
            ContactListStatus::Busy => PresenceStatus::Busy,
            ContactListStatus::Away => PresenceStatus::Away,
            ContactListStatus::AppearOffline => PresenceStatus::AppearOffline,
            _ => PresenceStatus::Online,
        }
    }
}

/// Each status entry of the menu sets the presence it names; the commands
/// count as online.
pub proof fn lemma_menu_entry_presence(s: ContactListStatus)
    ensures
        (s.spec_presence() == PresenceStatus::Busy) <==> (s == ContactListStatus::Busy),
        (s.spec_presence() == PresenceStatus::Away) <==> (s == ContactListStatus::Away),
        (s.spec_presence() == PresenceStatus::AppearOffline) <==> (s
            == ContactListStatus::AppearOffline),
        (s.spec_presence() == PresenceStatus::Online) <==> !(s == ContactListStatus::Busy || s
            == ContactListStatus::Away || s == ContactListStatus::AppearOffline),
{
}

} // verus!
