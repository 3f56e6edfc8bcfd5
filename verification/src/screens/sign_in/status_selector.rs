use crate::status::PresenceStatus;
use vstd::prelude::*;

verus! {

/// The entries of the status menu of the sign-in screen: the status to sign
/// in with, and a command.
#[derive(Debug, Clone, Copy, PartialEq, Eq, Structural)]
pub enum Status {
    Online,
    Busy,
    Away,
    AppearOffline,
    PersonalSettings,
}

impl Status {
    pub open spec fn spec_label(self) -> Seq<char> {
        match self {
            Status::Online => "Online"@,
            Status::Busy => "Busy"@,
            Status::Away => "Away"@,
            Status::AppearOffline => "Appear Offline"@,
            Status::PersonalSettings => "Personal Settings..."@,
        }
    }

    /// The text of the menu entry.
    pub fn label(&self) -> (s: String)
        ensures
            s@ == self.spec_label(),
    {
        match self {
            Status::Online => String::from_str("Online"),
            Status::Busy => String::from_str("Busy"),
            Status::Away => String::from_str("Away"),
            Status::AppearOffline => String::from_str("Appear Offline"),
            Status::PersonalSettings => String::from_str("Personal Settings..."),
        }
    }

    /// The presence to sign in with; the command counts as online.
    pub open spec fn spec_presence(self) -> PresenceStatus {
        match self {
            Status::Busy => PresenceStatus::Busy,
            Status::Away => PresenceStatus::Away,
            Status::AppearOffline => PresenceStatus::AppearOffline,
            _ => PresenceStatus::Online,
        }
    }

    pub fn presence(&self) -> (p: PresenceStatus)
        ensures
            p == self.spec_presence(),
    {
        match self {
            Status::Busy => PresenceStatus::Busy,
            Status::Away => PresenceStatus::Away,
            Status::AppearOffline => PresenceStatus::AppearOffline,
            _ => PresenceStatus::Online,
        }
    }
}

/// Handles a choice in the menu: choosing the personal settings opens them
/// (the result's `true`) and keeps the status shown before; a status is kept.
pub fn status_selector(old: Status, chosen: Status) -> (r: (Status, bool))
    ensures
        chosen == Status::PersonalSettings ==> r == (old, true),
        chosen != Status::PersonalSettings ==> r == (chosen, false),
{
    if chosen == Status::PersonalSettings {
        (old, true)
    } else {
        (chosen, false)
    }
}

/// Each status of the sign-in menu signs in with the presence it names, no
/// two statuses with the same one; the settings entry counts as online.
pub proof fn lemma_sign_in_entry_presence(s: Status, t: Status)
    ensures
        s != Status::PersonalSettings && t != Status::PersonalSettings && s.spec_presence()
            == t.spec_presence() ==> s == t,
        (s.spec_presence() == PresenceStatus::Busy) <==> (s == Status::Busy),
        (s.spec_presence() == PresenceStatus::Away) <==> (s == Status::Away),
        (s.spec_presence() == PresenceStatus::AppearOffline) <==> (s == Status::AppearOffline),
        (s.spec_presence() == PresenceStatus::Online) <==> (s == Status::Online || s
            == Status::PersonalSettings),
{
}

} // verus!
