use crate::status::PresenceStatus;
use vstd::prelude::*;

verus! {

/// The entries of the status menu of the contact list: the statuses the
/// user can take, and three commands.
#[derive(Debug, Clone, Copy, PartialEq, Eq, Structural)]
pub enum Status {
    Online,
    Busy,
    Away,
    AppearOffline,
    ChangeDisplayPicture,
    PersonalSettings,
    SignOut,
}

/// What choosing an entry of the status menu asks for.
#[derive(Debug, Clone, Copy, PartialEq, Eq, Structural)]
pub enum SelectorAction {
    /// Let the user pick a new display picture.
    PickDisplayPicture,
    /// Open the personal settings window.
    OpenPersonalSettings,
    /// Disconnect and go back to the sign-in screen.
    SignOut,
    /// Send this presence to the server.
    SetPresence(PresenceStatus),
}

impl Status {
    pub open spec fn spec_label(self) -> Seq<char> {
        match self {
            Status::Online => "Online"@,
            Status::Busy => "Busy"@,
            Status::Away => "Away"@,
            Status::AppearOffline => "Appear Offline"@,
            Status::ChangeDisplayPicture => "Change Display Picture..."@,
            Status::PersonalSettings => "Personal Settings..."@,
            Status::SignOut => "Sign Out"@,
        }
    }

    /// The text of the menu entry.
    pub fn label(&self) -> (s: String)
        ensures
            s@ == self.spec_label(),
    {
        match self {
            Status::Online => String::from_str("Online"),
            Status::Busy => String::from_str("Busy"),
            Status::Away => String::from_str("Away"),
            Status::AppearOffline => String::from_str("Appear Offline"),
            Status::ChangeDisplayPicture => String::from_str("Change Display Picture..."),
            Status::PersonalSettings => String::from_str("Personal Settings..."),
            Status::SignOut => String::from_str("Sign Out"),
        }
    }

    /// Whether the entry is a status the user can be in (not a command).
    pub open spec fn is_presence(self) -> bool {
        self is Online || self is Busy || self is Away || self is AppearOffline
    }

    /// The presence sent for an entry; every other entry counts as online.
    pub open spec fn spec_presence(self) -> PresenceStatus {
        match self {
            Status::Busy => PresenceStatus::Busy,
            Status::Away => PresenceStatus::Away,
            Status::AppearOffline => PresenceStatus::AppearOffline,
            _ => PresenceStatus::Online,
        }
    }

    pub fn presence(&self) -> (p: PresenceStatus)
        ensures
            p == self.spec_presence(),
    {
        match self {
            Status::Busy => PresenceStatus::Busy,
            Status::Away => PresenceStatus::Away,
            Status::AppearOffline => PresenceStatus::AppearOffline,
            _ => PresenceStatus::Online,
        }
    }

    /// The entry shown for a presence the user signed in with.
    pub open spec fn spec_from_presence(p: PresenceStatus) -> Status {
        match p {
            PresenceStatus::Busy => Status::Busy,
            PresenceStatus::Away => Status::Away,
            PresenceStatus::AppearOffline => Status::AppearOffline,
            _ => Status::Online,
        }
    }

    pub fn from_presence(p: PresenceStatus) -> (s: Status)
        ensures
            s == Status::spec_from_presence(p),
    {
        match p {
            PresenceStatus::Busy => Status::Busy,
            PresenceStatus::Away => Status::Away,
            PresenceStatus::AppearOffline => Status::AppearOffline,
            _ => Status::Online,
        }
    }
}

/// The entry the menu shows after `chosen` was picked while `old` was
/// shown, and what the choice asks for.
pub open spec fn spec_select(old: Status, chosen: Status) -> (Status, SelectorAction) {
    match chosen {
        Status::ChangeDisplayPicture => (old, SelectorAction::PickDisplayPicture),
        Status::PersonalSettings => (old, SelectorAction::OpenPersonalSettings),
        Status::SignOut => (old, SelectorAction::SignOut),
        _ => (chosen, SelectorAction::SetPresence(chosen.spec_presence())),
    }
}

/// Handles a choice in the status menu: a command leaves the shown status as
/// it was and is carried out; a status is shown and sent to the server.
pub fn select(old: Status, chosen: Status) -> (r: (Status, SelectorAction))
    ensures
        r == spec_select(old, chosen),
{
    match chosen {
        Status::ChangeDisplayPicture => (old, SelectorAction::PickDisplayPicture),
        Status::PersonalSettings => (old, SelectorAction::OpenPersonalSettings),
        Status::SignOut => (old, SelectorAction::SignOut),
        _ => (chosen, SelectorAction::SetPresence(chosen.presence())),
    }
}

/// The menu never keeps a command selected: whatever is chosen, it shows a
/// status the user can be in, provided it showed one before.
pub proof fn lemma_select_keeps_presence(old: Status, chosen: Status)
    requires
        old.is_presence(),
    ensures
        spec_select(old, chosen).0.is_presence(),
{
}

/// Each status of the menu sends the presence it names: reading the entry
/// back from the presence sent gives the entry again, so no two statuses
/// send the same presence; the commands send no presence of their own and
/// count as online.
pub proof fn lemma_entry_sends_its_presence(s: Status, t: Status)
    ensures
        s.is_presence() ==> Status::spec_from_presence(s.spec_presence()) == s,
        s.is_presence() && t.is_presence() && s.spec_presence() == t.spec_presence() ==> s == t,
        s.spec_presence() == PresenceStatus::Online || s.spec_presence() == PresenceStatus::Busy
            || s.spec_presence() == PresenceStatus::Away || s.spec_presence()
            == PresenceStatus::AppearOffline,
        !s.is_presence() ==> s.spec_presence() == PresenceStatus::Online,
        (s.spec_presence() == PresenceStatus::Busy) <==> (s == Status::Busy),
        (s.spec_presence() == PresenceStatus::Away) <==> (s == Status::Away),
        (s.spec_presence() == PresenceStatus::AppearOffline) <==> (s == Status::AppearOffline),
{
}

/// Choosing a status in the menu shows it and sends exactly its presence:
/// the presence sent, read back, is the status shown.
pub proof fn lemma_select_sends_shown_status(old: Status, chosen: Status)
    requires
        chosen.is_presence(),
    ensures
        spec_select(old, chosen).0 == chosen,
        spec_select(old, chosen).1 matches SelectorAction::SetPresence(p)
            && Status::spec_from_presence(p) == chosen,
{
}

} // verus!
