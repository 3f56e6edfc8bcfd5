use vstd::prelude::*;

verus! {

/// The presence statuses the protocol knows about.
#[derive(Debug, Clone, Copy, PartialEq, Eq, Structural)]
pub enum PresenceStatus {
    Online,
    Busy,
    Away,
    Idle,
    OutToLunch,
    OnThePhone,
    BeRightBack,
    AppearOffline,
}

/// The statuses a user can pick for themselves.
#[derive(Debug, Clone, Copy, PartialEq, Eq, Structural)]
pub enum Status {
    Online,
    Busy,
    Away,
    AppearOffline,
}

impl Status {
    /// The text shown for this status.
    pub open spec fn spec_label(self) -> Seq<char> {
        match self {
            Status::Online => "Online"@,
            Status::Busy => "Busy"@,
            Status::Away => "Away"@,
            Status::AppearOffline => "Appear Offline"@,
        }
    }

    /// The presence sent to the server for this status.
    pub open spec fn spec_presence(self) -> PresenceStatus {
        match self {
            Status::Online => PresenceStatus::Online,
            Status::Busy => PresenceStatus::Busy,
            Status::Away => PresenceStatus::Away,
            Status::AppearOffline => PresenceStatus::AppearOffline,
        }
    }

    /// The status selected for a presence: every presence without a
    /// status of its own counts as online.
    pub open spec fn spec_from_presence(p: PresenceStatus) -> Status {
        match p {
            PresenceStatus::Busy => Status::Busy,
            PresenceStatus::Away => Status::Away,
            PresenceStatus::AppearOffline => Status::AppearOffline,
            _ => Status::Online,
        }
    }

    pub fn label(&self) -> (s: String)
        ensures
            s@ == self.spec_label(),
    {
        match self {
            Status::Online => String::from_str("Online"),
            Status::Busy => String::from_str("Busy"),
            Status::Away => String::from_str("Away"),
            Status::AppearOffline => String::from_str("Appear Offline"),
        }
    }

    pub fn presence(&self) -> (p: PresenceStatus)
        ensures
            p == self.spec_presence(),
    {
        match self {
            Status::Online => PresenceStatus::Online,
            Status::Busy => PresenceStatus::Busy,
            Status::Away => PresenceStatus::Away,
            Status::AppearOffline => PresenceStatus::AppearOffline,
        }
    }

    pub fn from_presence(p: PresenceStatus) -> (s: Status)
        ensures
            s == Status::spec_from_presence(p),
    {
        match p {
            PresenceStatus::Busy => Status::Busy,
            PresenceStatus::Away => Status::Away,
            PresenceStatus::AppearOffline => Status::AppearOffline,
            _ => Status::Online,
        }
    }

    pub fn all() -> (v: Vec<Status>)
        ensures
            v@ == seq![Status::Online, Status::Busy, Status::Away, Status::AppearOffline],
    {
        vec![Status::Online, Status::Busy, Status::Away, Status::AppearOffline]
    }
}

/// Picking a status and reading it back from the presence it sends gives
/// the same status.
pub proof fn lemma_status_presence_round_trip(s: Status)
    ensures
        Status::spec_from_presence(s.spec_presence()) == s,
        (s.spec_presence() == PresenceStatus::Busy) <==> (s == Status::Busy),
        (s.spec_presence() == PresenceStatus::Away) <==> (s == Status::Away),
        (s.spec_presence() == PresenceStatus::AppearOffline) <==> (s == Status::AppearOffline),
        (s.spec_presence() == PresenceStatus::Online) <==> (s == Status::Online),
{
}

} // verus!
