use crate::status::PresenceStatus;
use vstd::prelude::*;

verus! {

/// The entries of the sign-in screen's status menu.
#[derive(Debug, Clone, Copy, PartialEq, Eq, Structural)]
pub enum SignInStatus {
    Online,
    Busy,
    Away,
    AppearOffline,
    PersonalSettings,
}

impl Default for SignInStatus {
    fn default() -> (s: Self)
        ensures
            s == SignInStatus::Online,
    {
        SignInStatus::Online
    }
}

impl SignInStatus {
    pub open spec fn spec_label(self) -> Seq<char> {
        match self {
            SignInStatus::Online => "Online"@,
            SignInStatus::Busy => "Busy"@,
            SignInStatus::Away => "Away"@,
            SignInStatus::AppearOffline => "Appear Offline"@,
            SignInStatus::PersonalSettings => "Personal Settings"@,
        }
    }

    /// The text of the entry.
    pub fn label(&self) -> (s: String)
        ensures
            s@ == self.spec_label(),
    {
        match self {
            SignInStatus::Online => String::from_str("Online"),
            SignInStatus::Busy => String::from_str("Busy"),
            SignInStatus::Away => String::from_str("Away"),
            SignInStatus::AppearOffline => String::from_str("Appear Offline"),
            SignInStatus::PersonalSettings => String::from_str("Personal Settings"),
        }
    }

    /// Every entry, in the menu's order.
    pub fn all() -> (v: Vec<SignInStatus>)
        ensures
            v@ == seq![
                SignInStatus::Online,
                SignInStatus::Busy,
                SignInStatus::Away,
                SignInStatus::AppearOffline,
                SignInStatus::PersonalSettings,
            ],
    {
        vec![
            SignInStatus::Online,
            SignInStatus::Busy,
            SignInStatus::Away,
            SignInStatus::AppearOffline,
            SignInStatus::PersonalSettings,
        ]
    }

    /// The presence to sign in with: none chosen, or the settings entry,
    /// counts as online.
    pub open spec fn spec_presence(s: Option<SignInStatus>) -> PresenceStatus {
        match s {
            Some(SignInStatus::Busy) => PresenceStatus::Busy,
            Some(SignInStatus::Away) => PresenceStatus::Away,
            Some(SignInStatus::AppearOffline) => PresenceStatus::AppearOffline,
            _ => PresenceStatus::Online,
        }
    }

    pub fn presence(s: Option<SignInStatus>) -> (p: PresenceStatus)
        ensures
            p == SignInStatus::spec_presence(s),
    {
        match s {
            Some(SignInStatus::Busy) => PresenceStatus::Busy,
            Some(SignInStatus::Away) => PresenceStatus::Away,
            Some(SignInStatus::AppearOffline) => PresenceStatus::AppearOffline,
            _ => PresenceStatus::Online,
        }
    }
}

/// Signing in with a status uses the presence it names; no status, or the
/// settings entry, signs in online.
pub proof fn lemma_sign_in_presence(s: Option<SignInStatus>)
    ensures
        (SignInStatus::spec_presence(s) == PresenceStatus::Busy) <==> (s == Some(SignInStatus::Busy)),
        (SignInStatus::spec_presence(s) == PresenceStatus::Away) <==> (s == Some(SignInStatus::Away)),
        (SignInStatus::spec_presence(s) == PresenceStatus::AppearOffline) <==> (s == Some(
            SignInStatus::AppearOffline,
        )),
        (SignInStatus::spec_presence(s) == PresenceStatus::Online) <==> !(s == Some(SignInStatus::Busy)
            || s == Some(SignInStatus::Away) || s == Some(SignInStatus::AppearOffline)),
{
}

} // verus!
