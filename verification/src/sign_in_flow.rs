use crate::models::common::opt_view;
use crate::status::PresenceStatus;
use vstd::prelude::*;

verus! {

/// The port of the dispatch server.
pub const DISPATCH_PORT: u16 = 1863;

/// Where the sign-in stands.
#[derive(Debug, Clone, Copy, PartialEq, Eq, Structural)]
pub enum Step {
    /// Connecting to a server (after a redirection when `redirected`).
    Connecting { redirected: bool },
    /// Logging in on the connected server.
    LoggingIn { redirected: bool },
    /// Reading what is remembered of the user.
    LookingUpUser,
    /// Sending the remembered display picture.
    SettingDisplayPicture,
    /// Sending the presence chosen for signing in.
    SettingPresence,
    /// Sending the personal message.
    SettingPersonalMessage,
    /// Signed in.
    Done,
    /// Given up.
    Failed,
}

/// Why signing in failed.
pub enum SignInError {
    /// The protocol reported this error.
    SdkError(String),
    /// The user cancelled.
    Cancelled,
}

/// What happened to the step under way.
pub enum SignInEvent {
    /// The connection is open (or could not be opened).
    Connected(Result<(), String>),
    /// The login ended: `Some` when the server redirected to another one.
    LoggedIn(Result<Option<(String, u16)>, String>),
    /// What is remembered of the user: the personal message and whether a
    /// display picture is remembered; `None` when nothing is.
    UserLookedUp(Option<(Option<String>, bool)>),
    /// The display picture, presence or personal message was sent (or not).
    Sent(Result<(), String>),
    /// The user cancelled.
    Cancelled,
}

/// What the sign-in asks for next.
pub enum SignInAction {
    /// Open a connection to this server, leaving the current one first when
    /// `disconnect_first`.
    Connect { server: String, port: u16, disconnect_first: bool },
    /// Log in on the connected server.
    Login,
    /// Read what is remembered of the user.
    LookUpUser,
    /// Send the remembered display picture.
    SetDisplayPicture,
    /// Send this presence.
    SetPresence(PresenceStatus),
    /// Send this personal message.
    SetPersonalMessage(String),
    /// Signed in, with this personal message.
    Finish { personal_message: String },
    /// Give up, after leaving the server when `disconnect`.
    Fail { error: SignInError, disconnect: bool },
}

/// The sign-in to the messaging service, one step at a time: connect,
/// log in (following one redirection), send the remembered display picture,
/// the chosen presence and the personal message.
pub struct SignInFlow {
    pub step: Step,
    pub status: PresenceStatus,
    pub personal_message: String,
}

/// Whether a client is connected while the step is under way.
pub open spec fn connected(step: Step) -> bool {
    match step {
        Step::Connecting { .. } | Step::Done | Step::Failed => false,
        _ => true,
    }
}

/// A failure with this error, after leaving the server when `disconnect`.
pub open spec fn fails_with(a: Option<SignInAction>, error: SignInError, disconnect: bool) -> bool {
    match a {
        Some(SignInAction::Fail { error: e, disconnect: d }) => e == error && d == disconnect,
        _ => false,
    }
}

/// A failure with the protocol error `message`, after leaving the server
/// when `disconnect`.
pub open spec fn fails_with_message(a: Option<SignInAction>, message: Seq<char>, disconnect: bool) -> bool {
    match a {
        Some(SignInAction::Fail { error: SignInError::SdkError(e), disconnect: d }) => e@ == message
            && d == disconnect,
        _ => false,
    }
}

/// What the sign-in does on `event` from the state `before`: the action `a`
/// it asks for and the state `after` it reaches.
pub open spec fn follows(
    before: SignInFlow,
    event: SignInEvent,
    a: Option<SignInAction>,
    after: SignInFlow,
) -> bool {
    if before.step is Done || before.step is Failed {
        a is None && after.step == before.step
    } else {
        match event {
            SignInEvent::Cancelled => fails_with(a, SignInError::Cancelled, connected(before.step))
                && after.step == Step::Failed,
            SignInEvent::Connected(result) => match before.step {
                Step::Connecting { redirected } => match result {
                    Ok(()) => a == Some(SignInAction::Login) && after.step == (Step::LoggingIn {
                        redirected,
                    }),
                    Err(e) => fails_with_message(a, e@, false) && after.step == Step::Failed,
                },
                _ => a is None && after.step == before.step,
            },
            SignInEvent::LoggedIn(result) => match before.step {
                Step::LoggingIn { redirected } => match result {
                    Err(e) => fails_with_message(a, e@, true) && after.step == Step::Failed,
                    Ok(Some((server, port))) => if !redirected {
                        &&& a matches Some(SignInAction::Connect { server: s, port: p, disconnect_first })
                        &&& s@ == server@ && p == port && disconnect_first
                        &&& after.step == (Step::Connecting { redirected: true })
                    } else {
                        a == Some(SignInAction::LookUpUser) && after.step == Step::LookingUpUser
                    },
                    Ok(None) => a == Some(SignInAction::LookUpUser) && after.step
                        == Step::LookingUpUser,
                },
                _ => a is None && after.step == before.step,
            },
            SignInEvent::UserLookedUp(user) => match before.step {
                Step::LookingUpUser => {
                    let psm = match user {
                        Some((Some(m), _)) => m@,
                        _ => Seq::<char>::empty(),
                    };
                    let picture = match user {
                        Some((_, p)) => p,
                        None => false,
                    };
                    &&& after.personal_message@ == psm
                    &&& picture ==> a == Some(SignInAction::SetDisplayPicture) && after.step
                        == Step::SettingDisplayPicture
                    &&& !picture ==> a == Some(SignInAction::SetPresence(before.status))
                        && after.step == Step::SettingPresence
                },
                _ => a is None && after.step == before.step,
            },
            SignInEvent::Sent(result) => match before.step {
                Step::SettingDisplayPicture | Step::SettingPresence | Step::SettingPersonalMessage => {
                    match result {
                        Err(e) => fails_with_message(a, e@, true) && after.step == Step::Failed,
                        Ok(()) => match before.step {
                            Step::SettingDisplayPicture => a == Some(
                                SignInAction::SetPresence(before.status),
                            ) && after.step == Step::SettingPresence,
                            Step::SettingPresence => {
                                &&& a matches Some(SignInAction::SetPersonalMessage(m))
                                &&& m@ == before.personal_message@
                                &&& after.step == Step::SettingPersonalMessage
                            },
                            _ => {
                                &&& a matches Some(SignInAction::Finish { personal_message: m })
                                &&& m@ == before.personal_message@
                                &&& after.step == Step::Done
                            },
                        },
                    }
                },
                _ => a is None && after.step == before.step,
            },
        }
    }
}

/// Giving up leaves the server exactly when a connection is open: an error
/// or a cancellation once connected disconnects first, one while connecting
/// does not; and a sign-in that gives up is over.
pub proof fn lemma_failure_disconnects_when_connected(
    before: SignInFlow,
    event: SignInEvent,
    a: Option<SignInAction>,
    after: SignInFlow,
)
    requires
        follows(before, event, a, after),
        a matches Some(SignInAction::Fail { .. }),
    ensures
        a matches Some(SignInAction::Fail { disconnect, .. }) && disconnect == connected(before.step),
        after.step == Step::Failed,
{
}

impl SignInFlow {
    /// Starts signing in on a server, with a presence.
    pub fn start(server: String, status: PresenceStatus) -> (r: (SignInFlow, SignInAction))
        ensures
            r.0.step == (Step::Connecting { redirected: false }),
            r.0.status == status,
            r.0.personal_message@ == Seq::<char>::empty(),
            r.1 matches SignInAction::Connect { server: s, port, disconnect_first } && s@ == server@
                && port == DISPATCH_PORT && !disconnect_first,
    {
        (
            SignInFlow { step: Step::Connecting { redirected: false }, status, personal_message: String::new() },
            SignInAction::Connect { server, port: DISPATCH_PORT, disconnect_first: false },
        )
    }

    /// Gives up.
    fn fail(&mut self, error: SignInError, disconnect: bool) -> (a: SignInAction)
        ensures
            final(self).step == Step::Failed,
            final(self).status == old(self).status,
            final(self).personal_message == old(self).personal_message,
            a matches SignInAction::Fail { error: e, disconnect: d } && d == disconnect && e
                == error,
    {
        self.step = Step::Failed;
        SignInAction::Fail { error, disconnect }
    }

    /// Takes the next step after what happened. A cancellation, or an error,
    /// gives up, leaving the server when connected to it; a finished or
    /// failed sign-in ignores what happens.
    pub fn next(&mut self, event: SignInEvent) -> (a: Option<SignInAction>)
        ensures
            final(self).status == old(self).status,
            !(old(self).step == Step::LookingUpUser && event is UserLookedUp)
                ==> final(self).personal_message == old(self).personal_message,
            follows(*old(self), event, a, *final(self)),
    {
        if self.step == Step::Done || self.step == Step::Failed {
            return None;
        }
        let was_connected = match self.step {
            Step::Connecting { .. } => false,
            _ => true,
        };
        match event {
            SignInEvent::Cancelled => Some(self.fail(SignInError::Cancelled, was_connected)),
            SignInEvent::Connected(result) => match self.step {
                Step::Connecting { redirected } => match result {
                    Ok(()) => {
                        self.step = Step::LoggingIn { redirected };
                        Some(SignInAction::Login)
                    },
                    Err(e) => Some(self.fail(SignInError::SdkError(e), false)),
                },
                _ => None,
            },
            SignInEvent::LoggedIn(result) => match self.step {
                Step::LoggingIn { redirected } => match result {
                    Err(e) => Some(self.fail(SignInError::SdkError(e), true)),
                    Ok(Some((server, port))) => if !redirected {
                        self.step = Step::Connecting { redirected: true };
                        Some(SignInAction::Connect { server, port, disconnect_first: true })
                    } else {
                        self.step = Step::LookingUpUser;
                        Some(SignInAction::LookUpUser)
                    },
                    Ok(None) => {
                        self.step = Step::LookingUpUser;
                        Some(SignInAction::LookUpUser)
                    },
                },
                _ => None,
            },
            SignInEvent::UserLookedUp(user) => match self.step {
                Step::LookingUpUser => {
                    let picture = match user {
                        Some((psm, has_picture)) => {
                            self.personal_message = match psm {
                                Some(m) => m,
                                None => String::new(),
                            };
                            has_picture
                        },
                        None => {
                            self.personal_message = String::new();
                            false
                        },
                    };
                    if picture {
                        self.step = Step::SettingDisplayPicture;
                        Some(SignInAction::SetDisplayPicture)
                    } else {
                        self.step = Step::SettingPresence;
                        Some(SignInAction::SetPresence(self.status))
                    }
                },
                _ => None,
            },
            SignInEvent::Sent(result) => match self.step {
                Step::SettingDisplayPicture | Step::SettingPresence | Step::SettingPersonalMessage => {
                    match result {
                        Err(e) => Some(self.fail(SignInError::SdkError(e), true)),
                        Ok(()) => match self.step {
                            Step::SettingDisplayPicture => {
                                self.step = Step::SettingPresence;
                                Some(SignInAction::SetPresence(self.status))
                            },
                            Step::SettingPresence => {
                                self.step = Step::SettingPersonalMessage;
                                Some(SignInAction::SetPersonalMessage(self.personal_message.clone()))
                            },
                            _ => {
                                self.step = Step::Done;
                                Some(
                                    SignInAction::Finish {
                                        personal_message: self.personal_message.clone(),
                                    },
                                )
                            },
                        },
                    }
                },
                _ => None,
            },
        }
    }
}

/// What is remembered of the user decides the personal message alone: after
/// the lookup the flow holds the remembered personal message, or the empty
/// text when none is remembered, whether or not a display picture is
/// remembered; two lookups that differ only in the picture give the same
/// message, and the picture only decides whether it is sent before the
/// presence.
pub proof fn lemma_lookup_keeps_remembered_message(
    before: SignInFlow,
    user: Option<(Option<String>, bool)>,
    a: Option<SignInAction>,
    after: SignInFlow,
    picture: bool,
    a2: Option<SignInAction>,
    after2: SignInFlow,
)
    requires
        before.step == Step::LookingUpUser,
        follows(before, SignInEvent::UserLookedUp(user), a, after),
        user matches Some((m, _)) ==> follows(
            before,
            SignInEvent::UserLookedUp(Some((m, picture))),
            a2,
            after2,
        ),
    ensures
        user matches Some((Some(m), _)) ==> after.personal_message@ == m@,
        (user is None || user matches Some((None, _))) ==> after.personal_message@.len() == 0,
        user is Some ==> after2.personal_message@ == after.personal_message@,
        user matches Some((_, true)) ==> a == Some(SignInAction::SetDisplayPicture),
        (user is None || user matches Some((_, false))) ==> a == Some(
            SignInAction::SetPresence(before.status),
        ),
{
}

/// The personal message finished with is the one the lookup left: from the
/// step that sends the presence, a sent presence asks to send the flow's
/// personal message, and from there a sent message finishes with it.
pub proof fn lemma_message_sent_is_message_held(
    before: SignInFlow,
    a: Option<SignInAction>,
    after: SignInFlow,
    a2: Option<SignInAction>,
    after2: SignInFlow,
)
    requires
        before.step == Step::SettingPresence,
        follows(before, SignInEvent::Sent(Ok(())), a, after),
        after.personal_message == before.personal_message,
        follows(after, SignInEvent::Sent(Ok(())), a2, after2),
    ensures
        a matches Some(SignInAction::SetPersonalMessage(m)) && m@ == before.personal_message@,
        a2 matches Some(SignInAction::Finish { personal_message: m }) && m@
            == before.personal_message@,
        after2.step == Step::Done,
{
}

/// The sign-in follows one redirection and no more: the connection after a
/// redirection goes to the server and port the redirection named, leaving
/// the first server, and a login on that second server goes on to the user
/// whatever it answers; the flag of a redirection carries over from
/// connecting to logging in.
pub proof fn lemma_one_redirection(
    before: SignInFlow,
    event: SignInEvent,
    a: Option<SignInAction>,
    after: SignInFlow,
)
    requires
        follows(before, event, a, after),
    ensures
        before.step matches Step::LoggingIn { redirected } ==> (event matches SignInEvent::LoggedIn(
            Ok(Some((server, port))),
        ) ==> (!redirected ==> (a matches Some(
            SignInAction::Connect { server: s, port: p, disconnect_first },
        ) && s@ == server@ && p == port && disconnect_first))),
        before.step == (Step::LoggingIn { redirected: true }) && event is LoggedIn && (
        event->LoggedIn_0 is Ok) ==> a == Some(SignInAction::LookUpUser),
        before.step matches Step::Connecting { redirected } ==> (event is Connected && (
        event->Connected_0 is Ok) ==> after.step == (Step::LoggingIn { redirected })),
{
}

/// A sign-in ends only by finishing or by giving up: the step after is done
/// exactly when the action is to finish, and failed exactly when it is to
/// give up; a finished or failed sign-in asks for nothing more.
pub proof fn lemma_ends_only_by_finish_or_fail(
    before: SignInFlow,
    event: SignInEvent,
    a: Option<SignInAction>,
    after: SignInFlow,
)
    requires
        follows(before, event, a, after),
        !(before.step is Done || before.step is Failed),
    ensures
        (after.step is Done) <==> (a matches Some(SignInAction::Finish { .. })),
        (after.step is Failed) <==> (a matches Some(SignInAction::Fail { .. })),
{
}

} // verus!
