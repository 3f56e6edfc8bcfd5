use meowsn::sign_in_flow::{SignInAction, SignInError, SignInEvent, SignInFlow, Step, DISPATCH_PORT};
use meowsn::status::PresenceStatus;

fn started() -> SignInFlow {
    let (flow, action) = SignInFlow::start("ms.example".to_string(), PresenceStatus::Busy);
    match action {
        SignInAction::Connect { server, port, disconnect_first } => {
            assert_eq!(server, "ms.example");
            assert_eq!(port, DISPATCH_PORT);
            assert_eq!(port, 1863);
            assert!(!disconnect_first);
        }
        _ => panic!("expected to connect first"),
    }
    flow
}

fn ok() -> Result<(), String> {
    Ok(())
}

#[test]
fn sign_in_without_redirection() {
    let mut flow = started();
    assert!(matches!(flow.next(SignInEvent::Connected(ok())), Some(SignInAction::Login)));
    assert!(matches!(flow.next(SignInEvent::LoggedIn(Ok(None))), Some(SignInAction::LookUpUser)));
    let a = flow.next(SignInEvent::UserLookedUp(Some((Some("away for lunch".to_string()), true))));
    assert!(matches!(a, Some(SignInAction::SetDisplayPicture)));
    assert!(matches!(flow.next(SignInEvent::Sent(ok())), Some(SignInAction::SetPresence(PresenceStatus::Busy))));
    match flow.next(SignInEvent::Sent(ok())) {
        Some(SignInAction::SetPersonalMessage(m)) => assert_eq!(m, "away for lunch"),
        _ => panic!("expected the personal message"),
    }
    match flow.next(SignInEvent::Sent(ok())) {
        Some(SignInAction::Finish { personal_message }) => assert_eq!(personal_message, "away for lunch"),
        _ => panic!("expected to finish"),
    }
    assert_eq!(flow.step, Step::Done);
    assert!(flow.next(SignInEvent::Cancelled).is_none());
}

#[test]
fn sign_in_follows_one_redirection() {
    let mut flow = started();
    flow.next(SignInEvent::Connected(ok()));
    match flow.next(SignInEvent::LoggedIn(Ok(Some(("ns2.example".to_string(), 1864))))) {
        Some(SignInAction::Connect { server, port, disconnect_first }) => {
            assert_eq!(server, "ns2.example");
            assert_eq!(port, 1864);
            assert!(disconnect_first);
        }
        _ => panic!("expected to reconnect"),
    }
    assert_eq!(flow.step, Step::Connecting { redirected: true });
    assert!(matches!(flow.next(SignInEvent::Connected(ok())), Some(SignInAction::Login)));
    let a = flow.next(SignInEvent::LoggedIn(Ok(Some(("ns3.example".to_string(), 1865)))));
    assert!(matches!(a, Some(SignInAction::LookUpUser)));
}

#[test]
fn unknown_user_signs_in_with_empty_message() {
    let mut flow = started();
    flow.next(SignInEvent::Connected(ok()));
    flow.next(SignInEvent::LoggedIn(Ok(None)));
    assert!(matches!(flow.next(SignInEvent::UserLookedUp(None)), Some(SignInAction::SetPresence(PresenceStatus::Busy))));
    flow.next(SignInEvent::Sent(ok()));
    match flow.next(SignInEvent::Sent(ok())) {
        Some(SignInAction::Finish { personal_message }) => assert_eq!(personal_message, ""),
        _ => panic!("expected to finish"),
    }
}

#[test]
fn connection_error_does_not_disconnect() {
    let mut flow = started();
    match flow.next(SignInEvent::Connected(Err("refused".to_string()))) {
        Some(SignInAction::Fail { error: SignInError::SdkError(e), disconnect }) => {
            assert_eq!(e, "refused");
            assert!(!disconnect);
        }
        _ => panic!("expected to fail"),
    }
    assert_eq!(flow.step, Step::Failed);
    assert!(flow.next(SignInEvent::Connected(ok())).is_none());
}

#[test]
fn login_error_disconnects() {
    let mut flow = started();
    flow.next(SignInEvent::Connected(ok()));
    match flow.next(SignInEvent::LoggedIn(Err("bad password".to_string()))) {
        Some(SignInAction::Fail { error: SignInError::SdkError(e), disconnect }) => {
            assert_eq!(e, "bad password");
            assert!(disconnect);
        }
        _ => panic!("expected to fail"),
    }
}

#[test]
fn cancelling_disconnects_only_when_connected() {
    let mut flow = started();
    assert!(matches!(
        flow.next(SignInEvent::Cancelled),
        Some(SignInAction::Fail { error: SignInError::Cancelled, disconnect: false })
    ));
    let mut flow = started();
    flow.next(SignInEvent::Connected(ok()));
    flow.next(SignInEvent::LoggedIn(Ok(None)));
    flow.next(SignInEvent::UserLookedUp(None));
    assert!(matches!(
        flow.next(SignInEvent::Cancelled),
        Some(SignInAction::Fail { error: SignInError::Cancelled, disconnect: true })
    ));
}

#[test]
fn sending_error_disconnects() {
    let mut flow = started();
    flow.next(SignInEvent::Connected(ok()));
    flow.next(SignInEvent::LoggedIn(Ok(None)));
    flow.next(SignInEvent::UserLookedUp(Some((None, false))));
    assert!(matches!(
        flow.next(SignInEvent::Sent(Err("x".to_string()))),
        Some(SignInAction::Fail { error: SignInError::SdkError(_), disconnect: true })
    ));
}

#[test]
fn events_out_of_turn_are_ignored() {
    let mut flow = started();
    assert!(flow.next(SignInEvent::Sent(ok())).is_none());
    assert_eq!(flow.step, Step::Connecting { redirected: false });
}
