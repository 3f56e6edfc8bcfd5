use meowsn::enums::sign_in_status::SignInStatus;
use meowsn::screens::sign_in::{Action, Message, SignIn, Storage};

fn screen() -> SignIn {
    SignIn::new(vec!["me@x.com".to_string(), "other@x.com".to_string()], Some("pw".to_string()), Some(vec![7]))
}

#[test]
fn opens_on_first_remembered_address() {
    let s = screen();
    assert_eq!(s.email, Some("me@x.com".to_string()));
    assert_eq!(s.password, "pw");
    assert!(s.remember_me && s.remember_my_password);
    assert_eq!(s.display_picture, Some(vec![7]));
    assert_eq!(s.status, Some(SignInStatus::Online));
    assert!(!s.signing_in);
}

#[test]
fn opens_empty_without_remembered_addresses() {
    let s = SignIn::new(vec![], Some("pw".to_string()), Some(vec![1]));
    assert_eq!(s.email, None);
    assert_eq!(s.password, "");
    assert!(!s.remember_me && !s.remember_my_password);
    assert_eq!(s.display_picture, None);
}

#[test]
fn sign_in_trims_address_and_remembers() {
    let mut s = screen();
    s.update(Message::EmailInput("  new@x.com ".to_string()));
    assert_eq!(s.display_picture, None);
    let (action, storage) = s.update(Message::SignIn);
    assert!(matches!(action, Some(Action::SignIn)));
    assert_eq!(s.email, Some("new@x.com".to_string()));
    assert!(s.signing_in);
    assert_eq!(storage.len(), 2);
    assert!(matches!(&storage[0], Storage::RememberUser(e) if e == "new@x.com"));
    assert!(matches!(&storage[1], Storage::SavePassword { email, password } if email == "new@x.com" && password == "pw"));
    let (email, password, status) = s.get_sign_in_info();
    assert_eq!((email.as_str(), password.as_str(), status), ("new@x.com", "pw", Some(SignInStatus::Online)));
}

#[test]
fn sign_in_without_password_shows_dialog() {
    let mut s = SignIn::new(vec![], None, None);
    s.update(Message::EmailInput("me@x.com".to_string()));
    let (action, storage) = s.update(Message::SignIn);
    match action {
        Some(Action::Dialog(t)) => assert_eq!(t, "Please type your e-mail address and password in their corresponding forms."),
        _ => panic!("expected a dialog"),
    }
    assert!(storage.is_empty());
    assert!(!s.signing_in);
}

#[test]
fn blank_address_is_missing() {
    let mut s = SignIn::new(vec![], None, None);
    s.update(Message::EmailInput("   ".to_string()));
    s.update(Message::PasswordChanged("pw".to_string()));
    assert!(matches!(s.update(Message::SignIn).0, Some(Action::Dialog(_))));
}

#[test]
fn not_remembering_stores_nothing() {
    let mut s = SignIn::new(vec![], None, None);
    s.update(Message::EmailInput("me@x.com".to_string()));
    s.update(Message::PasswordChanged("pw".to_string()));
    let (action, storage) = s.update(Message::SignIn);
    assert!(matches!(action, Some(Action::SignIn)));
    assert!(storage.is_empty());
}

#[test]
fn remembering_password_remembers_user() {
    let mut s = SignIn::new(vec![], None, None);
    s.update(Message::RememberMyPasswordToggled(true));
    assert!(s.remember_me && s.remember_my_password);
    s.update(Message::RememberMeToggled(false));
    assert!(!s.remember_me);
    assert!(s.remember_my_password);
}

#[test]
fn status_menu_on_sign_in() {
    let mut s = screen();
    let (a, _) = s.update(Message::StatusSelected(SignInStatus::Busy));
    assert!(a.is_none());
    assert_eq!(s.status, Some(SignInStatus::Busy));
    let (a, _) = s.update(Message::StatusSelected(SignInStatus::PersonalSettings));
    assert!(matches!(a, Some(Action::PersonalSettings)));
    assert_eq!(s.status, Some(SignInStatus::Busy));
}

#[test]
fn forget_me_clears_the_form() {
    let mut s = screen();
    let (a, storage) = s.update(Message::ForgetMe);
    assert!(a.is_none());
    assert!(matches!(&storage[..], [Storage::ForgetUser(e)] if e == "me@x.com"));
    assert_eq!(s.email, Some(String::new()));
    assert_eq!(s.password, "");
    assert!(!s.remember_me && !s.remember_my_password);
    assert_eq!(s.display_picture, None);
    assert_eq!(s.emails, vec!["other@x.com".to_string()]);
    s.set_emails(vec!["other@x.com".to_string()]);
    assert_eq!(s.emails, vec!["other@x.com".to_string()]);
}

#[test]
fn selecting_remembered_address_fills_password() {
    let mut s = SignIn::new(vec![], None, None);
    s.update(Message::EmailSelected { email: "other@x.com".to_string(), stored_password: Some("pw2".to_string()), stored_picture: Some(vec![9]) });
    assert_eq!(s.email, Some("other@x.com".to_string()));
    assert_eq!(s.password, "pw2");
    assert!(s.remember_me && s.remember_my_password);
    assert_eq!(s.display_picture, Some(vec![9]));
}

#[test]
fn failed_sign_in_can_be_retried() {
    let mut s = screen();
    s.update(Message::SignIn);
    assert!(s.signing_in);
    s.update(Message::SignInFailed);
    assert!(!s.signing_in);
}
