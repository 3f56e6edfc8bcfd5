use meowsn::keyboard::{listen, FocusMove, Key};
use meowsn::main_window::{display_name_error, on_server_event, ServerEvent, WindowCommand};
use meowsn::screens::add_contact::AddContact;
use meowsn::screens::contacts::status_selector::{select, SelectorAction, Status as ListStatus};
use meowsn::screens::dialog::{Action as DialogAction, Dialog, Message as DialogMessage};
use meowsn::screens::invite::Invite;
use meowsn::screens::personal_settings::{PersonalSettings, SelectedTab};
use meowsn::screens::sign_in::status_selector::{status_selector, Status as SignInMenuStatus};
use meowsn::settings::Settings;
use meowsn::status::PresenceStatus;

#[test]
fn default_settings() {
    let s = Settings::default();
    assert_eq!(s.server, "ms.msgrsvcs.ctsrv.gay");
    assert_eq!(s.nexus_url, "https://pp.login.ugnet.gay/rdr/pprdr.asp");
    assert_eq!(s.config_server, "https://conf.msgrsvcs.ctsrv.gay/Config/MsgrConfig.asmx");
    assert!(s.check_for_updates && s.notify_sign_ins && s.notify_added_by);
    let d = s.duplicate();
    assert_eq!(d.server, s.server);
}

#[test]
fn dialog_closes_on_ok() {
    let mut d = Dialog::new("Something happened".to_string());
    assert_eq!(d.update(DialogMessage::OkPressed), Some(DialogAction::OkPressed));
    assert_eq!(d.message, "Something happened");
}

#[test]
fn invite_ignores_blank_address() {
    let mut i = Invite::new();
    assert_eq!(i.invite(), None);
    i.email = "   ".to_string();
    assert_eq!(i.invite(), None);
    i.email = "bob@x.com".to_string();
    assert_eq!(i.invite(), Some("bob@x.com".to_string()));
}

#[test]
fn add_contact_uses_address_when_no_name() {
    let mut a = AddContact::new();
    a.email = "bob@x.com".to_string();
    assert_eq!(a.add_contact(), ("bob@x.com".to_string(), "bob@x.com".to_string()));
    a.display_name = "Bob".to_string();
    assert_eq!(a.add_contact(), ("bob@x.com".to_string(), "Bob".to_string()));
}

fn custom_settings() -> Settings {
    Settings {
        server: "  my.server  ".to_string(),
        nexus_url: "\thttps://nexus\n".to_string(),
        config_server: "conf".to_string(),
        check_for_updates: false,
        notify_sign_ins: false,
        notify_added_by: false,
    }
}

#[test]
fn personal_settings_open_on_general_tab() {
    let p = PersonalSettings::new(Some("Me".to_string()), custom_settings(), Some(true));
    assert_eq!(p.selected_tab, SelectedTab::General);
    assert!(p.only_in_contact_list);
    assert_eq!(p.display_name, Some("Me".to_string()));
    let q = PersonalSettings::new(None, custom_settings(), None);
    assert!(!q.only_in_contact_list);
}

#[test]
fn save_general_trims_addresses() {
    let mut p = PersonalSettings::new(Some("Me".to_string()), custom_settings(), None);
    let (saved, name) = p.save_general(true);
    assert_eq!(saved.server, "my.server");
    assert_eq!(saved.nexus_url, "https://nexus");
    assert_eq!(saved.config_server, "conf");
    assert_eq!(name, Some("Me".to_string()));
    assert_eq!(p.server, "my.server");
    let (_, name) = p.save_general(false);
    assert_eq!(name, None);
}

#[test]
fn restore_general_defaults_keeps_added_by_notice() {
    let mut p = PersonalSettings::new(None, custom_settings(), None);
    p.restore_general_defaults();
    let d = Settings::default();
    assert_eq!(p.server, d.server);
    assert_eq!(p.nexus_url, d.nexus_url);
    assert_eq!(p.config_server, d.config_server);
    assert!(p.check_for_updates && p.notify_sign_ins);
    assert!(!p.notify_added_by);
}

#[test]
fn save_privacy_sends_list_choice() {
    let mut p = PersonalSettings::new(None, custom_settings(), Some(true));
    assert_eq!(p.save_privacy(true).1, Some("BL".to_string()));
    p.only_in_contact_list = false;
    assert_eq!(p.save_privacy(true).1, Some("AL".to_string()));
    assert_eq!(p.save_privacy(false).1, None);
    p.restore_privacy_defaults();
    assert!(p.notify_added_by);
    p.select_tab(SelectedTab::Privacy);
    assert_eq!(p.selected_tab, SelectedTab::Privacy);
}

#[test]
fn contact_list_status_menu() {
    assert_eq!(select(ListStatus::Busy, ListStatus::Away), (ListStatus::Away, SelectorAction::SetPresence(PresenceStatus::Away)));
    assert_eq!(select(ListStatus::Busy, ListStatus::SignOut), (ListStatus::Busy, SelectorAction::SignOut));
    assert_eq!(select(ListStatus::Online, ListStatus::PersonalSettings), (ListStatus::Online, SelectorAction::OpenPersonalSettings));
    assert_eq!(select(ListStatus::Away, ListStatus::ChangeDisplayPicture), (ListStatus::Away, SelectorAction::PickDisplayPicture));
    assert_eq!(ListStatus::ChangeDisplayPicture.label(), "Change Display Picture...");
    assert_eq!(ListStatus::from_presence(PresenceStatus::Idle), ListStatus::Online);
}

#[test]
fn status_menu_always_shows_a_status() {
    let statuses = [ListStatus::Online, ListStatus::Busy, ListStatus::Away, ListStatus::AppearOffline];
    let all = [
        ListStatus::Online, ListStatus::Busy, ListStatus::Away, ListStatus::AppearOffline,
        ListStatus::ChangeDisplayPicture, ListStatus::PersonalSettings, ListStatus::SignOut,
    ];
    for old in statuses {
        for chosen in all {
            assert!(statuses.contains(&select(old, chosen).0));
        }
    }
}

#[test]
fn sign_in_status_menu() {
    assert_eq!(status_selector(SignInMenuStatus::Busy, SignInMenuStatus::PersonalSettings), (SignInMenuStatus::Busy, true));
    assert_eq!(status_selector(SignInMenuStatus::Busy, SignInMenuStatus::Away), (SignInMenuStatus::Away, false));
    assert_eq!(SignInMenuStatus::PersonalSettings.presence(), PresenceStatus::Online);
    assert_eq!(SignInMenuStatus::AppearOffline.label(), "Appear Offline");
}

#[test]
fn server_events_end_or_continue_the_session() {
    match on_server_event(ServerEvent::Disconnected) {
        WindowCommand::BackToSignIn(t) => assert_eq!(t, "Lost connection to the server"),
        _ => panic!("expected to go back to sign in"),
    }
    match on_server_event(ServerEvent::LoggedInAnotherDevice) {
        WindowCommand::BackToSignIn(t) => assert_eq!(t, "Disconnected as you have signed in on another computer"),
        _ => panic!("expected to go back to sign in"),
    }
    match on_server_event(ServerEvent::MaintenanceScheduled(15)) {
        WindowCommand::ShowDialog(t) => assert_eq!(t, "The server will shut down for maintenance in 15 minutes"),
        _ => panic!("expected a dialog"),
    }
    assert!(matches!(on_server_event(ServerEvent::Other), WindowCommand::Forward));
}

#[test]
fn display_name_error_text() {
    assert_eq!(display_name_error("timeout"), "Error setting display name: timeout");
}

#[test]
fn tab_moves_focus() {
    assert_eq!(listen(Key::Tab, false), Some(FocusMove::Next));
    assert_eq!(listen(Key::Tab, true), Some(FocusMove::Previous));
    assert_eq!(listen(Key::Other, true), None);
}
