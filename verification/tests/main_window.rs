use meowsn::contact_repository::ContactRepository;
use meowsn::main_window::{ConversationRequest, MainWindow};
use meowsn::models::contact::{Contact, MsnList, Presence};
use meowsn::screens::contacts::contact_row::{context_menu, row_action, MenuEntry, RowAction, RowInput};
use meowsn::screens::contacts::Contacts;
use meowsn::screens::conversation::Conversation;
use meowsn::status::PresenceStatus;

fn s(x: &str) -> String {
    x.to_string()
}

fn online() -> Presence {
    Presence { status: PresenceStatus::Online, msn_object: None, msn_object_string: None }
}

fn window() -> MainWindow {
    let mut c = Contacts::new(s("me@x.com"), PresenceStatus::Online, String::new(), None);
    c.on_contact_in_forward_list(s("bob@x.com"), s("Bob"), s("g1"), vec![MsnList::ForwardList]);
    c.on_contact_in_forward_list(s("amy@x.com"), s("Amy"), s("g2"), vec![MsnList::ForwardList]);
    c.on_presence_update(&s("bob@x.com"), s("Bob"), online(), None, true, true);
    MainWindow::new(c)
}

fn conversation_with_bob(w: &MainWindow) -> Conversation {
    Conversation::new(s("me@x.com"), s("Me"), None, PresenceStatus::Online, s("s1"), &vec![s("bob@x.com")], &w.contacts.contact_repository, None)
}

fn opening(w: &MainWindow, email: &str) -> bool {
    w.contacts.online_contacts.get(email).or_else(|| w.contacts.offline_contacts.get(email)).unwrap().opening_conversation
}

#[test]
fn asking_twice_opens_one_window() {
    let mut w = window();
    match w.request_conversation(&s("bob@x.com")) {
        ConversationRequest::Create(c) => assert_eq!(c.email, "bob@x.com"),
        _ => panic!("expected a new window"),
    }
    assert!(opening(&w, "bob@x.com"));
    assert!(matches!(w.request_conversation(&s("bob@x.com")), ConversationRequest::Nothing));
    let conv = conversation_with_bob(&w);
    w.add_conversation(conv);
    assert!(!opening(&w, "bob@x.com"));
    assert!(matches!(w.request_conversation(&s("bob@x.com")), ConversationRequest::Focus(0)));
    assert!(!opening(&w, "bob@x.com"));
    assert_eq!(w.conversations.len(), 1);
}

#[test]
fn offline_contacts_open_no_window() {
    let mut w = window();
    assert!(matches!(w.request_conversation(&s("amy@x.com")), ConversationRequest::Nothing));
}

#[test]
fn joining_participant_is_told_its_window_is_open() {
    let mut w = window();
    let conv = Conversation::new(s("me@x.com"), s("Me"), None, PresenceStatus::Online, s("s1"), &vec![], &w.contacts.contact_repository, None);
    w.add_conversation(conv);
    w.request_conversation(&s("bob@x.com"));
    assert!(opening(&w, "bob@x.com"));
    let (load, buffered) = w.on_participant_joined(0, &s("s1"), &s("bob@x.com"));
    assert!(load);
    assert!(buffered.is_empty());
    assert!(!opening(&w, "bob@x.com"));
    assert_eq!(w.conversations[0].get_participants().len(), 1);
    let (load, _) = w.on_participant_joined(0, &s("other"), &s("amy@x.com"));
    assert!(!load);
    assert_eq!(w.conversations[0].get_participants().len(), 1);
}

#[test]
fn closing_a_window_removes_only_it() {
    let mut w = window();
    let a = conversation_with_bob(&w);
    let b = Conversation::new(s("me@x.com"), s("Me"), None, PresenceStatus::Online, s("s2"), &vec![s("amy@x.com")], &ContactRepository::new(), None);
    w.add_conversation(a);
    w.add_conversation(b);
    assert_eq!(w.close_conversation(0), vec![s("s1")]);
    assert_eq!(w.conversations.len(), 1);
    assert!(w.conversations[0].contains_switchboard(&s("s2")));
}

#[test]
fn personal_settings_open_once() {
    let mut w = window();
    assert!(w.open_personal_settings());
    assert!(!w.open_personal_settings());
    w.close_personal_settings();
    assert!(w.open_personal_settings());
}

#[test]
fn context_menu_offers_block_or_unblock() {
    let mut c = Contact::unknown(&s("z@x.com"));
    assert_eq!(context_menu(&c), vec![MenuEntry::SendInstantMessage, MenuEntry::Block, MenuEntry::DeleteContact]);
    c.lists.push(MsnList::BlockList);
    assert_eq!(context_menu(&c), vec![MenuEntry::SendInstantMessage, MenuEntry::Unblock, MenuEntry::DeleteContact]);
    assert_eq!(MenuEntry::SendInstantMessage.label(), "Send an Instant Message");
    assert_eq!(MenuEntry::DeleteContact.label(), "Delete Contact");
}

#[test]
fn row_inputs() {
    let mut c = Contact::unknown(&s("z@x.com"));
    c.guid = s("gz");
    assert!(matches!(row_action(&c, RowInput::Pressed), RowAction::SelectContact(e) if e == "z@x.com"));
    assert!(matches!(row_action(&c, RowInput::DoubleClicked), RowAction::Conversation(e) if e == "z@x.com"));
    assert!(matches!(row_action(&c, RowInput::Menu(MenuEntry::Block)), RowAction::BlockContact(e) if e == "z@x.com"));
    assert!(matches!(row_action(&c, RowInput::Menu(MenuEntry::Unblock)), RowAction::UnblockContact(e) if e == "z@x.com"));
    assert!(matches!(row_action(&c, RowInput::Menu(MenuEntry::DeleteContact)), RowAction::RemoveContact { contact, guid } if contact == "z@x.com" && guid == "gz"));
}
