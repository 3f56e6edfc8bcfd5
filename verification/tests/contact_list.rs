use meowsn::models::contact::{Contact, MsnList, MsnObject, Presence};
use meowsn::models::display_picture::DisplayPicture;
use meowsn::screens::contacts::contact_row::{avatar, row_label, Avatar};
use meowsn::screens::contacts::status_selector::Status;
use meowsn::screens::contacts::{Contacts, ResultEffect};
use meowsn::status::PresenceStatus;

fn presence(status: PresenceStatus) -> Presence {
    Presence { status, msn_object: None, msn_object_string: None }
}

fn list() -> Contacts {
    let mut c = Contacts::new("me@x.com".to_string(), PresenceStatus::Online, "hello".to_string(), None);
    c.on_contact_in_forward_list("bob@x.com".to_string(), "Bob".to_string(), "g1".to_string(), vec![MsnList::ForwardList, MsnList::AllowList]);
    c.on_contact_in_forward_list("amy@x.com".to_string(), "Amy".to_string(), "g2".to_string(), vec![MsnList::ForwardList]);
    c
}

fn bob() -> String {
    "bob@x.com".to_string()
}

#[test]
fn new_list_is_empty() {
    let c = Contacts::new("me@x.com".to_string(), PresenceStatus::Away, String::new(), None);
    assert_eq!(c.selected_status, Status::Away);
    assert_eq!(c.online_contacts.len(), 0);
    assert_eq!(c.offline_contacts.len(), 0);
    assert!(c.orphan_switchboards.is_empty());
}

#[test]
fn listed_contacts_start_offline() {
    let c = list();
    assert_eq!(c.offline_contacts.len(), 2);
    assert_eq!(c.online_contacts.len(), 0);
    assert_eq!(c.contact_repository.get_contact(&bob()).unwrap().guid, "g1");
}

#[test]
fn contact_signing_in_moves_online_and_notifies() {
    let mut c = list();
    let notice = c.on_presence_update(&bob(), "Bobby".to_string(), presence(PresenceStatus::Busy), None, false, true);
    assert_eq!(notice, Some("Bobby has just signed in".to_string()));
    assert!(c.online_contacts.contains("bob@x.com"));
    assert!(!c.offline_contacts.contains("bob@x.com"));
    let stored = c.contact_repository.get_contact(&bob()).unwrap();
    assert_eq!(stored.display_name, "Bobby");
    assert_eq!(stored.status.unwrap().status, PresenceStatus::Busy);
}

#[test]
fn no_notice_when_initial_busy_or_disabled() {
    let mut c = list();
    assert_eq!(c.on_presence_update(&bob(), "Bob".to_string(), presence(PresenceStatus::Online), None, true, true), None);
    let mut c = list();
    assert_eq!(c.on_presence_update(&bob(), "Bob".to_string(), presence(PresenceStatus::Online), None, false, false), None);
    let mut c = Contacts::new("me@x.com".to_string(), PresenceStatus::Busy, String::new(), None);
    c.on_contact_in_forward_list(bob(), "Bob".to_string(), "g".to_string(), vec![]);
    assert_eq!(c.on_presence_update(&bob(), "Bob".to_string(), presence(PresenceStatus::Online), None, false, true), None);
}

#[test]
fn second_presence_update_does_not_notify() {
    let mut c = list();
    c.on_presence_update(&bob(), "Bob".to_string(), presence(PresenceStatus::Online), None, false, true);
    assert_eq!(c.on_presence_update(&bob(), "Bob".to_string(), presence(PresenceStatus::Away), None, false, true), None);
    assert_eq!(c.online_contacts.get("bob@x.com").unwrap().status.unwrap().status, PresenceStatus::Away);
}

#[test]
fn presence_of_unknown_contact_is_ignored() {
    let mut c = list();
    let notice = c.on_presence_update(&"who@x.com".to_string(), "Who".to_string(), presence(PresenceStatus::Online), None, false, true);
    assert_eq!(notice, None);
    assert_eq!(c.online_contacts.len(), 0);
}

#[test]
fn announced_picture_is_taken_from_storage() {
    let mut c = list();
    let p = Presence {
        status: PresenceStatus::Online,
        msn_object: Some(MsnObject { object_type: 3, sha1d: "h1".to_string() }),
        msn_object_string: Some("<msnobj/>".to_string()),
    };
    c.on_presence_update(&bob(), "Bob".to_string(), p, Some(vec![5, 6]), true, true);
    let pic = c.online_contacts.get("bob@x.com").unwrap().display_picture.unwrap();
    assert_eq!(pic.hash, "h1");
    assert_eq!(pic.data, vec![5, 6]);
}

#[test]
fn contact_going_offline() {
    let mut c = list();
    c.on_presence_update(&bob(), "Bob".to_string(), presence(PresenceStatus::Online), None, true, true);
    c.on_contact_offline(&bob());
    assert!(c.offline_contacts.contains("bob@x.com"));
    assert!(!c.online_contacts.contains("bob@x.com"));
    assert!(c.contact_repository.get_contact(&bob()).unwrap().status.is_none());
}

#[test]
fn personal_message_update() {
    let mut c = list();
    c.on_personal_message_update(&bob(), "busy day".to_string());
    assert_eq!(c.offline_contacts.get("bob@x.com").unwrap().personal_message, Some("busy day".to_string()));
    let row = row_label(&c.offline_contacts.get("bob@x.com").unwrap());
    assert_eq!(row, "Bob - busy day");
}

#[test]
fn row_label_without_message() {
    let c = Contact::unknown(&"z@x.com".to_string());
    assert_eq!(row_label(&c), "z@x.com");
    let mut d = Contact::unknown(&"z@x.com".to_string());
    d.personal_message = Some(String::new());
    assert_eq!(row_label(&d), "z@x.com");
}

#[test]
fn block_and_unblock_results() {
    let mut c = list();
    assert_eq!(c.on_block_result(&bob(), Ok(())), None);
    let lists = c.offline_contacts.get("bob@x.com").unwrap().lists;
    assert!(lists.contains(&MsnList::BlockList) && !lists.contains(&MsnList::AllowList));
    assert_eq!(avatar(&c.offline_contacts.get("bob@x.com").unwrap()), Avatar::OfflineBlocked);
    assert_eq!(c.on_unblock_result(&bob(), Ok(())), None);
    let lists = c.contact_repository.get_contact(&bob()).unwrap().lists;
    assert!(!lists.contains(&MsnList::BlockList) && lists.contains(&MsnList::AllowList));
}

#[test]
fn failed_results_show_the_error() {
    let mut c = list();
    assert_eq!(c.on_block_result(&bob(), Err("no".to_string())), Some("no".to_string()));
    assert_eq!(c.on_unblock_result(&bob(), Err("nope".to_string())), Some("nope".to_string()));
    assert_eq!(c.on_delete_result(&bob(), Err("err".to_string())), Some("err".to_string()));
    assert!(c.offline_contacts.contains("bob@x.com"));
}

#[test]
fn deleting_forgets_the_contact() {
    let mut c = list();
    assert_eq!(c.on_delete_result(&bob(), Ok(())), None);
    assert!(!c.offline_contacts.contains("bob@x.com"));
    assert!(c.contact_repository.get_contact(&bob()).is_none());
}

#[test]
fn avatars_by_presence() {
    let mut c = Contact::unknown(&"a@x.com".to_string());
    assert_eq!(avatar(&c), Avatar::Offline);
    c.status = Some(presence(PresenceStatus::OnThePhone));
    assert_eq!(avatar(&c), Avatar::Busy);
    c.status = Some(presence(PresenceStatus::BeRightBack));
    assert_eq!(avatar(&c), Avatar::Away);
    c.status = Some(presence(PresenceStatus::Online));
    assert_eq!(avatar(&c), Avatar::Online);
    c.lists.push(MsnList::BlockList);
    assert_eq!(avatar(&c), Avatar::Blocked);
    assert_eq!(Avatar::OfflineBlocked.alt_text(), "Contact is offline and blocked");
}

#[test]
fn display_picture_of_contact() {
    let mut c = list();
    let p = Presence {
        status: PresenceStatus::Online,
        msn_object: Some(MsnObject { object_type: 3, sha1d: "hash".to_string() }),
        msn_object_string: None,
    };
    c.on_presence_update(&bob(), "Bob".to_string(), p, None, true, true);
    assert_eq!(c.on_contact_display_picture(&bob(), vec![1, 2]), Some("hash".to_string()));
    assert_eq!(c.online_contacts.get("bob@x.com").unwrap().display_picture.unwrap().data, vec![1, 2]);
    assert_eq!(c.on_contact_display_picture(&"amy@x.com".to_string(), vec![3]), None);
}

#[test]
fn conversation_opens_once_for_online_contacts() {
    let mut c = list();
    assert!(c.open_conversation(&bob()).is_none());
    c.on_presence_update(&bob(), "Bob".to_string(), presence(PresenceStatus::Online), None, true, true);
    let opened = c.open_conversation(&bob()).unwrap();
    assert!(opened.opening_conversation);
    assert!(c.open_conversation(&bob()).is_none());
    c.on_chat_window_focused(&bob());
    assert!(c.open_conversation(&bob()).is_some());
}

#[test]
fn appearing_offline_opens_no_conversation() {
    let mut c = Contacts::new("me@x.com".to_string(), PresenceStatus::AppearOffline, String::new(), None);
    c.on_contact_in_forward_list(bob(), "Bob".to_string(), "g".to_string(), vec![]);
    c.on_presence_update(&bob(), "Bob".to_string(), presence(PresenceStatus::Online), None, true, true);
    assert!(c.open_conversation(&bob()).is_none());
}

#[test]
fn category_header_clears_selection_inside_it() {
    let mut c = list();
    c.select_contact(bob());
    c.category_header_clicked(true);
    assert_eq!(c.selected_contact, Some(bob()));
    c.category_header_clicked(false);
    assert_eq!(c.selected_contact, None);
}

#[test]
fn added_contact_is_listed_offline() {
    let mut c = list();
    let r = c.on_add_contact_result(Ok(("new@x.com".to_string(), "New".to_string(), "g3".to_string(), vec![MsnList::ForwardList])));
    assert_eq!(r, None);
    assert!(c.offline_contacts.contains("new@x.com"));
    assert_eq!(c.on_add_contact_result(Err("exists".to_string())), Some("exists".to_string()));
}

#[test]
fn result_effects() {
    let c = list();
    match c.on_personal_message_result(Ok(())) {
        ResultEffect::StorePersonalMessage { email, personal_message } => {
            assert_eq!(email, "me@x.com");
            assert_eq!(personal_message, "hello");
        }
        _ => panic!("expected to store the message"),
    }
    assert!(matches!(c.on_personal_message_result(Err("e".to_string())), ResultEffect::Dialog(t) if t == "e"));
    assert!(matches!(c.on_status_result(PresenceStatus::Away, Ok(())), ResultEffect::UserStatusChanged(PresenceStatus::Away)));
    assert!(matches!(c.on_status_result(PresenceStatus::Away, Err("f".to_string())), ResultEffect::Dialog(t) if t == "f"));
}

#[test]
fn user_fields() {
    let mut c = list();
    c.on_display_name("Me!".to_string());
    assert_eq!(c.display_name, "Me!");
    c.on_display_picture_result(DisplayPicture { data: vec![1], hash: "h".to_string() });
    assert_eq!(c.display_picture.as_ref().unwrap().hash, "h");
    c.on_config("https://today".to_string());
    assert_eq!(c.msn_today_url, Some("https://today".to_string()));
}

#[test]
fn orphan_switchboards_collect_participants() {
    let mut c = list();
    c.on_session_answered("s1".to_string());
    c.on_participant_in_switchboard(&"s1".to_string(), "bob@x.com".to_string());
    c.on_participant_in_switchboard(&"s1".to_string(), "amy@x.com".to_string());
    c.on_participant_in_switchboard(&"s2".to_string(), "zed@x.com".to_string());
    c.on_participant_left_switchboard(&"s1".to_string(), &"bob@x.com".to_string());
    let o = c.take_orphan(&"s1".to_string()).unwrap();
    assert_eq!(o.session_id, "s1");
    assert_eq!(o.participants, vec!["amy@x.com".to_string()]);
    assert!(c.take_orphan(&"s1".to_string()).is_none());
    assert!(c.take_orphan(&"s2".to_string()).is_none());
}

#[test]
fn answering_a_session_twice_keeps_one() {
    let mut c = list();
    c.on_session_answered("s1".to_string());
    c.on_participant_in_switchboard(&"s1".to_string(), "bob@x.com".to_string());
    c.on_session_answered("s1".to_string());
    let o = c.take_orphan(&"s1".to_string()).unwrap();
    assert!(o.participants.is_empty());
    assert!(c.take_orphan(&"s1".to_string()).is_none());
}
