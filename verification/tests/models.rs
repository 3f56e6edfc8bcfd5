use meowsn::contact_repository::ContactRepository;
use meowsn::contact_table::ContactTable;
use meowsn::enums::contact_list_status::ContactListStatus;
use meowsn::enums::sign_in_status::SignInStatus;
use meowsn::models::contact::{
    block_lists, has_list, unblock_lists, without_list, Contact, MsnList, MsnObject, Presence,
};
use meowsn::models::display_picture::{copy_picture, DisplayPicture};
use meowsn::status::{PresenceStatus, Status};

fn contact(email: &str, name: &str, lists: Vec<MsnList>) -> Contact {
    Contact {
        email: email.to_string(),
        display_name: name.to_string(),
        guid: format!("guid-{email}"),
        lists,
        status: None,
        personal_message: None,
        display_picture: None,
        opening_conversation: false,
    }
}

#[test]
fn status_labels() {
    let labels: Vec<String> = Status::all().iter().map(|s| s.label()).collect();
    assert_eq!(labels, vec!["Online", "Busy", "Away", "Appear Offline"]);
}

#[test]
fn status_round_trips_through_its_presence() {
    for s in Status::all() {
        assert_eq!(Status::from_presence(s.presence()), s);
    }
}

#[test]
fn presences_without_a_status_count_as_online() {
    for p in [PresenceStatus::Idle, PresenceStatus::OutToLunch, PresenceStatus::OnThePhone, PresenceStatus::BeRightBack] {
        assert_eq!(Status::from_presence(p), Status::Online);
    }
    assert_eq!(Status::from_presence(PresenceStatus::Busy), Status::Busy);
}

#[test]
fn contact_list_status_labels_and_presences() {
    let labels: Vec<String> = ContactListStatus::all().iter().map(|s| s.label()).collect();
    assert_eq!(
        labels,
        vec!["(Online)", "(Busy)", "(Away)", "(Appear Offline)", "Change Display Picture", "Personal Settings", "Sign Out"]
    );
    assert_eq!(ContactListStatus::default(), ContactListStatus::Online);
    assert_eq!(ContactListStatus::Busy.presence(), PresenceStatus::Busy);
    assert_eq!(ContactListStatus::AppearOffline.presence(), PresenceStatus::AppearOffline);
    assert_eq!(ContactListStatus::SignOut.presence(), PresenceStatus::Online);
}

#[test]
fn sign_in_status_labels_and_presences() {
    let labels: Vec<String> = SignInStatus::all().iter().map(|s| s.label()).collect();
    assert_eq!(labels, vec!["Online", "Busy", "Away", "Appear Offline", "Personal Settings"]);
    assert_eq!(SignInStatus::presence(None), PresenceStatus::Online);
    assert_eq!(SignInStatus::presence(Some(SignInStatus::Away)), PresenceStatus::Away);
    assert_eq!(SignInStatus::presence(Some(SignInStatus::PersonalSettings)), PresenceStatus::Online);
}

#[test]
fn block_then_unblock_moves_between_lists() {
    let lists = vec![MsnList::ForwardList, MsnList::AllowList, MsnList::ReverseList];
    let blocked = block_lists(&lists);
    assert_eq!(blocked, vec![MsnList::ForwardList, MsnList::ReverseList, MsnList::BlockList]);
    let unblocked = unblock_lists(&blocked);
    assert_eq!(unblocked, vec![MsnList::ForwardList, MsnList::ReverseList, MsnList::AllowList]);
    assert!(has_list(&unblocked, MsnList::AllowList));
    assert!(!has_list(&unblocked, MsnList::BlockList));
}

#[test]
fn without_list_removes_every_occurrence() {
    let lists = vec![MsnList::AllowList, MsnList::ForwardList, MsnList::AllowList];
    assert_eq!(without_list(&lists, MsnList::AllowList), vec![MsnList::ForwardList]);
}

#[test]
fn picture_hash_only_for_display_pictures() {
    let with_picture = Presence {
        status: PresenceStatus::Online,
        msn_object: Some(MsnObject { object_type: 3, sha1d: "abc=".to_string() }),
        msn_object_string: None,
    };
    assert_eq!(with_picture.picture_hash(), Some("abc=".to_string()));
    let emoticon = Presence {
        status: PresenceStatus::Online,
        msn_object: Some(MsnObject { object_type: 2, sha1d: "xyz=".to_string() }),
        msn_object_string: None,
    };
    assert_eq!(emoticon.picture_hash(), None);
    let nothing = Presence { status: PresenceStatus::Away, msn_object: None, msn_object_string: None };
    assert_eq!(nothing.picture_hash(), None);
}

#[test]
fn unknown_contact_is_named_by_its_address() {
    let c = Contact::unknown(&"bob@example.com".to_string());
    assert_eq!(c.email, "bob@example.com");
    assert_eq!(c.display_name, "bob@example.com");
    assert!(c.lists.is_empty());
    assert!(c.status.is_none());
}

#[test]
fn duplicate_keeps_every_field() {
    let mut c = contact("a@x.com", "A", vec![MsnList::ForwardList]);
    c.personal_message = Some("hi".to_string());
    c.display_picture = Some(DisplayPicture { data: vec![1, 2, 3], hash: "h".to_string() });
    let d = c.duplicate();
    assert_eq!(d.email, c.email);
    assert_eq!(d.guid, c.guid);
    assert_eq!(d.lists, c.lists);
    assert_eq!(d.personal_message, c.personal_message);
    assert_eq!(d.display_picture.as_ref().unwrap().data, vec![1, 2, 3]);
    let p = copy_picture(&c.display_picture);
    assert_eq!(p.unwrap().hash, "h");
}

#[test]
fn contact_table_keeps_contacts_in_address_order() {
    let mut t = ContactTable::new();
    t.insert(contact("carol@x.com", "Carol", vec![]));
    t.insert(contact("alice@x.com", "Alice", vec![]));
    t.insert(contact("bob@x.com", "Bob", vec![]));
    let emails: Vec<&str> = t.contacts().iter().map(|c| c.email.as_str()).collect();
    assert_eq!(emails, vec!["alice@x.com", "bob@x.com", "carol@x.com"]);
    assert_eq!(t.len(), 3);
}

#[test]
fn contact_table_insert_replaces_same_address() {
    let mut t = ContactTable::new();
    t.insert(contact("a@x.com", "Old", vec![]));
    t.insert(contact("a@x.com", "New", vec![]));
    assert_eq!(t.len(), 1);
    assert_eq!(t.get("a@x.com").unwrap().display_name, "New");
    assert_eq!(t.get_ref("a@x.com").unwrap().display_name, "New");
}

#[test]
fn contact_table_remove() {
    let mut t = ContactTable::new();
    t.insert(contact("a@x.com", "A", vec![]));
    t.insert(contact("b@x.com", "B", vec![]));
    let removed = t.remove("a@x.com");
    assert_eq!(removed.unwrap().display_name, "A");
    assert!(!t.contains("a@x.com"));
    assert!(t.contains("b@x.com"));
    assert!(t.remove("a@x.com").is_none());
}

#[test]
fn repository_store_then_get() {
    let mut repo = ContactRepository::new();
    repo.add_contacts(&[contact("a@x.com", "A", vec![MsnList::ForwardList]), contact("b@x.com", "B", vec![])]);
    assert_eq!(repo.get_contact(&"a@x.com".to_string()).unwrap().display_name, "A");
    repo.update_contact(&contact("a@x.com", "A2", vec![MsnList::ForwardList]));
    assert_eq!(repo.get_contact(&"a@x.com".to_string()).unwrap().display_name, "A2");
    assert_eq!(repo.get_contact(&"b@x.com".to_string()).unwrap().display_name, "B");
    repo.remove_contact(&"a@x.com".to_string());
    assert!(repo.get_contact(&"a@x.com".to_string()).is_none());
}

#[test]
fn repository_update_contacts_replaces_stored() {
    let mut repo = ContactRepository::new();
    repo.add_contacts(&[contact("a@x.com", "A", vec![])]);
    repo.update_contacts(&[contact("a@x.com", "A!", vec![]), contact("c@x.com", "C", vec![])]);
    assert_eq!(repo.get_contact(&"a@x.com".to_string()).unwrap().display_name, "A!");
    assert_eq!(repo.get_contact(&"c@x.com".to_string()).unwrap().display_name, "C");
}

#[test]
fn repository_contacts_in_list() {
    let mut repo = ContactRepository::new();
    repo.add_contacts(&[
        contact("z@x.com", "Z", vec![MsnList::ForwardList]),
        contact("m@x.com", "M", vec![MsnList::ReverseList]),
        contact("a@x.com", "A", vec![MsnList::AllowList, MsnList::ForwardList]),
    ]);
    let forward: Vec<String> = repo.get_contacts_in_list(MsnList::ForwardList).into_iter().map(|c| c.email).collect();
    assert_eq!(forward, vec!["a@x.com", "z@x.com"]);
    assert!(repo.get_contacts_in_list(MsnList::BlockList).is_empty());
}
