use meowsn::links::url_pattern;
use meowsn::contact_repository::ContactRepository;
use meowsn::models::contact::{Contact, MsnList, MsnObject, Presence};
use meowsn::models::display_picture::DisplayPicture;
use meowsn::main_window::{conversation_for_switchboard, conversation_with};
use meowsn::models::message::Message;
use meowsn::screens::conversation::{
    history_query, Conversation, Dispatch, HistoryQuery, PictureLayout, PlainText,
};
use meowsn::status::PresenceStatus;

fn contact(email: &str, name: &str) -> Contact {
    Contact {
        email: email.to_string(),
        display_name: name.to_string(),
        guid: String::new(),
        lists: vec![MsnList::ForwardList],
        status: Some(Presence { status: PresenceStatus::Online, msn_object: None, msn_object_string: None }),
        personal_message: None,
        display_picture: None,
        opening_conversation: false,
    }
}

fn repo() -> ContactRepository {
    let mut r = ContactRepository::new();
    r.add_contacts(&[contact("bob@x.com", "Bob"), contact("amy@x.com", "Amy")]);
    r
}

fn s(x: &str) -> String {
    x.to_string()
}

fn message(sender: &str, text: &str) -> Message {
    Message {
        sender: s(sender),
        receiver: None,
        is_nudge: false,
        text: s(text),
        bold: false,
        italic: false,
        underline: false,
        strikethrough: false,
        session_id: None,
        color: s("0"),
        is_history: false,
        errored: false,
    }
}

fn with_bob() -> Conversation {
    Conversation::new(s("me@x.com"), s("Me"), None, PresenceStatus::Online, s("s1"), &vec![s("bob@x.com")], &repo(), None)
}

fn plain(text: &str) -> PlainText {
    PlainText { bold: true, italic: false, underline: false, strikethrough: false, color: s("ff"), text: s(text) }
}

#[test]
fn history_query_by_participants() {
    assert!(history_query(&vec![s("a"), s("b")], &s("s1")) == HistoryQuery::BySession(s("s1")));
    assert!(history_query(&vec![s("a")], &s("s1")) == HistoryQuery::WithContact(s("a")));
    assert!(history_query(&vec![], &s("s1")) == HistoryQuery::Nothing);
}

#[test]
fn new_conversation_knows_its_participants() {
    let history = vec![message("bob@x.com", "newest"), message("me@x.com", "oldest")];
    let c = Conversation::new(s("me@x.com"), s("Me"), None, PresenceStatus::Online, s("s1"), &vec![s("bob@x.com"), s("who@x.com")], &repo(), Some(history));
    assert_eq!(c.get_participants().len(), 2);
    assert_eq!(c.name_of(&s("bob@x.com")), "Bob");
    assert_eq!(c.name_of(&s("who@x.com")), "who@x.com");
    let texts: Vec<&str> = c.messages.iter().map(|m| m.text.as_str()).collect();
    assert_eq!(texts, vec!["oldest", "newest"]);
    assert!(c.contains_switchboard(&s("s1")));
    assert!(!c.contains_switchboard(&s("s2")));
}

#[test]
fn title_header_and_receiver() {
    let c = with_bob();
    assert_eq!(c.get_title(), "Bob - Conversation");
    assert_eq!(c.header(), "To: Bob <bob@x.com>");
    assert_eq!(c.receiver(), Some(s("bob@x.com")));
    let group = Conversation::new(s("me@x.com"), s("Me"), None, PresenceStatus::Online, s("s1"), &vec![s("bob@x.com"), s("amy@x.com")], &repo(), None);
    assert_eq!(group.get_title(), "Amy, Bob - Conversation");
    assert_eq!(group.header(), "To: 2 participants");
    assert_eq!(group.receiver(), None);
    let empty = Conversation::new(s("me@x.com"), s("Me"), None, PresenceStatus::Online, s("s1"), &vec![], &repo(), None);
    assert_eq!(empty.get_title(), "Conversation");
    assert_eq!(empty.header(), "To: ");
}

#[test]
fn last_participant_is_kept_when_everyone_left() {
    let mut c = with_bob();
    c.on_participant_left(&s("s1"), &s("bob@x.com"));
    assert_eq!(c.get_participants().len(), 0);
    assert_eq!(c.get_last_participant().as_ref().unwrap().email, "bob@x.com");
    assert_eq!(c.get_title(), "Bob - Conversation");
    assert_eq!(c.header(), "To: Bob <bob@x.com>");
    assert_eq!(c.receiver(), Some(s("bob@x.com")));
    assert!(c.is_with(&s("bob@x.com")));
    assert!(!c.is_with(&s("amy@x.com")));
}

#[test]
fn leaving_another_session_changes_nothing() {
    let mut c = with_bob();
    c.on_participant_left(&s("other"), &s("bob@x.com"));
    assert_eq!(c.get_participants().len(), 1);
}

#[test]
fn messages_wait_for_the_contact_to_come_back() {
    let mut c = with_bob();
    c.on_participant_left(&s("s1"), &s("bob@x.com"));
    c.new_message = s("are you there?\nhello");
    match c.send_message() {
        Some(Dispatch::Buffered { invite }) => assert_eq!(invite, Some(s("bob@x.com"))),
        _ => panic!("expected to buffer"),
    }
    assert_eq!(c.new_message, "");
    assert_eq!(c.message_buffer.len(), 1);
    assert_eq!(c.message_buffer[0].text, "are you there?\r\nhello");
    let (load, buffered) = c.on_participant_joined(&s("s1"), &s("bob@x.com"), &repo());
    assert!(!load);
    assert_eq!(buffered.len(), 1);
    assert!(c.message_buffer.is_empty());
}

#[test]
fn first_participant_joining_loads_history() {
    let mut c = Conversation::new(s("me@x.com"), s("Me"), None, PresenceStatus::Online, s("s1"), &vec![], &repo(), None);
    let (load, buffered) = c.on_participant_joined(&s("s1"), &s("amy@x.com"), &repo());
    assert!(load);
    assert!(buffered.is_empty());
    let (load, _) = c.on_participant_joined(&s("nope"), &s("bob@x.com"), &repo());
    assert!(!load);
    assert_eq!(c.get_participants().len(), 1);
}

#[test]
fn sending_to_participants() {
    let mut c = with_bob();
    c.bold = true;
    c.new_message = s("hi");
    match c.send_message() {
        Some(Dispatch::Send(m)) => {
            assert_eq!(m.sender, "me@x.com");
            assert_eq!(m.receiver, Some(s("bob@x.com")));
            assert_eq!(m.text, "hi");
            assert!(m.bold && !m.is_nudge);
            let p = PlainText::of(&m);
            assert_eq!(p.text, "hi");
            assert!(p.bold);
            assert_eq!(p.color, "0");
        }
        _ => panic!("expected to send"),
    }
    c.new_message = s("   ");
    assert!(c.send_message().is_none());
    assert_eq!(c.new_message, "   ");
}

#[test]
fn sending_a_nudge() {
    let mut c = with_bob();
    c.bold = true;
    match c.send_nudge() {
        Dispatch::Send(m) => {
            assert!(m.is_nudge && !m.bold);
            assert_eq!(m.text, "You just sent a nudge!");
        }
        _ => panic!("expected to send"),
    }
}

#[test]
fn send_results_mark_undelivered_messages() {
    let mut c = with_bob();
    let stored = c.on_send_result(message("me@x.com", "ok"), true);
    assert_eq!(stored.unwrap().text, "ok");
    assert!(c.on_send_result(message("me@x.com", "lost"), false).is_none());
    assert!(c.messages[1].errored);
    assert_eq!(c.heading(&c.messages[1]), "The following message could not be delivered to all recipients:");
    assert_eq!(c.heading(&c.messages[0]), "Me said:");
}

#[test]
fn incoming_text_message_notifies_when_unfocused() {
    let mut c = with_bob();
    let inc = c.on_text_message(&s("s1"), s("bob@x.com"), plain("hello")).unwrap();
    assert_eq!(inc.message.text, "hello");
    assert_eq!(inc.message.receiver, Some(s("me@x.com")));
    assert!(inc.message.bold);
    assert!(inc.request_attention);
    let notice = inc.notice.unwrap();
    assert_eq!(notice.summary, "Bob said:");
    assert_eq!(notice.body, "hello");
    assert_eq!(c.heading(&c.messages[0]), "Bob said:");
    assert!(c.on_text_message(&s("other"), s("bob@x.com"), plain("x")).is_none());
}

#[test]
fn no_notice_when_focused_or_busy() {
    let mut c = with_bob();
    c.on_focus(true);
    let inc = c.on_text_message(&s("s1"), s("bob@x.com"), plain("hello")).unwrap();
    assert!(!inc.request_attention);
    assert!(inc.notice.is_none());
    let mut c = with_bob();
    c.on_user_status(PresenceStatus::Busy);
    let inc = c.on_text_message(&s("s1"), s("bob@x.com"), plain("hello")).unwrap();
    assert!(inc.request_attention);
    assert!(inc.notice.is_none());
}

#[test]
fn incoming_nudge() {
    let mut c = with_bob();
    let inc = c.on_nudge(&s("s1"), s("bob@x.com")).unwrap();
    assert!(inc.message.is_nudge);
    assert_eq!(inc.message.text, "Bob just sent you a nudge!");
    let notice = inc.notice.unwrap();
    assert_eq!(notice.summary, "New message");
    assert_eq!(notice.body, "Bob just sent you a nudge!");
    assert_eq!(c.heading(&c.messages[0]), "Bob just sent you a nudge!");
}

#[test]
fn typing_indicator() {
    let mut c = with_bob();
    assert!(c.on_typing(&s("s1"), &s("bob@x.com")));
    assert_eq!(c.participant_typing, Some(s("Bob")));
    assert!(!c.on_typing(&s("s1"), &s("bob@x.com")));
    c.clear_participant_typing();
    assert_eq!(c.typing_label(), "");
    assert!(!c.on_typing(&s("nope"), &s("bob@x.com")));
    assert!(c.on_new_message_changed());
    assert!(!c.on_new_message_changed());
    c.clear_user_typing();
    assert!(c.on_new_message_changed());
}

#[test]
fn presence_update_refreshes_participant() {
    let mut c = with_bob();
    let mut r = repo();
    r.update_contact(&contact("bob@x.com", "Robert"));
    c.on_presence_update(&s("bob@x.com"), &r);
    assert_eq!(c.name_of(&s("bob@x.com")), "Robert");
}

#[test]
fn display_picture_requests_on_focus() {
    let mut bob = contact("bob@x.com", "Bob");
    bob.status = Some(Presence {
        status: PresenceStatus::Online,
        msn_object: Some(MsnObject { object_type: 3, sha1d: s("h") }),
        msn_object_string: Some(s("<msnobj/>")),
    });
    let mut r = ContactRepository::new();
    r.add_contacts(&[bob]);
    let mut c = Conversation::new(s("me@x.com"), s("Me"), None, PresenceStatus::Online, s("s1"), &vec![s("bob@x.com")], &r, None);
    let requests = c.on_focus(true);
    assert_eq!(requests, vec![(s("bob@x.com"), s("<msnobj/>"))]);
    assert!(c.on_focus(true).is_empty());
    c.on_contact_display_picture(&s("bob@x.com"), vec![1, 2, 3]);
    let pic = c.get_participants().get("bob@x.com").unwrap().display_picture.unwrap();
    assert_eq!(pic.hash, "h");
    c.on_focus(false);
    assert!(c.on_focus(true).is_empty());
}

#[test]
fn pictures_shown() {
    let c = with_bob();
    match c.pictures_shown() {
        PictureLayout::Single(Some(p)) => assert_eq!(p.email, "bob@x.com"),
        _ => panic!("expected one picture"),
    }
    let group = Conversation::new(s("me@x.com"), s("Me"), None, PresenceStatus::Online, s("s1"), &vec![s("bob@x.com"), s("amy@x.com")], &repo(), None);
    match group.pictures_shown() {
        PictureLayout::Grid(v) => {
            let emails: Vec<&str> = v.iter().map(|c| c.email.as_str()).collect();
            assert_eq!(emails, vec!["amy@x.com", "bob@x.com"]);
        }
        _ => panic!("expected a grid"),
    }
    let empty = Conversation::new(s("me@x.com"), s("Me"), None, PresenceStatus::Online, s("s1"), &vec![], &repo(), None);
    assert!(matches!(empty.pictures_shown(), PictureLayout::Single(None)));
}

#[test]
fn switchboards_of_the_conversation() {
    let mut c = with_bob();
    assert!(c.takes_switchboard(&vec![s("bob@x.com")]));
    assert!(!c.takes_switchboard(&vec![s("amy@x.com")]));
    c.add_switchboard(s("s2"));
    assert_eq!(c.leave_switchboards(), &vec![s("s1"), s("s2")]);
    c.on_participant_left(&s("s1"), &s("bob@x.com"));
    assert!(c.takes_switchboard(&vec![]));
    assert!(c.takes_switchboard(&vec![s("bob@x.com")]));
    assert!(!c.takes_switchboard(&vec![s("amy@x.com")]));
}

#[test]
fn user_fields_follow_events() {
    let mut c = with_bob();
    c.on_display_name(s("New Me"));
    assert_eq!(c.author_of(&s("me@x.com")), "New Me");
    c.set_history(vec![message("bob@x.com", "b"), message("bob@x.com", "a")]);
    let texts: Vec<&str> = c.messages.iter().map(|m| m.text.as_str()).collect();
    assert_eq!(texts, vec!["a", "b"]);
}

#[test]
fn user_picture_and_status_follow_the_user() {
    let mut c = with_bob();
    c.on_user_display_picture(DisplayPicture { data: vec![4, 2], hash: s("mine") });
    assert_eq!(c.user_display_picture.as_ref().unwrap().hash, "mine");
    c.on_user_status(PresenceStatus::Away);
    assert_eq!(c.user_status, PresenceStatus::Away);
    assert_eq!(c.get_participants().len(), 1);
}

#[test]
fn last_participant_takes_picture_when_no_participant_announced_one() {
    let mut bob = contact("bob@x.com", "Bob");
    bob.status = Some(Presence {
        status: PresenceStatus::Online,
        msn_object: Some(MsnObject { object_type: 3, sha1d: s("hb") }),
        msn_object_string: None,
    });
    let mut r = ContactRepository::new();
    r.add_contacts(&[bob]);
    let mut c = Conversation::new(s("me@x.com"), s("Me"), None, PresenceStatus::Online, s("s1"), &vec![s("bob@x.com")], &r, None);
    c.on_participant_left(&s("s1"), &s("bob@x.com"));
    c.on_contact_display_picture(&s("bob@x.com"), vec![8]);
    let last = c.get_last_participant().as_ref().unwrap();
    assert_eq!(last.display_picture.as_ref().unwrap().hash, "hb");
    assert_eq!(last.display_picture.as_ref().unwrap().data, vec![8]);
}

#[test]
fn finding_the_open_conversation_with_a_contact() {
    let group = Conversation::new(s("me@x.com"), s("Me"), None, PresenceStatus::Online, s("s0"), &vec![s("bob@x.com"), s("amy@x.com")], &repo(), None);
    let mut left = with_bob();
    left.on_participant_left(&s("s1"), &s("bob@x.com"));
    let windows = vec![group, left];
    assert_eq!(conversation_with(&windows, &s("amy@x.com")), Some(0));
    assert_eq!(conversation_with(&windows, &s("bob@x.com")), Some(0));
    assert_eq!(conversation_with(&windows, &s("zed@x.com")), None);
    assert_eq!(conversation_for_switchboard(&windows, &vec![s("bob@x.com")]), Some(1));
    assert_eq!(conversation_for_switchboard(&windows, &vec![s("amy@x.com")]), None);
}

#[test]
fn without_a_switchboard_messages_wait_in_the_buffer() {
    let mut c = with_bob();
    c.session_ids.clear();
    c.new_message = s("later");
    match c.send_message() {
        Some(Dispatch::Buffered { invite }) => assert_eq!(invite, None),
        _ => panic!("expected to buffer"),
    }
    assert_eq!(c.new_message, "");
    assert!(matches!(c.send_nudge(), Dispatch::Buffered { invite: None }));
    assert_eq!(c.message_buffer.len(), 2);
    assert_eq!(c.message_buffer[0].text, "later");
    assert!(c.message_buffer[1].is_nudge);
}

#[test]
fn shown_messages_dim_history_and_undelivered_text() {
    let c = with_bob();
    let pattern = url_pattern();
    let mut m = message("bob@x.com", "see https://example.com now");
    let shown = c.shown(&m, &pattern);
    assert_eq!(shown.heading, "Bob said:");
    assert!(!shown.heading_dimmed && !shown.text_dimmed && !shown.separated);
    let links: Vec<bool> = shown.words.iter().map(|w| w.is_link).collect();
    assert_eq!(links, vec![false, true, false]);
    m.is_history = true;
    let shown = c.shown(&m, &pattern);
    assert!(shown.heading_dimmed && shown.text_dimmed);
    m.is_history = false;
    m.errored = true;
    let shown = c.shown(&m, &pattern);
    assert_eq!(shown.heading, "The following message could not be delivered to all recipients:");
    assert!(!shown.heading_dimmed && shown.text_dimmed && shown.separated);
    assert_eq!(shown.words.len(), 3);
    let mut n = message("bob@x.com", "Bob just sent you a nudge!");
    n.is_nudge = true;
    let shown = c.shown(&n, &pattern);
    assert_eq!(shown.heading, "Bob just sent you a nudge!");
    assert!(shown.words.is_empty() && shown.separated && !shown.text_dimmed);
}
