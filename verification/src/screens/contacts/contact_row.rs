use crate::models::contact::{has_list, Contact, ContactView, MsnList};
use crate::status::PresenceStatus;
use vstd::prelude::*;
use vstd::string::StringExecFns;

verus! {

/// The picture shown beside a contact without a display picture.
#[derive(Debug, Clone, Copy, PartialEq, Eq, Structural)]
pub enum Avatar {
    Online,
    Busy,
    Away,
    Blocked,
    Offline,
    OfflineBlocked,
}

/// The picture for a contact: by its presence, blocked contacts apart.
pub open spec fn spec_avatar(c: ContactView) -> Avatar {
    let blocked = c.lists.contains(MsnList::BlockList);
    match c.status {
        Some(p) => if blocked {
            Avatar::Blocked
        } else {
            match p.status {
                PresenceStatus::Busy | PresenceStatus::OnThePhone => Avatar::Busy,
                PresenceStatus::Away | PresenceStatus::Idle | PresenceStatus::BeRightBack
                | PresenceStatus::OutToLunch => Avatar::Away,
                _ => Avatar::Online,
            }
        },
        None => if blocked {
            Avatar::OfflineBlocked
        } else {
            Avatar::Offline
        },
    }
}

impl Avatar {
    pub open spec fn spec_alt_text(self) -> Seq<char> {
        match self {
            Avatar::Online => "Contact is online"@,
            Avatar::Busy => "Contact is busy"@,
            Avatar::Away => "Contact is away"@,
            Avatar::Blocked => "Contact is blocked"@,
            Avatar::Offline => "Contact is offline"@,
            Avatar::OfflineBlocked => "Contact is offline and blocked"@,
        }
    }

    /// The text that describes the picture.
    pub fn alt_text(&self) -> (s: String)
        ensures
            s@ == self.spec_alt_text(),
    {
        match self {
            Avatar::Online => String::from_str("Contact is online"),
            Avatar::Busy => String::from_str("Contact is busy"),
            Avatar::Away => String::from_str("Contact is away"),
            Avatar::Blocked => String::from_str("Contact is blocked"),
            Avatar::Offline => String::from_str("Contact is offline"),
            Avatar::OfflineBlocked => String::from_str("Contact is offline and blocked"),
        }
    }
}

/// The picture of a contact agrees with its presence: a blocked contact
/// shows as blocked (offline or not), an offline one as offline, and an
/// online one as busy exactly when it is busy or on the phone, as away
/// exactly when it is away, idle, out to lunch or about to be right back,
/// and as online otherwise.
pub proof fn lemma_avatar_follows_presence(c: ContactView)
    ensures
        c.lists.contains(MsnList::BlockList) ==> (spec_avatar(c) == Avatar::Blocked <==> c.status
            is Some) && (spec_avatar(c) == Avatar::OfflineBlocked <==> c.status is None),
        c.status is None ==> (spec_avatar(c) == Avatar::Offline || spec_avatar(c)
            == Avatar::OfflineBlocked),
        c.status is Some && !c.lists.contains(MsnList::BlockList) ==> {
            let p = c.status.unwrap();
            &&& (spec_avatar(c) == Avatar::Busy) <==> (p.status == PresenceStatus::Busy || p.status
                == PresenceStatus::OnThePhone)
            &&& (spec_avatar(c) == Avatar::Away) <==> (p.status == PresenceStatus::Away || p.status
                == PresenceStatus::Idle || p.status == PresenceStatus::OutToLunch || p.status
                == PresenceStatus::BeRightBack)
            &&& (spec_avatar(c) == Avatar::Online) <==> (p.status == PresenceStatus::Online
                || p.status == PresenceStatus::AppearOffline)
        },
{
}

/// The picture shown beside a contact.
pub fn avatar(c: &Contact) -> (a: Avatar)
    ensures
        a == spec_avatar(c@),
{
    let blocked = has_list(&c.lists, MsnList::BlockList);
    match &c.status {
        Some(p) => if blocked {
            Avatar::Blocked
        } else {
            match p.status {
                PresenceStatus::Busy | PresenceStatus::OnThePhone => Avatar::Busy,
                PresenceStatus::Away | PresenceStatus::Idle | PresenceStatus::BeRightBack
                | PresenceStatus::OutToLunch => Avatar::Away,
                _ => Avatar::Online,
            }
        },
        None => if blocked {
            Avatar::OfflineBlocked
        } else {
            Avatar::Offline
        },
    }
}

/// The text of a contact's row: its name, and its personal message when it
/// has one that is not empty.
pub open spec fn spec_row_label(c: ContactView) -> Seq<char> {
    match c.personal_message {
        Some(m) => if m.len() > 0 {
            c.display_name + " - "@ + m
        } else {
            c.display_name
        },
        None => c.display_name,
    }
}

/// A contact's row starts with its display name; a personal message that is
/// not empty follows after " - ", and no other text is added.
pub proof fn lemma_row_label_shows_name_and_message(c: ContactView)
    ensures
        spec_row_label(c).take(c.display_name.len() as int) == c.display_name,
        c.personal_message is Some && c.personal_message.unwrap().len() > 0 ==> spec_row_label(
            c,
        ).skip(c.display_name.len() as int) == " - "@ + c.personal_message.unwrap(),
        !(c.personal_message is Some && c.personal_message.unwrap().len() > 0) ==> spec_row_label(c)
            == c.display_name,
{
    assert(spec_row_label(c).take(c.display_name.len() as int) =~= c.display_name);
    if c.personal_message is Some && c.personal_message.unwrap().len() > 0 {
        let m = c.personal_message.unwrap();
        assert(spec_row_label(c).skip(c.display_name.len() as int) =~= " - "@ + m);
    }
}

pub fn row_label(c: &Contact) -> (s: String)
    ensures
        s@ == spec_row_label(c@),
{
    let mut s = c.display_name.clone();
    match &c.personal_message {
        Some(m) => if !m.as_str().is_empty() {
            s.append(" - ");
            s.append(m.as_str());
        },
        None => {},
    }
    s
}

/// The entries of a contact's context menu.
#[derive(Debug, Clone, Copy, PartialEq, Eq, Structural)]
pub enum MenuEntry {
    SendInstantMessage,
    Block,
    Unblock,
    DeleteContact,
}

impl MenuEntry {
    pub open spec fn spec_label(self) -> Seq<char> {
        match self {
            MenuEntry::SendInstantMessage => "Send an Instant Message"@,
            MenuEntry::Block => "Block"@,
            MenuEntry::Unblock => "Unblock"@,
            MenuEntry::DeleteContact => "Delete Contact"@,
        }
    }

    /// The text of the entry.
    pub fn label(&self) -> (s: String)
        ensures
            s@ == self.spec_label(),
    {
        match self {
            MenuEntry::SendInstantMessage => String::from_str("Send an Instant Message"),
            MenuEntry::Block => String::from_str("Block"),
            MenuEntry::Unblock => String::from_str("Unblock"),
            MenuEntry::DeleteContact => String::from_str("Delete Contact"),
        }
    }
}

/// The context menu of a contact: sending a message, blocking (unblocking
/// when the contact is blocked), and deleting.
pub open spec fn spec_context_menu(c: ContactView) -> Seq<MenuEntry> {
    seq![
        MenuEntry::SendInstantMessage,
        if c.lists.contains(MsnList::BlockList) {
            MenuEntry::Unblock
        } else {
            MenuEntry::Block
        },
        MenuEntry::DeleteContact,
    ]
}

pub fn context_menu(c: &Contact) -> (v: Vec<MenuEntry>)
    ensures
        v@ == spec_context_menu(c@),
{
    let middle = if has_list(&c.lists, MsnList::BlockList) {
        MenuEntry::Unblock
    } else {
        MenuEntry::Block
    };
    vec![MenuEntry::SendInstantMessage, middle, MenuEntry::DeleteContact]
}

/// What the user does to a contact's row.
#[derive(Debug, Clone, Copy, PartialEq, Eq, Structural)]
pub enum RowInput {
    Pressed,
    DoubleClicked,
    Menu(MenuEntry),
}

/// What a contact's row asks of the contact list.
pub enum RowAction {
    SelectContact(String),
    Conversation(String),
    BlockContact(String),
    UnblockContact(String),
    RemoveContact { contact: String, guid: String },
}

/// What an input on a contact's row asks for: a press selects the contact,
/// a double click or "Send an Instant Message" asks for a conversation, and
/// the other menu entries block, unblock or delete it (by its address, and
/// its identifier for deleting).
pub fn row_action(c: &Contact, input: RowInput) -> (a: RowAction)
    ensures
        input == RowInput::Pressed ==> (a matches RowAction::SelectContact(e) && e@ == c.email@),
        (input == RowInput::DoubleClicked || input == RowInput::Menu(MenuEntry::SendInstantMessage))
            ==> (a matches RowAction::Conversation(e) && e@ == c.email@),
        input == RowInput::Menu(MenuEntry::Block) ==> (a matches RowAction::BlockContact(e) && e@
            == c.email@),
        input == RowInput::Menu(MenuEntry::Unblock) ==> (a matches RowAction::UnblockContact(e)
            && e@ == c.email@),
        input == RowInput::Menu(MenuEntry::DeleteContact) ==> (a matches RowAction::RemoveContact {
            contact,
            guid,
        } && contact@ == c.email@ && guid@ == c.guid@),
{
    match input {
        RowInput::Pressed => RowAction::SelectContact(c.email.clone()),
        RowInput::DoubleClicked => RowAction::Conversation(c.email.clone()),
        RowInput::Menu(entry) => match entry {
            MenuEntry::SendInstantMessage => RowAction::Conversation(c.email.clone()),
            MenuEntry::Block => RowAction::BlockContact(c.email.clone()),
            MenuEntry::Unblock => RowAction::UnblockContact(c.email.clone()),
            MenuEntry::DeleteContact => RowAction::RemoveContact {
                contact: c.email.clone(),
                guid: c.guid.clone(),
            },
        },
    }
}

} // verus!
