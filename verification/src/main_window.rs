use crate::models::contact::{Contact, ContactView};
use crate::models::message::Message;
use crate::screens::contacts::status_selector::Status;
use crate::screens::contacts::Contacts;
use crate::screens::conversation::Conversation;
use crate::text::{decimal, push_decimal};
use vstd::prelude::*;
use vstd::string::StringExecFns;

verus! {

/// The events of the notification server that the main window decides on.
#[derive(Debug, Clone, Copy, PartialEq, Eq, Structural)]
pub enum ServerEvent {
    /// The connection to the server was lost.
    Disconnected,
    /// The user signed in on another computer.
    LoggedInAnotherDevice,
    /// The server will shut down for maintenance in this many minutes.
    MaintenanceScheduled(u32),
    /// Any other event, for the contact list and the conversations.
    Other,
}

/// What the main window does with a server event.
pub enum WindowCommand {
    /// Go back to the sign-in screen and show this text.
    BackToSignIn(String),
    /// Show this text.
    ShowDialog(String),
    /// Hand the event to the contact list and the conversations.
    Forward,
}

pub open spec fn lost_connection_text() -> Seq<char> {
    "Lost connection to the server"@
}

pub open spec fn signed_in_elsewhere_text() -> Seq<char> {
    "Disconnected as you have signed in on another computer"@
}

/// The notice of a maintenance shutdown.
pub open spec fn maintenance_text(minutes: nat) -> Seq<char> {
    "The server will shut down for maintenance in "@ + decimal(minutes) + " minutes"@
}

/// Decides on a server event: a lost or replaced connection ends the
/// session; a maintenance notice is shown; anything else goes on.
pub fn on_server_event(event: ServerEvent) -> (c: WindowCommand)
    ensures
        event == ServerEvent::Disconnected ==> (c matches WindowCommand::BackToSignIn(t) && t@
            == lost_connection_text()),
        event == ServerEvent::LoggedInAnotherDevice ==> (c matches WindowCommand::BackToSignIn(t)
            && t@ == signed_in_elsewhere_text()),
        event matches ServerEvent::MaintenanceScheduled(m) ==> (c matches WindowCommand::ShowDialog(
            t,
        ) && t@ == maintenance_text(m as nat)),
        event == ServerEvent::Other ==> c is Forward,
{
    match event {
        ServerEvent::Disconnected => WindowCommand::BackToSignIn(
            String::from_str("Lost connection to the server"),
        ),
        ServerEvent::LoggedInAnotherDevice => WindowCommand::BackToSignIn(
            String::from_str("Disconnected as you have signed in on another computer"),
        ),
        ServerEvent::MaintenanceScheduled(minutes) => {
            let mut t = String::from_str("The server will shut down for maintenance in ");
            push_decimal(&mut t, minutes as u64);
            t.append(" minutes");
            WindowCommand::ShowDialog(t)
        },
        ServerEvent::Other => WindowCommand::Forward,
    }
}

/// The text shown when the display name could not be set.
pub fn display_name_error(error: &str) -> (t: String)
    ensures
        t@ == "Error setting display name: "@ + error@,
{
    String::from_str("Error setting display name: ").concat(error)
}

/// The conversation window already open with a contact, if any: the first
/// one whose participants include the contact, or whose participants all
/// left and the contact was the last of them.
pub fn conversation_with(conversations: &Vec<Conversation>, email: &String) -> (r: Option<usize>)
    requires
        forall|i: int| 0 <= i < conversations@.len() ==> (#[trigger] conversations@[i]).wf(),
    ensures
        r matches Some(i) ==> i < conversations@.len() && conversations@[i as int].spec_is_with(
            email@,
        ) && forall|j: int| 0 <= j < i ==> !(#[trigger] conversations@[j]).spec_is_with(email@),
        r is None ==> forall|j: int|
            0 <= j < conversations@.len() ==> !(#[trigger] conversations@[j]).spec_is_with(email@),
{
    let mut i: usize = 0;
    while i < conversations.len()
        invariant
            i <= conversations@.len(),
            forall|k: int| 0 <= k < conversations@.len() ==> (#[trigger] conversations@[k]).wf(),
            forall|j: int| 0 <= j < i ==> !(#[trigger] conversations@[j]).spec_is_with(email@),
        decreases conversations.len() - i,
    {
        if conversations[i].is_with(email) {
            return Some(i);
        }
        i = i + 1;
    }
    None
}

/// The conversation window that takes over a switchboard session no window
/// holds, if any: the first one with one participant, all of the
/// switchboard's participants among its own, or with no participant left
/// and every participant of the switchboard its last contact.
pub fn conversation_for_switchboard(
    conversations: &Vec<Conversation>,
    switchboard_participants: &Vec<String>,
) -> (r: Option<usize>)
    requires
        forall|i: int| 0 <= i < conversations@.len() ==> (#[trigger] conversations@[i]).wf(),
    ensures
        r matches Some(i) ==> i < conversations@.len() && conversations@[i as int].spec_takes_switchboard(
            switchboard_participants@.map_values(|p: String| p@),
        ) && forall|j: int|
            0 <= j < i ==> !(#[trigger] conversations@[j]).spec_takes_switchboard(
                switchboard_participants@.map_values(|p: String| p@),
            ),
        r is None ==> forall|j: int|
            0 <= j < conversations@.len() ==> !(#[trigger] conversations@[j]).spec_takes_switchboard(
                switchboard_participants@.map_values(|p: String| p@),
            ),
{
    let mut i: usize = 0;
    while i < conversations.len()
        invariant
            i <= conversations@.len(),
            forall|k: int| 0 <= k < conversations@.len() ==> (#[trigger] conversations@[k]).wf(),
            forall|j: int|
                0 <= j < i ==> !(#[trigger] conversations@[j]).spec_takes_switchboard(
                    switchboard_participants@.map_values(|p: String| p@),
                ),
        decreases conversations.len() - i,
    {
        if conversations[i].takes_switchboard(switchboard_participants) {
            return Some(i);
        }
        i = i + 1;
    }
    None
}

/// A contact whose conversation window is open: no conversation with it is
/// being opened any more.
pub open spec fn focused(c: ContactView) -> ContactView {
    ContactView { opening_conversation: false, ..c }
}

/// A table of contacts with those whose address is in `keys` focused.
pub open spec fn focus_all(m: Map<Seq<char>, ContactView>, keys: Set<Seq<char>>) -> Map<
    Seq<char>,
    ContactView,
> {
    Map::new(
        |k: Seq<char>| m.contains_key(k),
        |k: Seq<char>|
            if keys.contains(k) {
                focused(m[k])
            } else {
                m[k]
            },
    )
}

/// Telling contacts their window is open keeps the same contacts, leaves
/// those not named untouched, and changes nothing of those named but their
/// conversation flag, which is cleared.
pub proof fn lemma_focus_all(m: Map<Seq<char>, ContactView>, keys: Set<Seq<char>>, k: Seq<char>)
    ensures
        focus_all(m, keys).dom() == m.dom(),
        m.contains_key(k) && !keys.contains(k) ==> focus_all(m, keys)[k] == m[k],
        m.contains_key(k) && keys.contains(k) ==> !focus_all(m, keys)[k].opening_conversation && (
        ContactView { opening_conversation: m[k].opening_conversation, ..focus_all(m, keys)[k] })
            == m[k],
{
    assert(focus_all(m, keys).dom() =~= m.dom());
}

/// The notice of a maintenance shutdown gives the minutes left in decimal.
pub proof fn lemma_maintenance_text(minutes: nat)
    ensures
        maintenance_text(minutes).take(45) == "The server will shut down for maintenance in "@,
        maintenance_text(minutes).subrange(45, 45 + decimal(minutes).len() as int) == decimal(
            minutes,
        ),
        maintenance_text(minutes).skip(45 + decimal(minutes).len() as int) == " minutes"@,
{
    reveal_strlit("The server will shut down for maintenance in ");
    let t = maintenance_text(minutes);
    assert(t.take(45) =~= "The server will shut down for maintenance in "@);
    assert(t.subrange(45, 45 + decimal(minutes).len() as int) =~= decimal(minutes));
    assert(t.skip(45 + decimal(minutes).len() as int) =~= " minutes"@);
}

/// What asking for a conversation with a contact comes to.
pub enum ConversationRequest {
    /// No conversation opens (the contact is offline, one is already being
    /// opened, or the user appears offline).
    Nothing,
    /// The window at this index is already with the contact: it is brought
    /// to the front.
    Focus(usize),
    /// A new window is to be made with this contact.
    Create(Contact),
}

/// The main window of a signed-in user: the contact list, the conversation
/// windows, and whether the personal settings window is open.
pub struct MainWindow {
    pub contacts: Contacts,
    pub conversations: Vec<Conversation>,
    pub personal_settings_open: bool,
}

impl MainWindow {
    pub open spec fn wf(self) -> bool {
        &&& self.contacts.wf()
        &&& forall|i: int| 0 <= i < self.conversations@.len() ==> (#[trigger] self.conversations@[i]).wf()
    }

    /// `after` has the same contact list as `self` but for its two tables.
    pub open spec fn tables_only(self, after: MainWindow) -> bool {
        &&& after.contacts == (Contacts {
            online_contacts: after.contacts.online_contacts,
            offline_contacts: after.contacts.offline_contacts,
            contact_repository: after.contacts.contact_repository,
            ..self.contacts
        })
        &&& after.contacts.repository() == self.contacts.repository()
        &&& after.personal_settings_open == self.personal_settings_open
    }

    /// The window right after signing in: the contact list alone.
    pub fn new(contacts: Contacts) -> (w: MainWindow)
        requires
            contacts.wf(),
        ensures
            w.wf(),
            w.contacts == contacts,
            w.conversations@.len() == 0,
            !w.personal_settings_open,
    {
        MainWindow { contacts, conversations: Vec::new(), personal_settings_open: false }
    }

    /// The user asked for a conversation with a contact (see
    /// [`Contacts::open_conversation`]). When a window is already with the
    /// contact it is brought to the front and the contact is told its window
    /// is open; otherwise a new window is to be made.
    pub fn request_conversation(&mut self, email: &String) -> (r: ConversationRequest)
        requires
            old(self).wf(),
        ensures
            final(self).wf(),
            final(self).conversations == old(self).conversations,
            old(self).tables_only(*final(self)),
            r is Nothing <==> !(old(self).contacts.spec_find(email@) matches Some(c) && c.status is Some
                && !c.opening_conversation && old(self).contacts.selected_status
                != Status::AppearOffline),
            r is Nothing ==> final(self).contacts.online() == old(self).contacts.online()
                && final(self).contacts.offline() == old(self).contacts.offline(),
            r matches ConversationRequest::Focus(i) ==> {
                &&& i < old(self).conversations@.len()
                &&& old(self).conversations@[i as int].spec_is_with(email@)
                &&& forall|j: int| 0 <= j < i ==> !(#[trigger] old(self).conversations@[j]).spec_is_with(email@)
                &&& old(self).contacts.replaced(
                    email@,
                    focused(old(self).contacts.spec_find(email@).unwrap()),
                    final(self).contacts,
                )
            },
            r matches ConversationRequest::Create(c) ==> {
                &&& forall|j: int|
                    0 <= j < old(self).conversations@.len() ==> !(#[trigger] old(self).conversations@[j]).spec_is_with(email@)
                &&& c@ == (ContactView {
                    opening_conversation: true,
                    ..old(self).contacts.spec_find(email@).unwrap()
                })
                &&& old(self).contacts.replaced(email@, c@, final(self).contacts)
            },
    {
        let ghost a = self.contacts;
        match self.contacts.open_conversation(email) {
            None => ConversationRequest::Nothing,
            Some(c) => match conversation_with(&self.conversations, email) {
                Some(i) => {
                    self.contacts.on_chat_window_focused(email);
                    proof {
                        let n = focused(a.spec_find(email@).unwrap());
                        if a.online().contains_key(email@) {
                            assert(self.contacts.online() =~= a.online().insert(email@, n));
                        } else {
                            assert(self.contacts.offline() =~= a.offline().insert(email@, n));
                        }
                    }
                    ConversationRequest::Focus(i)
                },
                None => ConversationRequest::Create(c),
            },
        }
    }

    /// A conversation window opened: it joins the others, and every contact
    /// in it is told its window is open.
    pub fn add_conversation(&mut self, conversation: Conversation)
        requires
            old(self).wf(),
            conversation.wf(),
        ensures
            final(self).wf(),
            final(self).conversations@ == old(self).conversations@.push(conversation),
            old(self).tables_only(*final(self)),
            final(self).contacts.online() == focus_all(
                old(self).contacts.online(),
                conversation.spec_participants().dom(),
            ),
            final(self).contacts.offline() == focus_all(
                old(self).contacts.offline(),
                conversation.spec_participants().dom().difference(old(self).contacts.online().dom()),
            ),
    {
        let ghost o = *self;
        let ghost on = self.contacts.online();
        let ghost off = self.contacts.offline();
        let ps = conversation.participants.contacts();
        proof {
            conversation.participants.lemma_valid();
        }
        let ghost s = conversation.participants.ordered();
        let mut i: usize = 0;
        while i < ps.len()
            invariant
                i <= ps@.len(),
                s == ps@.map_values(|c: Contact| c@),
                self.wf(),
                self.conversations == o.conversations,
                o.tables_only(*self),
                on == o.contacts.online(),
                off == o.contacts.offline(),
                self.contacts.online() == focus_all(
                    on,
                    Set::new(|k: Seq<char>| exists|j: int| 0 <= j < i && s[j].email == k),
                ),
                self.contacts.offline() == focus_all(
                    off,
                    Set::new(|k: Seq<char>| exists|j: int| 0 <= j < i && s[j].email == k).difference(
                        on.dom(),
                    ),
                ),
            decreases ps.len() - i,
        {
            let ghost before = Set::new(
                |k: Seq<char>| exists|j: int| 0 <= j < i && s[j].email == k,
            );
            let ghost after = Set::new(
                |k: Seq<char>| exists|j: int| 0 <= j < i + 1 && s[j].email == k,
            );
            let ghost e = ps@[i as int].email@;
            assert(s[i as int].email == e);
            assert(after =~= before.insert(e));
            self.contacts.on_chat_window_focused(&ps[i].email);
            proof {
                assert(self.contacts.online() =~= focus_all(on, after));
                assert(self.contacts.offline() =~= focus_all(off, after.difference(on.dom())));
            }
            i = i + 1;
        }
        proof {
            let fin = Set::new(|k: Seq<char>| exists|j: int| 0 <= j < s.len() && s[j].email == k);
            assert forall|k: Seq<char>| fin.contains(k) <==> conversation.spec_participants().dom().contains(k) by {
                if fin.contains(k) {
                    let j = choose|j: int| 0 <= j < s.len() && s[j].email == k;
                    assert(conversation.participants@.contains_key(s[j].email));
                }
                if conversation.spec_participants().dom().contains(k) {
                    let j = crate::contact_table::email_index(s, k);
                    assert(s[j].email == k);
                }
            }
            assert(fin =~= conversation.spec_participants().dom());
        }
        self.conversations.push(conversation);
    }

    /// A participant joined a session: the conversation window at `i` takes
    /// it (see [`Conversation::joined`]), and when the session is that
    /// window's, the contact is told its window is open.
    pub fn on_participant_joined(&mut self, i: usize, session_id: &String, email: &String) -> (r: (
        bool,
        Vec<Message>,
    ))
        requires
            old(self).wf(),
            i < old(self).conversations@.len(),
        ensures
            final(self).wf(),
            final(self).conversations@.len() == old(self).conversations@.len(),
            forall|j: int|
                0 <= j < old(self).conversations@.len() && j != i ==> #[trigger] final(self).conversations@[j]
                    == old(self).conversations@[j],
            old(self).conversations@[i as int].joined(
                final(self).conversations@[i as int],
                session_id@,
                email@,
                old(self).contacts.repository(),
                r.0,
                r.1@.map_values(|m: Message| m@),
            ),
            old(self).tables_only(*final(self)),
            old(self).conversations@[i as int].owns_session(session_id@) && old(self).contacts.spec_find(
                email@,
            ) is Some ==> old(self).contacts.replaced(
                email@,
                focused(old(self).contacts.spec_find(email@).unwrap()),
                final(self).contacts,
            ),
            !(old(self).conversations@[i as int].owns_session(session_id@) && old(self).contacts.spec_find(
                email@,
            ) is Some) ==> final(self).contacts.online() == old(self).contacts.online()
                && final(self).contacts.offline() == old(self).contacts.offline(),
    {
        let mut c = self.conversations.remove(i);
        let owned = c.contains_switchboard(session_id);
        let r = c.on_participant_joined(session_id, email, &self.contacts.contact_repository);
        self.conversations.insert(i, c);
        if owned {
            self.contacts.on_chat_window_focused(email);
        }
        r
    }

    /// The conversation window at `i` closed: it alone goes, and the result
    /// is its sessions, to leave.
    pub fn close_conversation(&mut self, i: usize) -> (sessions: Vec<String>)
        requires
            old(self).wf(),
            i < old(self).conversations@.len(),
        ensures
            final(self).wf(),
            final(self).conversations@ == old(self).conversations@.remove(i as int),
            sessions@ == old(self).conversations@[i as int].session_ids@,
            final(self).contacts == old(self).contacts,
            final(self).personal_settings_open == old(self).personal_settings_open,
    {
        let c = self.conversations.remove(i);
        c.session_ids
    }

    /// The personal settings window was asked for: it is made when it is not
    /// open (the result), and brought to the front otherwise.
    pub fn open_personal_settings(&mut self) -> (create: bool)
        ensures
            create == !old(self).personal_settings_open,
            final(self).personal_settings_open,
            final(self).contacts == old(self).contacts,
            final(self).conversations == old(self).conversations,
    {
        let create = !self.personal_settings_open;
        self.personal_settings_open = true;
        create
    }

    /// The personal settings window closed.
    pub fn close_personal_settings(&mut self)
        ensures
            !final(self).personal_settings_open,
            final(self).contacts == old(self).contacts,
            final(self).conversations == old(self).conversations,
    {
        self.personal_settings_open = false;
    }
}

} // verus!
