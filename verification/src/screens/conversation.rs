use crate::contact_repository::ContactRepository;
use crate::contact_table::ContactTable;
use crate::models::common::opt_view;
use crate::models::contact::{Contact, ContactView};
use crate::models::display_picture::{DisplayPicture, DisplayPictureView};
use crate::models::message::{Message, MessageView};
use crate::links::{message_words, spec_is_link, Pattern, Word};
use crate::status::PresenceStatus;
use crate::text::split_spaces;
use crate::text::{blank, crlf_line_breaks, is_blank, push_decimal, same_text, with_crlf, decimal};
use vstd::prelude::*;
use vstd::string::StringExecFns;

verus! {

/// How many messages of the history a conversation shows when it opens.
pub const INITIAL_HISTORY_LIMIT: u32 = 3;

/// The formatting and text of a message as the protocol carries it.
pub struct PlainText {
    pub bold: bool,
    pub italic: bool,
    pub underline: bool,
    pub strikethrough: bool,
    pub color: String,
    pub text: String,
}

impl PlainText {
    /// The formatting and text of a message, as a switchboard sends it.
    pub fn of(m: &Message) -> (p: PlainText)
        ensures
            p.bold == m.bold,
            p.italic == m.italic,
            p.underline == m.underline,
            p.strikethrough == m.strikethrough,
            p.color@ == m.color@,
            p.text@ == m.text@,
    {
        PlainText {
            bold: m.bold,
            italic: m.italic,
            underline: m.underline,
            strikethrough: m.strikethrough,
            color: m.color.clone(),
            text: m.text.clone(),
        }
    }
}

/// What a conversation loads from the message history when it opens.
#[derive(PartialEq, Eq)]
pub enum HistoryQuery {
    /// The messages of this switchboard session (several participants).
    BySession(String),
    /// The messages exchanged with this contact (one participant).
    WithContact(String),
    /// Nothing (no participant).
    Nothing,
}

/// A notification to show: its summary and its body.
pub struct Notice {
    pub summary: String,
    pub body: String,
}

/// What an incoming message asks of the window: a message to store in the
/// history, a notification to show, and whether to ask for the user's
/// attention.
pub struct Incoming {
    pub message: Message,
    pub notice: Option<Notice>,
    pub request_attention: bool,
}

/// How a message the user wrote leaves.
pub enum Dispatch {
    /// Send it now through the conversation's switchboard.
    Send(Message),
    /// It waits in the buffer; the contact who left is invited back, if
    /// there is one.
    Buffered { invite: Option<String> },
}

/// The display pictures a conversation shows.
pub enum PictureLayout {
    /// One large picture: that of this contact, or the default one.
    Single(Option<Contact>),
    /// A small picture and the name of each participant, in the order of
    /// their addresses.
    Grid(Vec<Contact>),
}

/// How a message is shown in the conversation.
pub struct ShownMessage {
    /// The line above the text: who said it, that it could not be
    /// delivered, or, for a nudge, the nudge's own text.
    pub heading: String,
    /// The words of the text, each marked as a link or not; empty for a
    /// nudge, whose text is its heading.
    pub words: Vec<Word>,
    /// Whether the heading is dimmed: for messages of the history.
    pub heading_dimmed: bool,
    /// Whether the words are dimmed: for messages of the history and for
    /// messages that could not be delivered.
    pub text_dimmed: bool,
    /// Whether separators frame the message: for undelivered messages and
    /// nudges.
    pub separated: bool,
}

/// Whether every text of a sequence is the given one.
pub open spec fn all_equal(s: Seq<Seq<char>>, t: Seq<char>) -> bool {
    forall|i: int| 0 <= i < s.len() ==> #[trigger] s[i] == t
}

/// The names of participants joined by ", ".
pub open spec fn joined_names(s: Seq<ContactView>) -> Seq<char>
    decreases s.len(),
{
    if s.len() == 0 {
        Seq::empty()
    } else if s.len() == 1 {
        s[0].display_name
    } else {
        joined_names(s.drop_last()) + ", "@ + s.last().display_name
    }
}

/// The text of a nudge from someone.
pub open spec fn nudge_text(name: Seq<char>) -> Seq<char> {
    name + " just sent you a nudge!"@
}

/// The summary of a notification for a text message from someone.
pub open spec fn said_text(name: Seq<char>) -> Seq<char> {
    name + " said:"@
}

/// A conversation window: its participants, the contact who was last in it
/// once all left, and its messages.
pub struct Conversation {
    pub user_email: String,
    pub user_display_name: String,
    pub session_ids: Vec<String>,
    pub participants: ContactTable,
    pub last_participant: Option<Contact>,
    pub messages: Vec<Message>,
    pub message_buffer: Vec<Message>,
    pub new_message: String,
    pub user_display_picture: Option<DisplayPicture>,
    pub user_status: PresenceStatus,
    pub participant_typing: Option<String>,
    pub user_typing: bool,
    pub bold: bool,
    pub italic: bool,
    pub underline: bool,
    pub strikethrough: bool,
    pub focused: bool,
    pub invite_open: bool,
}

/// The history to load for a switchboard's participants.
pub open spec fn spec_history_query(participants: Seq<Seq<char>>, session_id: Seq<char>) -> Option<
    (bool, Seq<char>),
> {
    if participants.len() > 1 {
        Some((true, session_id))
    } else if participants.len() == 1 {
        Some((false, participants[0]))
    } else {
        None
    }
}

/// A contact as the repository knows it, or known only by its address.
pub open spec fn known_or_unknown(repo: Map<Seq<char>, ContactView>, email: Seq<char>) -> ContactView {
    if repo.contains_key(email) {
        repo[email]
    } else {
        Contact::spec_unknown(email)
    }
}

/// Reverses a sequence of messages (the history arrives newest first).
fn reversed(v: Vec<Message>) -> (r: Vec<Message>)
    ensures
        r@.map_values(|m: Message| m@) == v@.map_values(|m: Message| m@).reverse(),
{
    let mut v = v;
    let mut r: Vec<Message> = Vec::new();
    let ghost orig = v@.map_values(|m: Message| m@);
    let ghost n = v.len();
    while v.len() > 0
        invariant
            orig.len() == n,
            v.len() + r.len() == n,
            v@.map_values(|m: Message| m@) == orig.take(v.len() as int),
            r@.map_values(|m: Message| m@) == orig.reverse().take(r.len() as int),
        decreases v.len(),
    {
        let ghost before = r@.map_values(|m: Message| m@);
        let ghost k = v.len();
        let ghost vv = v@;
        let m = v.pop().unwrap();
        proof {
            assert(m == vv[k - 1]);
            assert(vv.map_values(|m: Message| m@)[k - 1] == orig.take(k as int)[k - 1]);
            assert(m@ == orig[k - 1]);
            assert(orig.reverse()[(n - k) as int] == orig[k - 1]);
        }
        r.push(m);
        proof {
            assert(r@.map_values(|m: Message| m@) =~= orig.reverse().take(r.len() as int));
            assert(v@.map_values(|m: Message| m@) =~= orig.take(v.len() as int));
        }
    }
    assert(orig.reverse().take(n as int) =~= orig.reverse());
    r
}

/// Which history a conversation opening on a switchboard loads: the
/// session's when it has several participants, the one exchanged with the
/// participant when it has one.
pub fn history_query(participants: &Vec<String>, session_id: &String) -> (q: HistoryQuery)
    ensures
        spec_history_query(participants@.map_values(|p: String| p@), session_id@) matches Some(
            (by_session, key),
        ) ==> (if by_session {
            q matches HistoryQuery::BySession(s) && s@ == key
        } else {
            q matches HistoryQuery::WithContact(e) && e@ == key
        }),
        spec_history_query(participants@.map_values(|p: String| p@), session_id@) is None ==> q
            == HistoryQuery::Nothing,
{
    if participants.len() > 1 {
        HistoryQuery::BySession(session_id.clone())
    } else if participants.len() == 1 {
        HistoryQuery::WithContact(participants[0].clone())
    } else {
        HistoryQuery::Nothing
    }
}

/// The hash of the object a contact's presence announced, if any.
pub open spec fn object_hash(c: ContactView) -> Option<Seq<char>> {
    match c.status {
        Some(p) => match p.msn_object {
            Some(o) => Some(o.sha1d),
            None => None,
        },
        None => None,
    }
}

/// A contact with a display picture received for the object it announced.
pub open spec fn with_picture(c: ContactView, data: Seq<u8>) -> ContactView {
    ContactView {
        display_picture: Some(DisplayPictureView { data: data, hash: object_hash(c).unwrap() }),
        ..c
    }
}

/// The hash of the object a contact's presence announced, if any.
fn announced_hash(c: &Contact) -> (r: Option<String>)
    ensures
        opt_view(r) == object_hash(c@),
{
    match &c.status {
        Some(p) => match &p.msn_object {
            Some(o) => Some(o.sha1d.clone()),
            None => None,
        },
        None => None,
    }
}

impl Conversation {
    pub open spec fn wf(self) -> bool {
        self.participants.wf()
    }

    /// The participants by address.
    pub open spec fn spec_participants(self) -> Map<Seq<char>, ContactView> {
        self.participants@
    }

    pub open spec fn spec_last(self) -> Option<ContactView> {
        opt_view(self.last_participant)
    }

    pub open spec fn spec_messages(self) -> Seq<MessageView> {
        self.messages@.map_values(|m: Message| m@)
    }

    pub open spec fn spec_buffer(self) -> Seq<MessageView> {
        self.message_buffer@.map_values(|m: Message| m@)
    }

    /// The switchboard sessions of the conversation.
    pub open spec fn sessions(self) -> Seq<Seq<char>> {
        self.session_ids@.map_values(|s: String| s@)
    }

    pub open spec fn owns_session(self, session_id: Seq<char>) -> bool {
        self.sessions().contains(session_id)
    }

    /// The name shown for an address: the participant's display name, else
    /// that of the contact last in the conversation, else the address.
    pub open spec fn spec_name_of(self, email: Seq<char>) -> Seq<char> {
        if self.spec_participants().contains_key(email) {
            self.spec_participants()[email].display_name
        } else if self.spec_last() matches Some(c) && c.email == email {
            self.spec_last().unwrap().display_name
        } else {
            email
        }
    }

    /// The window's title: the participants' names, else the name of the
    /// contact last in it.
    pub open spec fn spec_title(self) -> Seq<char> {
        if self.participants.ordered().len() > 0 {
            joined_names(self.participants.ordered()) + " - Conversation"@
        } else if self.spec_last() is Some {
            self.spec_last().unwrap().display_name + " - Conversation"@
        } else {
            "Conversation"@
        }
    }

    /// Who a message the user writes is addressed to: the one participant,
    /// else the contact last in the conversation; with several participants,
    /// nobody in particular.
    pub open spec fn spec_receiver(self) -> Option<Seq<char>> {
        if self.participants.ordered().len() == 1 {
            Some(self.participants.ordered()[0].email)
        } else if self.participants.ordered().len() == 0 {
            match self.spec_last() {
                Some(c) => Some(c.email),
                None => None,
            }
        } else {
            None
        }
    }

    /// A conversation that opens on a switchboard session: its participants
    /// as the repository knows them, and the history loaded for them
    /// (handed over newest first, shown oldest first).
    pub fn new(
        user_email: String,
        user_display_name: String,
        user_display_picture: Option<DisplayPicture>,
        user_status: PresenceStatus,
        session_id: String,
        switchboard_participants: &Vec<String>,
        contact_repository: &ContactRepository,
        history: Option<Vec<Message>>,
    ) -> (c: Conversation)
        requires
            contact_repository.wf(),
        ensures
            c.wf(),
            c.user_email@ == user_email@,
            c.user_display_name@ == user_display_name@,
            c.user_status == user_status,
            c.session_ids@.map_values(|s: String| s@) == seq![session_id@],
            forall|k: Seq<char>|
                #[trigger] c.spec_participants().contains_key(k) <==> switchboard_participants@.map_values(
                    |p: String| p@,
                ).contains(k),
            forall|k: Seq<char>| #[trigger]
                c.spec_participants().contains_key(k) ==> c.spec_participants()[k]
                    == known_or_unknown(contact_repository@, k),
            c.spec_last() is None,
            history matches Some(h) ==> c.spec_messages() == h@.map_values(
                |m: Message| m@,
            ).reverse(),
            history is None ==> c.spec_messages().len() == 0,
            c.spec_buffer().len() == 0,
            c.participant_typing is None,
            !c.user_typing,
            !c.focused,
    {
        let mut participants = ContactTable::new();
        let ghost ps = switchboard_participants@.map_values(|p: String| p@);
        let mut i: usize = 0;
        while i < switchboard_participants.len()
            invariant
                i <= switchboard_participants.len(),
                ps == switchboard_participants@.map_values(|p: String| p@),
                participants.wf(),
                contact_repository.wf(),
                forall|k: Seq<char>|
                    participants@.contains_key(k) <==> #[trigger] ps.take(i as int).contains(k),
                forall|k: Seq<char>| #[trigger]
                    participants@.contains_key(k) ==> participants@[k] == known_or_unknown(
                        contact_repository@,
                        k,
                    ),
            decreases switchboard_participants.len() - i,
        {
            let email = &switchboard_participants[i];
            let contact = match contact_repository.get_contact(email) {
                Some(c) => c,
                None => Contact::unknown(email),
            };
            proof {
                contact_repository.lemma_keyed();
                assert(contact.email@ == email@);
                assert(contact@ == known_or_unknown(contact_repository@, email@));
                assert(ps[i as int] == email@);
                assert(ps.take(i + 1) =~= ps.take(i as int).push(email@));
            }
            participants.insert(contact);
            proof {
                assert forall|k: Seq<char>|
                    participants@.contains_key(k) <==> #[trigger] ps.take(i + 1).contains(k) by {
                    if ps.take(i + 1).contains(k) && k != email@ {
                        let j = choose|j: int| 0 <= j < i + 1 && #[trigger] ps.take(i + 1)[j] == k;
                        assert(j < i);
                        assert(ps.take(i as int)[j] == k);
                    }
                    if ps.take(i as int).contains(k) {
                        let j = choose|j: int| 0 <= j < i && #[trigger] ps.take(i as int)[j] == k;
                        assert(ps.take(i + 1)[j] == k);
                    }
                    if k == email@ {
                        assert(ps.take(i + 1)[i as int] == k);
                    }
                }
            }
            i = i + 1;
        }
        assert(ps.take(switchboard_participants.len() as int) =~= ps);
        let messages = match history {
            Some(h) => reversed(h),
            None => Vec::new(),
        };
        let mut session_ids = Vec::new();
        session_ids.push(session_id);
        assert(session_ids@.map_values(|s: String| s@) =~= seq![session_ids@[0]@]);
        Conversation {
            user_email,
            user_display_name,
            session_ids,
            participants,
            last_participant: None,
            messages,
            message_buffer: Vec::new(),
            new_message: String::new(),
            user_display_picture,
            user_status,
            participant_typing: None,
            user_typing: false,
            bold: false,
            italic: false,
            underline: false,
            strikethrough: false,
            focused: false,
            invite_open: false,
        }
    }

    /// The header above the messages.
    pub open spec fn spec_header(self) -> Seq<char> {
        let ps = self.participants.ordered();
        if ps.len() == 1 {
            "To: "@ + ps[0].display_name + " <"@ + ps[0].email + ">"@
        } else if ps.len() > 1 {
            "To: "@ + decimal(ps.len()) + " participants"@
        } else if self.spec_last() is Some {
            "To: "@ + self.spec_last().unwrap().display_name + " <"@ + self.spec_last().unwrap().email
                + ">"@
        } else {
            "To: "@
        }
    }

    /// The name shown above a message: as for [`Self::spec_name_of`], and the
    /// user's own display name for the user's messages.
    pub open spec fn spec_author(self, email: Seq<char>) -> Seq<char> {
        if self.spec_participants().contains_key(email) {
            self.spec_participants()[email].display_name
        } else if self.spec_last() matches Some(c) && c.email == email {
            self.spec_last().unwrap().display_name
        } else if email == self.user_email@ {
            self.user_display_name@
        } else {
            email
        }
    }

    /// The line shown above a message: who said it, or that it could not be
    /// delivered; a nudge shows its own text.
    pub open spec fn spec_heading(self, m: MessageView) -> Seq<char> {
        if !m.is_nudge && !m.errored {
            self.spec_author(m.sender) + " said:"@
        } else if m.errored {
            "The following message could not be delivered to all recipients:"@
        } else {
            m.text
        }
    }

    /// The line that says someone is writing.
    pub open spec fn spec_typing_label(self) -> Seq<char> {
        match self.participant_typing {
            Some(t) => self.spec_name_of(t@) + " is writing a message..."@,
            None => Seq::empty(),
        }
    }

    pub fn name_of(&self, email: &String) -> (r: String)
        requires
            self.wf(),
        ensures
            r@ == self.spec_name_of(email@),
    {
        match self.participants.get_ref(email.as_str()) {
            Some(c) => c.display_name.clone(),
            None => match &self.last_participant {
                Some(c) => if same_text(c.email.as_str(), email.as_str()) {
                    c.display_name.clone()
                } else {
                    email.clone()
                },
                None => email.clone(),
            },
        }
    }

    pub fn author_of(&self, email: &String) -> (r: String)
        requires
            self.wf(),
        ensures
            r@ == self.spec_author(email@),
    {
        match self.participants.get_ref(email.as_str()) {
            Some(c) => c.display_name.clone(),
            None => {
                let last_matches = match &self.last_participant {
                    Some(c) => same_text(c.email.as_str(), email.as_str()),
                    None => false,
                };
                if last_matches {
                    match &self.last_participant {
                        Some(c) => c.display_name.clone(),
                        None => email.clone(),
                    }
                } else if same_text(email.as_str(), self.user_email.as_str()) {
                    self.user_display_name.clone()
                } else {
                    email.clone()
                }
            },
        }
    }

    /// The line shown above a message.
    pub fn heading(&self, m: &Message) -> (r: String)
        requires
            self.wf(),
        ensures
            r@ == self.spec_heading(m@),
    {
        if !m.is_nudge && !m.errored {
            self.author_of(&m.sender).concat(" said:")
        } else if m.errored {
            String::from_str("The following message could not be delivered to all recipients:")
        } else {
            m.text.clone()
        }
    }

    /// How a message is shown: its heading (see [`Self::spec_heading`]);
    /// unless it is a nudge that was delivered, the words of its text split
    /// at spaces, marked as links where the pattern matches them; history
    /// dimmed, and the text of undelivered messages dimmed too.
    pub fn shown(&self, m: &Message, pattern: &Option<Pattern>) -> (r: ShownMessage)
        requires
            self.wf(),
        ensures
            r.heading@ == self.spec_heading(m@),
            r.heading_dimmed == m.is_history,
            r.text_dimmed == (m.is_history || m.errored),
            r.separated == (m.is_nudge || m.errored),
            (m.is_nudge && !m.errored) ==> r.words@.len() == 0,
            !(m.is_nudge && !m.errored) ==> {
                &&& r.words@.len() == split_spaces(m.text@).len()
                &&& forall|i: int|
                    0 <= i < r.words@.len() ==> (#[trigger] r.words@[i]).text@ == split_spaces(
                        m.text@,
                    )[i] && r.words@[i].is_link == spec_is_link(
                        match pattern {
                            Some(p) => Some(p.text()),
                            None => None,
                        },
                        split_spaces(m.text@)[i],
                    )
            },
    {
        let words = if m.is_nudge && !m.errored {
            Vec::new()
        } else {
            message_words(m.text.as_str(), pattern)
        };
        ShownMessage {
            heading: self.heading(m),
            words,
            heading_dimmed: m.is_history,
            text_dimmed: m.is_history || m.errored,
            separated: m.is_nudge || m.errored,
        }
    }

    /// The window's title.
    pub fn get_title(&self) -> (r: String)
        requires
            self.wf(),
        ensures
            r@ == self.spec_title(),
    {
        let ps = self.participants.contacts();
        let ghost s = self.participants.ordered();
        if ps.len() > 0 {
            let mut t = String::new();
            let mut i: usize = 0;
            while i < ps.len()
                invariant
                    i <= ps.len(),
                    s == ps@.map_values(|c: Contact| c@),
                    t@ == joined_names(s.take(i as int)),
                decreases ps.len() - i,
            {
                proof {
                    assert(s.take(i + 1).drop_last() =~= s.take(i as int));
                    assert(s.take(i + 1).last() == ps@[i as int]@);
                }
                if i > 0 {
                    t.append(", ");
                } else {
                    assert(s.take(1) =~= seq![s[0]]);
                }
                t.append(ps[i].display_name.as_str());
                i = i + 1;
            }
            assert(s.take(ps.len() as int) =~= s);
            t.append(" - Conversation");
            t
        } else {
            match &self.last_participant {
                Some(c) => c.display_name.clone().concat(" - Conversation"),
                None => String::from_str("Conversation"),
            }
        }
    }

    /// Who a message the user writes is addressed to.
    pub fn receiver(&self) -> (r: Option<String>)
        requires
            self.wf(),
        ensures
            opt_view(r) == self.spec_receiver(),
    {
        let ps = self.participants.contacts();
        if ps.len() == 1 {
            Some(ps[0].email.clone())
        } else if ps.len() == 0 {
            match &self.last_participant {
                Some(c) => Some(c.email.clone()),
                None => None,
            }
        } else {
            None
        }
    }

    /// The header above the messages.
    pub fn header(&self) -> (r: String)
        requires
            self.wf(),
        ensures
            r@ == self.spec_header(),
    {
        let ps = self.participants.contacts();
        let mut r = String::from_str("To: ");
        if ps.len() == 1 {
            r.append(ps[0].display_name.as_str());
            r.append(" <");
            r.append(ps[0].email.as_str());
            r.append(">");
        } else if ps.len() > 1 {
            push_decimal(&mut r, ps.len() as u64);
            r.append(" participants");
        } else {
            match &self.last_participant {
                Some(c) => {
                    r.append(c.display_name.as_str());
                    r.append(" <");
                    r.append(c.email.as_str());
                    r.append(">");
                },
                None => {},
            }
        }
        r
    }

    /// The line that says someone is writing.
    pub fn typing_label(&self) -> (r: String)
        requires
            self.wf(),
        ensures
            r@ == self.spec_typing_label(),
    {
        match &self.participant_typing {
            Some(t) => self.name_of(t).concat(" is writing a message..."),
            None => String::new(),
        }
    }

    /// Whether a switchboard session belongs to this conversation.
    pub fn contains_switchboard(&self, session_id: &String) -> (r: bool)
        ensures
            r == self.owns_session(session_id@),
    {
        let mut i: usize = 0;
        while i < self.session_ids.len()
            invariant
                i <= self.session_ids.len(),
                forall|k: int| 0 <= k < i ==> self.session_ids@[k]@ != session_id@,
            decreases self.session_ids.len() - i,
        {
            if same_text(self.session_ids[i].as_str(), session_id.as_str()) {
                assert(self.sessions()[i as int] == session_id@);
                return true;
            }
            i = i + 1;
        }
        proof {
            if self.owns_session(session_id@) {
                let k = choose|k: int|
                    0 <= k < self.session_ids@.len() && #[trigger] self.sessions()[k] == session_id@;
                assert(self.session_ids@[k]@ == session_id@);
            }
        }
        false
    }

    /// The user's display name changed.
    pub fn on_display_name(&mut self, display_name: String)
        ensures
            *final(self) == (Conversation { user_display_name: display_name, ..*old(self) }),
    {
        self.user_display_name = display_name;
    }

    /// A contact's presence changed: a participant, or the contact last in
    /// the conversation, takes the repository's state of that contact.
    pub fn on_presence_update(&mut self, email: &String, contact_repository: &ContactRepository)
        requires
            old(self).wf(),
            contact_repository.wf(),
        ensures
            *final(self) == (Conversation { participants: final(self).participants, last_participant: final(self).last_participant, ..*old(self) }),
            final(self).wf(),
            old(self).spec_participants().contains_key(email@) ==> final(self).spec_participants()
                == old(self).spec_participants().insert(
                email@,
                known_or_unknown(contact_repository@, email@),
            ) && final(self).spec_last() == old(self).spec_last(),
            !old(self).spec_participants().contains_key(email@) ==> final(self).spec_participants()
                == old(self).spec_participants() && (if old(self).spec_last() matches Some(c)
                && c.email == email@ {
                final(self).spec_last() == Some(known_or_unknown(contact_repository@, email@))
            } else {
                final(self).spec_last() == old(self).spec_last()
            }),
            final(self).messages == old(self).messages,
    {
        let fresh = match contact_repository.get_contact(email) {
            Some(c) => c,
            None => Contact::unknown(email),
        };
        proof {
            contact_repository.lemma_keyed();
        }
        if self.participants.contains(email.as_str()) {
            self.participants.insert(fresh);
        } else {
            let last_matches = match &self.last_participant {
                Some(c) => same_text(c.email.as_str(), email.as_str()),
                None => false,
            };
            if last_matches {
                self.last_participant = Some(fresh);
            }
        }
    }

    /// What a participant joining a session does to a conversation (`self`
    /// before, `after` after), with `load` whether to load the history with
    /// that contact and `buffer` the messages handed over to be sent: when
    /// the session is the conversation's, the participant (as the repository
    /// knows it) joins, the history loads when it is the first participant of
    /// a conversation nobody had left, and the buffer is handed over and
    /// emptied; otherwise nothing changes. Nothing else changes either way.
    pub open spec fn joined(
        self,
        after: Conversation,
        session_id: Seq<char>,
        email: Seq<char>,
        repo: Map<Seq<char>, ContactView>,
        load: bool,
        buffer: Seq<MessageView>,
    ) -> bool {
        &&& after == (Conversation {
            participants: after.participants,
            message_buffer: after.message_buffer,
            ..self
        })
        &&& after.wf()
        &&& if self.owns_session(session_id) {
            &&& after.spec_participants() == self.spec_participants().insert(
                email,
                known_or_unknown(repo, email),
            )
            &&& load == (self.spec_last() is None && after.participants.ordered().len() == 1)
            &&& buffer == self.spec_buffer()
            &&& after.spec_buffer().len() == 0
        } else {
            &&& !load
            &&& buffer.len() == 0
            &&& after.spec_participants() == self.spec_participants()
            &&& after.spec_buffer() == self.spec_buffer()
        }
    }

    /// Someone joined one of the conversation's switchboards: they become a
    /// participant, as the repository knows them. The result says whether
    /// the history with them should now be loaded (they are the only
    /// participant of a conversation that never had one), and holds the
    /// buffered messages, which now leave.
    pub fn on_participant_joined(
        &mut self,
        session_id: &String,
        email: &String,
        contact_repository: &ContactRepository,
    ) -> (r: (bool, Vec<Message>))
        requires
            old(self).wf(),
            contact_repository.wf(),
        ensures
            old(self).joined(
                *final(self),
                session_id@,
                email@,
                contact_repository@,
                r.0,
                r.1@.map_values(|m: Message| m@),
            ),
    {
        if !self.contains_switchboard(session_id) {
            return (false, Vec::new());
        }
        let contact = match contact_repository.get_contact(email) {
            Some(c) => c,
            None => Contact::unknown(email),
        };
        proof {
            contact_repository.lemma_keyed();
        }
        self.participants.insert(contact);
        let load_history = self.last_participant.is_none() && self.participants.len() == 1;
        let mut buffer = Vec::new();
        std::mem::swap(&mut buffer, &mut self.message_buffer);
        (load_history, buffer)
    }

    /// The history with the contact arrived (newest first); it replaces the
    /// messages shown, oldest first.
    pub fn set_history(&mut self, history: Vec<Message>)
        ensures
            final(self).spec_messages() == history@.map_values(|m: Message| m@).reverse(),
            *final(self) == (Conversation { messages: final(self).messages, ..*old(self) }),
    {
        self.messages = reversed(history);
    }

    /// Someone left one of the conversation's switchboards; when the last
    /// participant leaves, they are remembered as the contact last in it.
    pub fn on_participant_left(&mut self, session_id: &String, email: &String)
        requires
            old(self).wf(),
        ensures
            *final(self) == (Conversation { participants: final(self).participants, last_participant: final(self).last_participant, ..*old(self) }),
            final(self).wf(),
            !old(self).owns_session(session_id@) ==> final(self).spec_participants() == old(self).spec_participants() && final(self).spec_last() == old(self).spec_last(),
            old(self).owns_session(session_id@) ==> {
                &&& final(self).spec_participants() == old(self).spec_participants().remove(email@)
                &&& if final(self).participants.ordered().len() == 0
                    && old(self).spec_participants().contains_key(email@) {
                    final(self).spec_last() == Some(old(self).spec_participants()[email@])
                } else {
                    final(self).spec_last() == old(self).spec_last()
                }
            },
            final(self).messages == old(self).messages,
    {
        if !self.contains_switchboard(session_id) {
            return;
        }
        let removed = self.participants.remove(email.as_str());
        if self.participants.len() == 0 && removed.is_some() {
            self.last_participant = removed;
        }
    }

    /// Someone is writing: unless someone already is, they are shown as
    /// writing, and the result asks for the notice to be cleared later.
    pub fn on_typing(&mut self, session_id: &String, email: &String) -> (start_timer: bool)
        requires
            old(self).wf(),
        ensures
            *final(self) == (Conversation { participant_typing: final(self).participant_typing, ..*old(self) }),
            start_timer == (old(self).owns_session(session_id@) && old(self).participant_typing is None),
            start_timer ==> opt_view(final(self).participant_typing) == Some(
                if old(self).spec_participants().contains_key(email@) {
                    old(self).spec_participants()[email@].display_name
                } else {
                    email@
                },
            ),
            !start_timer ==> final(self).participant_typing == old(self).participant_typing,
            final(self).participants == old(self).participants,
            final(self).last_participant == old(self).last_participant,
            final(self).messages == old(self).messages,
    {
        if !self.contains_switchboard(session_id) || self.participant_typing.is_some() {
            return false;
        }
        proof {
            self.participants.lemma_valid();
        }
        self.participant_typing = match self.participants.get_ref(email.as_str()) {
            Some(c) => Some(c.display_name.clone()),
            None => Some(email.clone()),
        };
        true
    }

    /// The notice to clear after someone stopped writing.
    pub fn clear_participant_typing(&mut self)
        ensures
            *final(self) == (Conversation { participant_typing: None, ..*old(self) }),
    {
        self.participant_typing = None;
    }

    /// The user may again send a typing notice.
    pub fn clear_user_typing(&mut self)
        ensures
            *final(self) == (Conversation { user_typing: false, ..*old(self) }),
    {
        self.user_typing = false;
    }

    /// The notification for a message that arrives: only when the window is
    /// not focused and the user is not busy.
    fn notice_for(&self, summary: String, body: &String) -> (n: Option<Notice>)
        ensures
            n is Some == (!self.focused && self.user_status != PresenceStatus::Busy),
            n matches Some(x) ==> x.summary@ == summary@ && x.body@ == body@,
    {
        if !self.focused && self.user_status != PresenceStatus::Busy {
            Some(Notice { summary, body: body.clone() })
        } else {
            None
        }
    }

    /// A text message arrived on one of the conversation's switchboards: it
    /// is shown, stored, and announced when the window is not focused.
    pub fn on_text_message(&mut self, session_id: &String, email: String, text: PlainText) -> (r:
        Option<Incoming>)
        requires
            old(self).wf(),
        ensures
            *final(self) == (Conversation { messages: final(self).messages, participant_typing: final(self).participant_typing, ..*old(self) }),
            final(self).wf(),
            r is None <==> !old(self).owns_session(session_id@),
            r is None ==> final(self).spec_messages() == old(self).spec_messages()
                && final(self).participant_typing == old(self).participant_typing,
            r matches Some(inc) ==> {
                &&& inc.message@ == MessageView {
                    sender: email@,
                    receiver: Some(old(self).user_email@),
                    is_nudge: false,
                    text: text.text@,
                    bold: text.bold,
                    italic: text.italic,
                    underline: text.underline,
                    strikethrough: text.strikethrough,
                    session_id: None,
                    color: text.color@,
                    is_history: false,
                    errored: false,
                }
                &&& final(self).spec_messages() == old(self).spec_messages().push(inc.message@)
                &&& final(self).participant_typing is None
                &&& inc.request_attention == !old(self).focused
                &&& (inc.notice is Some) == (!old(self).focused && old(self).user_status
                    != PresenceStatus::Busy)
                &&& inc.notice matches Some(n) ==> n.summary@ == said_text(
                    old(self).spec_name_of(email@),
                ) && n.body@ == text.text@
            },
            final(self).participants == old(self).participants,
            final(self).last_participant == old(self).last_participant,
    {
        if !self.contains_switchboard(session_id) {
            return None;
        }
        let message = Message {
            sender: email,
            receiver: Some(self.user_email.clone()),
            is_nudge: false,
            text: text.text,
            bold: text.bold,
            italic: text.italic,
            underline: text.underline,
            strikethrough: text.strikethrough,
            session_id: None,
            color: text.color,
            is_history: false,
            errored: false,
        };
        let summary = self.name_of(&message.sender).concat(" said:");
        let notice = self.notice_for(summary, &message.text);
        let stored = message.duplicate();
        self.messages.push(message);
        self.participant_typing = None;
        proof {
            assert(self.spec_messages() =~= old(self).spec_messages().push(stored@));
        }
        Some(Incoming { message: stored, notice, request_attention: !self.focused })
    }

    /// A nudge arrived on one of the conversation's switchboards: it is
    /// shown as a message, stored, and announced when the window is not
    /// focused.
    pub fn on_nudge(&mut self, session_id: &String, email: String) -> (r: Option<Incoming>)
        requires
            old(self).wf(),
        ensures
            *final(self) == (Conversation { messages: final(self).messages, participant_typing: final(self).participant_typing, ..*old(self) }),
            final(self).wf(),
            r is None <==> !old(self).owns_session(session_id@),
            r is None ==> final(self).spec_messages() == old(self).spec_messages()
                && final(self).participant_typing == old(self).participant_typing,
            r matches Some(inc) ==> {
                &&& inc.message@ == MessageView {
                    sender: email@,
                    receiver: Some(old(self).user_email@),
                    is_nudge: true,
                    text: nudge_text(old(self).spec_name_of(email@)),
                    bold: false,
                    italic: false,
                    underline: false,
                    strikethrough: false,
                    session_id: None,
                    color: "0"@,
                    is_history: false,
                    errored: false,
                }
                &&& final(self).spec_messages() == old(self).spec_messages().push(inc.message@)
                &&& final(self).participant_typing is None
                &&& inc.request_attention == !old(self).focused
                &&& (inc.notice is Some) == (!old(self).focused && old(self).user_status
                    != PresenceStatus::Busy)
                &&& inc.notice matches Some(n) ==> n.summary@ == "New message"@ && n.body@
                    == inc.message@.text
            },
            final(self).participants == old(self).participants,
            final(self).last_participant == old(self).last_participant,
    {
        if !self.contains_switchboard(session_id) {
            return None;
        }
        let text = self.name_of(&email).concat(" just sent you a nudge!");
        let message = Message {
            sender: email,
            receiver: Some(self.user_email.clone()),
            is_nudge: true,
            text,
            bold: false,
            italic: false,
            underline: false,
            strikethrough: false,
            session_id: None,
            color: String::from_str("0"),
            is_history: false,
            errored: false,
        };
        let notice = self.notice_for(String::from_str("New message"), &message.text);
        let stored = message.duplicate();
        self.messages.push(message);
        self.participant_typing = None;
        proof {
            assert(self.spec_messages() =~= old(self).spec_messages().push(stored@));
        }
        Some(Incoming { message: stored, notice, request_attention: !self.focused })
    }

    /// The server answered the sending of a message: it is shown, marked as
    /// undelivered when sending failed; the result says whether to store it
    /// in the history (only when it was delivered).
    pub fn on_send_result(&mut self, message: Message, delivered: bool) -> (store: Option<Message>)
        requires
            old(self).wf(),
        ensures
            *final(self) == (Conversation { messages: final(self).messages, ..*old(self) }),
            final(self).wf(),
            final(self).spec_messages() == old(self).spec_messages().push(
                MessageView { errored: if delivered { message@.errored } else { true }, ..message@ },
            ),
            delivered ==> opt_view(store) == Some(message@),
            !delivered ==> store is None,
            final(self).participants == old(self).participants,
            final(self).last_participant == old(self).last_participant,
    {
        let mut message = message;
        let store = if delivered {
            Some(message.duplicate())
        } else {
            message.errored = true;
            None
        };
        let ghost mv = message@;
        self.messages.push(message);
        assert(self.spec_messages() =~= old(self).spec_messages().push(mv));
        store
    }

    /// The user's display picture changed.
    pub fn on_user_display_picture(&mut self, picture: DisplayPicture)
        ensures
            *final(self) == (Conversation { user_display_picture: Some(picture), ..*old(self) }),
    {
        self.user_display_picture = Some(picture);
    }

    /// The user's status changed.
    pub fn on_user_status(&mut self, status: PresenceStatus)
        ensures
            *final(self) == (Conversation { user_status: status, ..*old(self) }),
    {
        self.user_status = status;
    }

    /// A contact's display picture arrived: the participant with that
    /// address takes it under the hash of the object its presence announced;
    /// when no such participant announced one, the contact last in the
    /// conversation does, if it is that contact and announced one.
    pub fn on_contact_display_picture(&mut self, email: &String, data: Vec<u8>)
        requires
            old(self).wf(),
        ensures
            *final(self) == (Conversation {
                participants: final(self).participants,
                last_participant: final(self).last_participant,
                ..*old(self)
            }),
            final(self).wf(),
            ({
                let in_participants = old(self).spec_participants().contains_key(email@)
                    && object_hash(old(self).spec_participants()[email@]) is Some;
                &&& in_participants ==> final(self).spec_participants() == old(self).spec_participants().insert(
                    email@,
                    with_picture(old(self).spec_participants()[email@], data@),
                ) && final(self).spec_last() == old(self).spec_last()
                &&& !in_participants ==> final(self).spec_participants() == old(self).spec_participants()
                    && final(self).spec_last() == match old(self).spec_last() {
                    Some(l) => if l.email == email@ && object_hash(l) is Some {
                        Some(with_picture(l, data@))
                    } else {
                        Some(l)
                    },
                    None => None,
                }
            }),
    {
        proof {
            self.participants.lemma_valid();
        }
        let participant_hash = match self.participants.get_ref(email.as_str()) {
            Some(c) => announced_hash(c),
            None => None,
        };
        if let Some(h) = participant_hash {
            let mut c = self.participants.get(email.as_str()).unwrap();
            c.display_picture = Some(DisplayPicture { data, hash: h });
            self.participants.insert(c);
        } else {
            let last_hash = match &self.last_participant {
                Some(c) => if same_text(c.email.as_str(), email.as_str()) {
                    announced_hash(c)
                } else {
                    None
                },
                None => None,
            };
            if let Some(h) = last_hash {
                if let Some(c) = &mut self.last_participant {
                    c.display_picture = Some(DisplayPicture { data, hash: h });
                }
            }
        }
    }

    /// Another switchboard session joins the conversation.
    pub fn add_switchboard(&mut self, session_id: String)
        ensures
            final(self).session_ids@.map_values(|s: String| s@) == old(self).session_ids@.map_values(
                |s: String| s@,
            ).push(session_id@),
            *final(self) == (Conversation { session_ids: final(self).session_ids, ..*old(self) }),
    {
        let ghost before = self.session_ids@.map_values(|s: String| s@);
        self.session_ids.push(session_id);
        assert(self.session_ids@.map_values(|s: String| s@) =~= before.push(
            self.session_ids@[self.session_ids.len() - 1]@,
        ));
    }

    /// The pictures shown beside the messages: with fewer than two
    /// participants, that of the one participant, else that of the contact
    /// last in the conversation, else the default one; with more, those of
    /// all participants.
    pub fn pictures_shown(&self) -> (r: PictureLayout)
        requires
            self.wf(),
        ensures
            self.participants.ordered().len() == 0 ==> (r matches PictureLayout::Single(c)
                && opt_view(c) == self.spec_last()),
            self.participants.ordered().len() == 1 ==> (r matches PictureLayout::Single(c)
                && opt_view(c) == Some(self.participants.ordered()[0])),
            self.participants.ordered().len() >= 2 ==> (r matches PictureLayout::Grid(v)
                && v@.map_values(|c: Contact| c@) == self.participants.ordered()),
    {
        let contacts = self.participants.contacts();
        if contacts.len() < 2 {
            if contacts.len() == 1 {
                PictureLayout::Single(Some(contacts[0].duplicate()))
            } else {
                match &self.last_participant {
                    Some(c) => PictureLayout::Single(Some(c.duplicate())),
                    None => PictureLayout::Single(None),
                }
            }
        } else {
            let mut v: Vec<Contact> = Vec::new();
            let mut i: usize = 0;
            while i < contacts.len()
                invariant
                    i <= contacts.len(),
                    v@.len() == i,
                    forall|j: int| 0 <= j < i ==> #[trigger] v@[j]@ == contacts@[j]@,
                decreases contacts.len() - i,
            {
                let c = contacts[i].duplicate();
                v.push(c);
                i = i + 1;
            }
            assert(v@.map_values(|c: Contact| c@) =~= contacts@.map_values(|c: Contact| c@));
            PictureLayout::Grid(v)
        }
    }

    /// The sessions to leave when the window closes.
    pub fn leave_switchboards(&self) -> (r: &Vec<String>)
        ensures
            r@ == self.session_ids@,
    {
        &self.session_ids
    }

    pub fn get_participants(&self) -> (r: &ContactTable)
        ensures
            r == &self.participants,
    {
        &self.participants
    }

    pub fn get_last_participant(&self) -> (r: &Option<Contact>)
        ensures
            r == &self.last_participant,
    {
        &self.last_participant
    }

    /// The message the user sends: the text written (line breaks as
    /// carriage return and line feed) with the chosen formatting, or a nudge.
    pub open spec fn spec_outgoing(self, nudge: bool) -> MessageView {
        MessageView {
            sender: self.user_email@,
            receiver: self.spec_receiver(),
            is_nudge: nudge,
            text: if nudge {
                "You just sent a nudge!"@
            } else {
                with_crlf(self.new_message@)
            },
            bold: !nudge && self.bold,
            italic: !nudge && self.italic,
            underline: !nudge && self.underline,
            strikethrough: !nudge && self.strikethrough,
            session_id: None,
            color: "0"@,
            is_history: false,
            errored: false,
        }
    }

    fn outgoing(&self, nudge: bool) -> (m: Message)
        requires
            self.wf(),
        ensures
            m@ == self.spec_outgoing(nudge),
    {
        Message {
            sender: self.user_email.clone(),
            receiver: self.receiver(),
            is_nudge: nudge,
            text: if nudge {
                String::from_str("You just sent a nudge!")
            } else {
                crlf_line_breaks(self.new_message.as_str())
            },
            bold: !nudge && self.bold,
            italic: !nudge && self.italic,
            underline: !nudge && self.underline,
            strikethrough: !nudge && self.strikethrough,
            session_id: None,
            color: String::from_str("0"),
            is_history: false,
            errored: false,
        }
    }

    /// How a message `m` leaves, as `d`, with `buffer` the buffer afterwards:
    /// it is sent now when the conversation has a switchboard and someone in
    /// it; otherwise it waits in the buffer, and when there is a switchboard
    /// the contact last in the conversation is invited back.
    pub open spec fn dispatched(self, m: MessageView, d: Dispatch, buffer: Seq<MessageView>) -> bool {
        if self.session_ids@.len() > 0 && self.participants.ordered().len() > 0 {
            &&& d matches Dispatch::Send(y) && y@ == m
            &&& buffer == self.spec_buffer()
        } else {
            &&& d matches Dispatch::Buffered { invite } && opt_view(invite) == (
            if self.session_ids@.len() > 0 {
                match self.spec_last() {
                    Some(c) => Some(c.email),
                    None => None,
                }
            } else {
                None
            })
            &&& buffer == self.spec_buffer().push(m)
        }
    }

    /// Sends a message now when the conversation has a switchboard and
    /// someone in it; otherwise it waits in the buffer, and with a
    /// switchboard the contact last in it is invited back.
    fn dispatch(&mut self, m: Message) -> (d: Dispatch)
        requires
            old(self).wf(),
        ensures
            *final(self) == (Conversation { message_buffer: final(self).message_buffer, ..*old(self) }),
            final(self).wf(),
            old(self).dispatched(m@, d, final(self).spec_buffer()),
    {
        if self.session_ids.len() > 0 && self.participants.len() > 0 {
            Dispatch::Send(m)
        } else {
            let ghost mv = m@;
            self.message_buffer.push(m);
            assert(self.spec_buffer() =~= old(self).spec_buffer().push(mv));
            let invite = if self.session_ids.len() > 0 {
                match &self.last_participant {
                    Some(c) => Some(c.email.clone()),
                    None => None,
                }
            } else {
                None
            };
            Dispatch::Buffered { invite }
        }
    }

    /// The user pressed Enter: a message that is not blank leaves (or waits
    /// in the buffer, see [`Self::dispatched`]), and the editor is emptied;
    /// a blank one changes nothing.
    pub fn send_message(&mut self) -> (d: Option<Dispatch>)
        requires
            old(self).wf(),
        ensures
            *final(self) == (Conversation { new_message: final(self).new_message, message_buffer: final(self).message_buffer, ..*old(self) }),
            final(self).wf(),
            d is Some <==> !is_blank(old(self).new_message@),
            d is None ==> *final(self) == *old(self),
            d matches Some(x) ==> final(self).new_message@ == Seq::<char>::empty()
                && old(self).dispatched(old(self).spec_outgoing(false), x, final(self).spec_buffer()),
    {
        if blank(self.new_message.as_str()) {
            return None;
        }
        let m = self.outgoing(false);
        self.new_message = String::new();
        let ghost cleared = *self;
        let d = self.dispatch(m);
        assert(cleared.dispatched(m@, d, self.spec_buffer()));
        Some(d)
    }

    /// The user pressed "Nudge": a nudge leaves (or waits in the buffer, see
    /// [`Self::dispatched`]).
    pub fn send_nudge(&mut self) -> (d: Dispatch)
        requires
            old(self).wf(),
        ensures
            *final(self) == (Conversation { message_buffer: final(self).message_buffer, ..*old(self) }),
            final(self).wf(),
            old(self).dispatched(old(self).spec_outgoing(true), d, final(self).spec_buffer()),
    {
        let m = self.outgoing(true);
        self.dispatch(m)
    }

    /// The text being written changed: the first change sends a typing
    /// notice (when there is a switchboard) until the notice is cleared.
    pub fn on_new_message_changed(&mut self) -> (notify: bool)
        ensures
            notify == (!old(self).user_typing && old(self).session_ids@.len() > 0),
            *final(self) == (Conversation { user_typing: old(self).user_typing || notify, ..*old(self) }),
    {
        if !self.user_typing && self.session_ids.len() > 0 {
            self.user_typing = true;
            true
        } else {
            false
        }
    }

    /// The participants whose display picture to request when the window
    /// gains the focus: those with an announced object and no picture yet.
    pub open spec fn spec_picture_requests(self) -> Seq<(Seq<char>, Seq<char>)> {
        self.participants.ordered().filter(
            |c: ContactView|
                c.status is Some && c.status.unwrap().msn_object_string is Some
                    && c.display_picture is None,
        ).map_values(
            |c: ContactView| (c.email, c.status.unwrap().msn_object_string.unwrap()),
        )
    }

    /// The window's focus changed. When it gains the focus (and there is a
    /// switchboard), the result lists the participants, with the object
    /// they announced, whose display pictures to request.
    pub fn on_focus(&mut self, focused: bool) -> (r: Vec<(String, String)>)
        requires
            old(self).wf(),
        ensures
            final(self).focused == focused,
            (!old(self).focused && focused && old(self).session_ids@.len() > 0) ==> r@.map_values(
                |p: (String, String)| (p.0@, p.1@),
            ) == old(self).spec_picture_requests(),
            !(!old(self).focused && focused && old(self).session_ids@.len() > 0) ==> r@.len()
                == 0,
            *final(self) == (Conversation { focused, ..*old(self) }),
    {
        let gained = !self.focused && focused && self.session_ids.len() > 0;
        self.focused = focused;
        let mut r: Vec<(String, String)> = Vec::new();
        if !gained {
            return r;
        }
        let ps = self.participants.contacts();
        let ghost s = self.participants.ordered();
        let ghost pred = |c: ContactView|
            c.status is Some && c.status.unwrap().msn_object_string is Some
                && c.display_picture is None;
        let ghost f = |c: ContactView| (c.email, c.status.unwrap().msn_object_string.unwrap());
        let mut i: usize = 0;
        while i < ps.len()
            invariant
                i <= ps.len(),
                s == ps@.map_values(|c: Contact| c@),
                pred == (|c: ContactView|
                    c.status is Some && c.status.unwrap().msn_object_string is Some
                        && c.display_picture is None),
                f == (|c: ContactView| (c.email, c.status.unwrap().msn_object_string.unwrap())),
                r@.map_values(|p: (String, String)| (p.0@, p.1@)) == s.take(i as int).filter(
                    pred,
                ).map_values(f),
            decreases ps.len() - i,
        {
            proof {
                reveal_with_fuel(Seq::<_>::filter, 1);
                let t = s.take(i + 1);
                assert(t.drop_last() =~= s.take(i as int));
                assert(t.last() == s[i as int]);
                assert(t.filter(pred) == if pred(s[i as int]) {
                    s.take(i as int).filter(pred).push(s[i as int])
                } else {
                    s.take(i as int).filter(pred)
                });
                assert(s[i as int] == ps@[i as int]@);
            }
            let ghost before = r@.map_values(|p: (String, String)| (p.0@, p.1@));
            let c = &ps[i];
            assert(c@ == s[i as int]);
            if c.display_picture.is_none() {
                assert(c@.display_picture is None);
                match &c.status {
                    Some(p) => match &p.msn_object_string {
                        Some(o) => {
                            r.push((c.email.clone(), o.clone()));
                            proof {
                                assert(s[i as int].status == Some(p@));
                                assert(p@.msn_object_string == Some(o@));
                                assert(pred(s[i as int]));
                                assert(f(s[i as int]) == (c.email@, o@));
                                assert(r@.map_values(|p: (String, String)| (p.0@, p.1@)) =~= before.push(
                                    f(s[i as int]),
                                ));
                            }
                        },
                        None => {
                            assert(s[i as int].status == Some(p@));
                            assert(!pred(s[i as int]));
                        },
                    },
                    None => {
                        assert(!pred(s[i as int]));
                    },
                }
            } else {
                assert(c@.display_picture is Some);
                assert(!pred(s[i as int]));
            }
            i = i + 1;
        }
        assert(s.take(ps.len() as int) =~= s);
        r
    }

    /// Whether this conversation is the one with a contact: the contact takes
    /// part in it, or it was the last one in it and nobody else is.
    pub open spec fn spec_is_with(self, email: Seq<char>) -> bool {
        self.spec_participants().contains_key(email) || (self.participants.ordered().len() == 0
            && self.spec_last() is Some && self.spec_last().unwrap().email == email)
    }

    pub fn is_with(&self, email: &String) -> (r: bool)
        requires
            self.wf(),
        ensures
            r == self.spec_is_with(email@),
    {
        if self.participants.contains(email.as_str()) {
            return true;
        }
        if self.participants.len() != 0 {
            return false;
        }
        match &self.last_participant {
            Some(c) => same_text(c.email.as_str(), email.as_str()),
            None => false,
        }
    }

    /// Whether a switchboard session that began without a window belongs to
    /// this conversation: it has one participant and everyone in the session
    /// takes part in it, or it has none and everyone in the session is the
    /// contact last in it.
    pub open spec fn spec_takes_switchboard(self, sb: Seq<Seq<char>>) -> bool {
        ||| (self.participants.ordered().len() == 1 && forall|i: int|
            0 <= i < sb.len() ==> self.spec_participants().contains_key(#[trigger] sb[i]))
        ||| (self.participants.ordered().len() == 0 && (sb.len() == 0 || (self.spec_last() is Some
            && all_equal(sb, self.spec_last().unwrap().email))))
    }

    pub fn takes_switchboard(&self, switchboard_participants: &Vec<String>) -> (r: bool)
        requires
            self.wf(),
        ensures
            r == self.spec_takes_switchboard(
                switchboard_participants@.map_values(|p: String| p@),
            ),
    {
        let ghost sb = switchboard_participants@.map_values(|p: String| p@);
        let n = self.participants.len();
        if n == 1 {
            let mut i: usize = 0;
            while i < switchboard_participants.len()
                invariant
                    i <= switchboard_participants.len(),
                    sb == switchboard_participants@.map_values(|p: String| p@),
                    self.wf(),
                    n == 1,
                    n == self.participants.ordered().len(),
                    forall|k: int| 0 <= k < i ==> self.spec_participants().contains_key(#[trigger] sb[k]),
                decreases switchboard_participants.len() - i,
            {
                if !self.participants.contains(switchboard_participants[i].as_str()) {
                    assert(!self.spec_participants().contains_key(sb[i as int]));
                    return false;
                }
                i = i + 1;
            }
            true
        } else if n == 0 {
            if switchboard_participants.len() == 0 {
                return true;
            }
            let last_email = match &self.last_participant {
                Some(c) => &c.email,
                None => {
                    return false;
                },
            };
            let mut i: usize = 0;
            while i < switchboard_participants.len()
                invariant
                    i <= switchboard_participants.len(),
                    sb == switchboard_participants@.map_values(|p: String| p@),
                    forall|k: int| 0 <= k < i ==> #[trigger] sb[k] == last_email@,
                    self.participants.ordered().len() == 0,
                    self.spec_last() is Some,
                    self.spec_last().unwrap().email == last_email@,
                decreases switchboard_participants.len() - i,
            {
                if !same_text(last_email.as_str(), switchboard_participants[i].as_str()) {
                    assert(sb[i as int] != last_email@);
                    return false;
                }
                i = i + 1;
            }
            assert(self.spec_takes_switchboard(sb));
            true
        } else {
            false
        }
    }
}

/// The typing line names the one who is writing, whoever the user is: empty
/// when nobody is, else the name shown for the writer (the participant's
/// display name, else that of the contact last in the conversation, else
/// the text itself) and " is writing a message..."; two conversations that
/// differ only in the user's own name and address show the same line.
pub proof fn lemma_typing_label_names_the_writer(c: Conversation, d: Conversation)
    ensures
        c.participant_typing is None ==> c.spec_typing_label().len() == 0,
        c.participant_typing is Some ==> {
            let t = c.participant_typing.unwrap()@;
            let name = if c.spec_participants().contains_key(t) {
                c.spec_participants()[t].display_name
            } else if c.spec_last() is Some && c.spec_last().unwrap().email == t {
                c.spec_last().unwrap().display_name
            } else {
                t
            };
            c.spec_typing_label() == name + " is writing a message..."@
        },
        d == (Conversation {
            user_display_name: d.user_display_name,
            user_email: d.user_email,
            ..c
        }) ==> d.spec_typing_label() == c.spec_typing_label(),
{
}

/// The name above a message is the one shown for its sender: the
/// participant's display name, else, once everyone left, the display name of
/// the contact last in the conversation when it is the sender, else the
/// user's own display name for the user's messages, else the address. For
/// every sender but the user it agrees with the name shown elsewhere in the
/// window.
pub proof fn lemma_author_is_name_shown(c: Conversation, email: Seq<char>)
    ensures
        email != c.user_email@ ==> c.spec_author(email) == c.spec_name_of(email),
        c.spec_participants().contains_key(email) ==> c.spec_author(email)
            == c.spec_participants()[email].display_name,
        !c.spec_participants().contains_key(email) && c.spec_last() is Some
            && c.spec_last().unwrap().email == email ==> c.spec_author(email)
            == c.spec_last().unwrap().display_name,
        !c.spec_participants().contains_key(email) && !(c.spec_last() is Some
            && c.spec_last().unwrap().email == email) ==> c.spec_author(email) == (if email
            == c.user_email@ {
            c.user_display_name@
        } else {
            email
        }),
{
}

/// The line above a message: a delivered text is headed by its author and
/// " said:", whatever its text; an undelivered one by the notice that it
/// could not be delivered; a nudge shows its own text.
pub proof fn lemma_heading_of_message(c: Conversation, m: MessageView)
    ensures
        !m.is_nudge && !m.errored ==> c.spec_heading(m) == c.spec_author(m.sender) + " said:"@,
        m.errored ==> c.spec_heading(m)
            == "The following message could not be delivered to all recipients:"@,
        m.is_nudge && !m.errored ==> c.spec_heading(m) == m.text,
{
}

/// The window's title, header and addressee follow who is in the
/// conversation, whatever the user's own name: with one participant, its
/// name in the title, its name and address in the header, and its address
/// as the addressee; with nobody left, the same for the contact last in it;
/// with several, every name in the title, their number in the header, and
/// no single addressee.
pub proof fn lemma_window_follows_participants(c: Conversation, d: Conversation)
    requires
        c.wf(),
    ensures
        c.participants.ordered().len() == 1 ==> {
            let p = c.participants.ordered()[0];
            &&& c.spec_title() == p.display_name + " - Conversation"@
            &&& c.spec_header() == "To: "@ + p.display_name + " <"@ + p.email + ">"@
            &&& c.spec_receiver() == Some(p.email)
            &&& c.spec_participants().contains_key(p.email)
        },
        c.participants.ordered().len() == 0 && c.spec_last() is Some ==> {
            let l = c.spec_last().unwrap();
            &&& c.spec_title() == l.display_name + " - Conversation"@
            &&& c.spec_header() == "To: "@ + l.display_name + " <"@ + l.email + ">"@
            &&& c.spec_receiver() == Some(l.email)
        },
        c.participants.ordered().len() == 0 && c.spec_last() is None ==> c.spec_title()
            == "Conversation"@ && c.spec_receiver() is None,
        c.participants.ordered().len() > 1 ==> c.spec_receiver() is None && c.spec_header() == "To: "@
            + decimal(c.participants.ordered().len()) + " participants"@,
        d == (Conversation {
            user_display_name: d.user_display_name,
            user_email: d.user_email,
            ..c
        }) ==> d.spec_title() == c.spec_title() && d.spec_header() == c.spec_header()
            && d.spec_receiver() == c.spec_receiver(),
{
    c.participants.lemma_valid();
}

/// A message the user writes comes from the user, goes to the addressee of
/// the window, keeps the user's formatting (none for a nudge), carries the
/// text with carriage returns before line feeds (the fixed nudge text for a
/// nudge), and is neither history nor undelivered.
pub proof fn lemma_outgoing_message(c: Conversation, nudge: bool)
    ensures
        c.spec_outgoing(nudge).sender == c.user_email@,
        c.spec_outgoing(nudge).receiver == c.spec_receiver(),
        c.spec_outgoing(nudge).is_nudge == nudge,
        !nudge ==> c.spec_outgoing(nudge).text == with_crlf(c.new_message@)
            && c.spec_outgoing(nudge).bold == c.bold && c.spec_outgoing(nudge).italic == c.italic
            && c.spec_outgoing(nudge).underline == c.underline && c.spec_outgoing(nudge).strikethrough
            == c.strikethrough,
        nudge ==> c.spec_outgoing(nudge).text == "You just sent a nudge!"@ && !c.spec_outgoing(
            nudge,
        ).bold && !c.spec_outgoing(nudge).italic && !c.spec_outgoing(nudge).underline
            && !c.spec_outgoing(nudge).strikethrough,
        !c.spec_outgoing(nudge).is_history && !c.spec_outgoing(nudge).errored,
{
}

/// A message leaves now exactly when the conversation has a switchboard and
/// someone in it; otherwise the buffer grows by that message alone, and only
/// with a switchboard is the contact last in the conversation invited back.
pub proof fn lemma_dispatch_sends_or_buffers(
    c: Conversation,
    m: MessageView,
    d: Dispatch,
    buffer: Seq<MessageView>,
)
    requires
        c.dispatched(m, d, buffer),
    ensures
        (d is Send) <==> (c.session_ids@.len() > 0 && c.participants.ordered().len() > 0),
        d matches Dispatch::Send(x) ==> x@ == m && buffer == c.spec_buffer(),
        d is Buffered ==> buffer.len() == c.spec_buffer().len() + 1 && buffer.last() == m
            && buffer.drop_last() == c.spec_buffer(),
        d matches Dispatch::Buffered { invite } ==> (invite is Some ==> c.session_ids@.len() > 0
            && c.spec_last() is Some && invite.unwrap()@ == c.spec_last().unwrap().email),
{
}

/// The history loaded for a switchboard: that of the session when several
/// contacts are in it, that with the contact when one is, none otherwise.
pub proof fn lemma_history_follows_participants(participants: Seq<Seq<char>>, session_id: Seq<char>)
    ensures
        participants.len() > 1 ==> spec_history_query(participants, session_id) == Some(
            (true, session_id),
        ),
        participants.len() == 1 ==> spec_history_query(participants, session_id) == Some(
            (false, participants[0]),
        ),
        participants.len() == 0 ==> spec_history_query(participants, session_id) is None,
{
}

/// A participant is the repository's contact when it knows the address,
/// else a contact known only by its address: named by it, offline, with no
/// lists, message or picture.
pub proof fn lemma_known_or_unknown(repo: Map<Seq<char>, ContactView>, email: Seq<char>)
    ensures
        repo.contains_key(email) ==> known_or_unknown(repo, email) == repo[email],
        !repo.contains_key(email) ==> {
            let c = known_or_unknown(repo, email);
            &&& c.email == email && c.display_name == email
            &&& c.status is None && c.lists.len() == 0
            &&& c.personal_message is None && c.display_picture is None
        },
{
}

/// A window is with a contact exactly when the contact is in it, or when
/// everyone left and the contact was the last of them; a window with
/// someone in it is not with a contact that is not.
pub proof fn lemma_is_with(c: Conversation, email: Seq<char>)
    requires
        c.wf(),
    ensures
        c.spec_participants().contains_key(email) ==> c.spec_is_with(email),
        c.participants.ordered().len() > 0 && !c.spec_participants().contains_key(email)
            ==> !c.spec_is_with(email),
        c.participants.ordered().len() == 0 ==> (c.spec_is_with(email) <==> (c.spec_last() is Some
            && c.spec_last().unwrap().email == email)),
{
    c.participants.lemma_valid();
}

/// The pictures asked for when the window gains the focus are those of
/// participants who announced an object and have no picture yet, each asked
/// by its address with the object it announced, at most one per participant.
pub proof fn lemma_picture_requests(c: Conversation)
    requires
        c.wf(),
    ensures
        c.spec_picture_requests().len() <= c.participants.ordered().len(),
        forall|i: int|
            0 <= i < c.spec_picture_requests().len() ==> {
                let (email, object) = #[trigger] c.spec_picture_requests()[i];
                &&& c.spec_participants().contains_key(email)
                &&& c.spec_participants()[email].display_picture is None
                &&& c.spec_participants()[email].status is Some
                &&& c.spec_participants()[email].status.unwrap().msn_object_string == Some(object)
            },
{
    broadcast use vstd::seq_lib::group_filter_ensures;

    c.participants.lemma_valid();
    let s = c.participants.ordered();
    let pred = |x: ContactView|
        x.status is Some && x.status.unwrap().msn_object_string is Some && x.display_picture is None;
    let f = |x: ContactView| (x.email, x.status.unwrap().msn_object_string.unwrap());
    let fl = s.filter(pred);
    assert(c.spec_picture_requests() == fl.map_values(f));
    assert forall|i: int| 0 <= i < fl.map_values(f).len() implies {
        let (email, object) = #[trigger] fl.map_values(f)[i];
        &&& c.spec_participants().contains_key(email)
        &&& c.spec_participants()[email].display_picture is None
        &&& c.spec_participants()[email].status is Some
        &&& c.spec_participants()[email].status.unwrap().msn_object_string == Some(object)
    } by {
        assert(fl.contains(fl[i]));
        s.lemma_filter_contains_rev(pred, fl[i]);
        s.filter_lemma(pred);
        assert(pred(fl[i]));
        let j = choose|j: int| 0 <= j < s.len() && s[j] == fl[i];
        assert(c.participants@[s[j].email] == s[j]);
    }
}

} // verus!
