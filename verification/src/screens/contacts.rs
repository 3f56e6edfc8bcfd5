pub mod contact_row;
pub mod status_selector;

use crate::contact_repository::ContactRepository;
use crate::contact_table::ContactTable;
use crate::models::common::opt_view;
use crate::models::contact::{
    announced_picture, block_lists, copy_lists, unblock_lists, blocked_lists, unblocked_lists,
    Contact, ContactView, MsnList, Presence, PresenceView,
};
use crate::models::display_picture::{copy_bytes, DisplayPicture, DisplayPictureView};
use crate::screens::contacts::status_selector::Status;
use crate::status::PresenceStatus;
use vstd::prelude::*;
use vstd::string::StringExecFns;

verus! {

/// A contact with its conversation flag cleared, to compare contacts
/// regardless of that flag.
pub open spec fn without_flag(c: ContactView) -> ContactView {
    ContactView { opening_conversation: false, ..c }
}

/// The contact after a presence update: new display name and presence, and
/// the display picture the presence announces (the stored picture with that
/// hash, or none when none is stored).
pub open spec fn presence_applied(
    c: ContactView,
    display_name: Seq<char>,
    p: PresenceView,
    stored: Option<Seq<u8>>,
) -> ContactView {
    ContactView {
        display_picture: match announced_picture(p) {
            Some(h) => match stored {
                Some(d) => Some(DisplayPictureView { data: d, hash: h }),
                None => None,
            },
            None => c.display_picture,
        },
        display_name: display_name,
        status: Some(p),
        ..c
    }
}

/// The text of the notification shown when a contact signs in.
pub open spec fn sign_in_notice(display_name: Seq<char>) -> Seq<char> {
    display_name + " has just signed in"@
}

/// A contact that entered the forward list.
pub open spec fn listed_contact(
    email: Seq<char>,
    display_name: Seq<char>,
    guid: Seq<char>,
    lists: Seq<MsnList>,
) -> ContactView {
    ContactView {
        email: email,
        display_name: display_name,
        guid: guid,
        lists: lists,
        status: None,
        personal_message: None,
        display_picture: None,
        opening_conversation: false,
    }
}

/// A switchboard session that began before any conversation window took it.
pub struct OrphanSwitchboard {
    pub session_id: String,
    pub participants: Vec<String>,
}

impl View for OrphanSwitchboard {
    type V = (Seq<char>, Seq<Seq<char>>);

    open spec fn view(&self) -> (Seq<char>, Seq<Seq<char>>) {
        (self.session_id@, self.participants@.map_values(|p: String| p@))
    }
}

/// The sessions of a sequence of switchboards are all different.
pub open spec fn unique_sessions(s: Seq<(Seq<char>, Seq<Seq<char>>)>) -> bool {
    forall|i: int, j: int|
        #![trigger s[i], s[j]]
        0 <= i < j < s.len() ==> s[i].0 != s[j].0
}

/// The participants of each switchboard, by session.
pub open spec fn by_session(s: Seq<(Seq<char>, Seq<Seq<char>>)>) -> Map<Seq<char>, Seq<Seq<char>>> {
    Map::new(
        |k: Seq<char>| exists|i: int| 0 <= i < s.len() && (#[trigger] s[i]).0 == k,
        |k: Seq<char>| s[choose|i: int| 0 <= i < s.len() && (#[trigger] s[i]).0 == k].1,
    )
}

proof fn lemma_by_session_at(s: Seq<(Seq<char>, Seq<Seq<char>>)>, i: int)
    requires
        unique_sessions(s),
        0 <= i < s.len(),
    ensures
        by_session(s).contains_key(s[i].0),
        by_session(s)[s[i].0] == s[i].1,
{
    let k = s[i].0;
    assert(exists|j: int| 0 <= j < s.len() && (#[trigger] s[j]).0 == k);
    let j = choose|j: int| 0 <= j < s.len() && (#[trigger] s[j]).0 == k;
    if j != i {
        if j < i {
            assert(s[j].0 != s[i].0);
        } else {
            assert(s[i].0 != s[j].0);
        }
    }
}

/// A copy of a sequence of texts.
pub fn copy_texts(v: &Vec<String>) -> (r: Vec<String>)
    ensures
        r@.map_values(|p: String| p@) == v@.map_values(|p: String| p@),
{
    let mut r: Vec<String> = Vec::new();
    let mut i: usize = 0;
    while i < v.len()
        invariant
            i <= v.len(),
            r@.map_values(|p: String| p@) == v@.map_values(|p: String| p@).take(i as int),
        decreases v.len() - i,
    {
        let ghost before = r@.map_values(|p: String| p@);
        let c = v[i].clone();
        assert(c@ == v@[i as int]@);
        r.push(c);
        assert(r@.map_values(|p: String| p@) =~= before.push(v@[i as int]@));
        i = i + 1;
        assert(r@.map_values(|p: String| p@) =~= v@.map_values(|p: String| p@).take(i as int));
    }
    assert(v@.map_values(|p: String| p@).take(v.len() as int) =~= v@.map_values(|p: String| p@));
    r
}

/// The texts other than one (`retain(|p| p != text)`).
pub fn texts_without(v: &Vec<String>, text: &String) -> (r: Vec<String>)
    ensures
        r@.map_values(|p: String| p@) == v@.map_values(|p: String| p@).filter(
            |p: Seq<char>| p != text@,
        ),
{
    let ghost s = v@.map_values(|p: String| p@);
    let mut r: Vec<String> = Vec::new();
    let mut i: usize = 0;
    while i < v.len()
        invariant
            i <= v.len(),
            s == v@.map_values(|p: String| p@),
            r@.map_values(|p: String| p@) == s.take(i as int).filter(|p: Seq<char>| p != text@),
        decreases v.len() - i,
    {
        proof {
            reveal_with_fuel(Seq::<_>::filter, 1);
            assert(s.take(i + 1).drop_last() =~= s.take(i as int));
            assert(s[i as int] == v@[i as int]@);
        }
        let ghost before = r@.map_values(|p: String| p@);
        if !crate::text::same_text(v[i].as_str(), text.as_str()) {
            r.push(v[i].clone());
            assert(r@.map_values(|p: String| p@) =~= before.push(s[i as int]));
        }
        i = i + 1;
    }
    assert(s.take(v.len() as int) =~= s);
    r
}

/// The contact list screen: the signed-in user, and the contacts split into
/// those online and those offline, mirrored in the repository.
pub struct Contacts {
    pub user_email: String,
    pub display_name: String,
    pub personal_message: String,
    pub display_picture: Option<DisplayPicture>,
    pub selected_status: Status,
    pub selected_contact: Option<String>,
    pub msn_today_url: Option<String>,
    pub online_contacts: ContactTable,
    pub offline_contacts: ContactTable,
    pub contact_repository: ContactRepository,
    pub orphan_switchboards: Vec<OrphanSwitchboard>,
}

/// What a result the screen waited for asks of the window.
pub enum ResultEffect {
    /// Nothing to do.
    Nothing,
    /// Show a dialog with this text.
    Dialog(String),
    /// Tell the conversations that the user's status changed.
    UserStatusChanged(PresenceStatus),
    /// Remember the user's personal message in the database.
    StorePersonalMessage { email: String, personal_message: String },
}

/// A presence update changes a contact's name and presence only, and its
/// display picture only when the presence announces one: it keeps the
/// address, identifier, lists, personal message and conversation flag; the
/// announced picture is the stored one under the announced hash, or none
/// when none is stored. The notice of a sign-in names the contact.
pub proof fn lemma_presence_update_changes_name_and_presence(
    c: ContactView,
    display_name: Seq<char>,
    p: PresenceView,
    stored: Option<Seq<u8>>,
)
    ensures
        presence_applied(c, display_name, p, stored).email == c.email,
        presence_applied(c, display_name, p, stored).guid == c.guid,
        presence_applied(c, display_name, p, stored).lists == c.lists,
        presence_applied(c, display_name, p, stored).personal_message == c.personal_message,
        presence_applied(c, display_name, p, stored).opening_conversation == c.opening_conversation,
        presence_applied(c, display_name, p, stored).display_name == display_name,
        presence_applied(c, display_name, p, stored).status == Some(p),
        announced_picture(p) is None ==> presence_applied(c, display_name, p, stored).display_picture
            == c.display_picture,
        announced_picture(p) is Some && stored is Some ==> presence_applied(
            c,
            display_name,
            p,
            stored,
        ).display_picture == Some(
            DisplayPictureView { data: stored.unwrap(), hash: announced_picture(p).unwrap() },
        ),
        announced_picture(p) is Some && stored is None ==> presence_applied(
            c,
            display_name,
            p,
            stored,
        ).display_picture is None,
        sign_in_notice(display_name).take(display_name.len() as int) == display_name,
        sign_in_notice(display_name).skip(display_name.len() as int) == " has just signed in"@,
{
    assert(sign_in_notice(display_name).take(display_name.len() as int) =~= display_name);
    assert(sign_in_notice(display_name).skip(display_name.len() as int) =~= " has just signed in"@);
}

/// A contact that enters the list is offline, with no picture or personal
/// message, under the address, name, identifier and lists it came with.
pub proof fn lemma_listed_contact(email: Seq<char>, display_name: Seq<char>, guid: Seq<char>, lists: Seq<MsnList>)
    ensures
        listed_contact(email, display_name, guid, lists).email == email,
        listed_contact(email, display_name, guid, lists).display_name == display_name,
        listed_contact(email, display_name, guid, lists).guid == guid,
        listed_contact(email, display_name, guid, lists).lists == lists,
        listed_contact(email, display_name, guid, lists).status is None,
        listed_contact(email, display_name, guid, lists).personal_message is None,
        listed_contact(email, display_name, guid, lists).display_picture is None,
        !listed_contact(email, display_name, guid, lists).opening_conversation,
{
}

impl Contacts {
    pub open spec fn wf(self) -> bool {
        &&& unique_sessions(self.orphan_switchboards@.map_values(|o: OrphanSwitchboard| o@))
        &&& self.online_contacts.wf()
        &&& self.offline_contacts.wf()
        &&& self.contact_repository.wf()
    }

    /// The contacts online, by address.
    pub open spec fn online(self) -> Map<Seq<char>, ContactView> {
        self.online_contacts@
    }

    /// The contacts offline, by address.
    pub open spec fn offline(self) -> Map<Seq<char>, ContactView> {
        self.offline_contacts@
    }

    /// The switchboards no window took yet: their participants by session.
    pub open spec fn orphans(self) -> Map<Seq<char>, Seq<Seq<char>>> {
        by_session(self.orphan_switchboards@.map_values(|o: OrphanSwitchboard| o@))
    }

    /// The repository, by address.
    pub open spec fn repository(self) -> Map<Seq<char>, ContactView> {
        self.contact_repository@
    }

    /// The contact with this address: the one online, else the one offline.
    pub open spec fn spec_find(self, email: Seq<char>) -> Option<ContactView> {
        if self.online().contains_key(email) {
            Some(self.online()[email])
        } else if self.offline().contains_key(email) {
            Some(self.offline()[email])
        } else {
            None
        }
    }

    /// `after` has the contact with this address replaced by `n` in the table
    /// that holds it (online, else offline), and both tables otherwise as
    /// they were.
    pub open spec fn replaced(self, email: Seq<char>, n: ContactView, after: Contacts) -> bool {
        if self.online().contains_key(email) {
            after.online() == self.online().insert(email, n) && after.offline() == self.offline()
        } else {
            after.offline() == self.offline().insert(email, n) && after.online() == self.online()
        }
    }

    /// The list's state is consistent: a contact is online or offline, not
    /// both; it is online exactly when it has a presence; and the repository
    /// holds the same contacts (their conversation flag aside).
    pub open spec fn consistent(self) -> bool {
        &&& self.tables_consistent()
        &&& self.repository_mirrors()
    }

    /// The two tables agree: a contact is online or offline, not both, and
    /// it is online exactly when it has a presence.
    pub open spec fn tables_consistent(self) -> bool {
        &&& forall|k: Seq<char>|
            #[trigger] self.online().contains_key(k) ==> !self.offline().contains_key(k)
        &&& forall|k: Seq<char>|
            #[trigger] self.online().contains_key(k) ==> self.online()[k].status is Some
        &&& forall|k: Seq<char>|
            #[trigger] self.offline().contains_key(k) ==> self.offline()[k].status is None
    }

    /// The repository holds the contacts of both tables, their conversation
    /// flag aside.
    pub open spec fn repository_mirrors(self) -> bool {
        &&& forall|k: Seq<char>|
            #[trigger] self.repository().contains_key(k) <==> (self.online().contains_key(k)
                || self.offline().contains_key(k))
        &&& forall|k: Seq<char>|
            #[trigger] self.online().contains_key(k) ==> without_flag(self.repository()[k])
                == without_flag(self.online()[k])
        &&& forall|k: Seq<char>|
            #[trigger] self.offline().contains_key(k) ==> without_flag(self.repository()[k])
                == without_flag(self.offline()[k])
    }

    /// The screen right after signing in: no contacts yet.
    pub fn new(
        user_email: String,
        status: PresenceStatus,
        personal_message: String,
        display_picture: Option<DisplayPicture>,
    ) -> (r: Contacts)
        ensures
            r.wf(),
            r.consistent(),
            r.tables_consistent(),
            r.user_email@ == user_email@,
            r.display_name@ == Seq::<char>::empty(),
            r.personal_message@ == personal_message@,
            opt_view(r.display_picture) == opt_view(display_picture),
            r.selected_status == Status::spec_from_presence(status),
            r.selected_contact is None,
            r.msn_today_url is None,
            r.online() == Map::<Seq<char>, ContactView>::empty(),
            r.offline() == Map::<Seq<char>, ContactView>::empty(),
            r.repository() == Map::<Seq<char>, ContactView>::empty(),
            r.orphan_switchboards@.len() == 0,
    {
        Contacts {
            user_email,
            display_name: String::new(),
            personal_message,
            display_picture,
            selected_status: Status::from_presence(status),
            selected_contact: None,
            msn_today_url: None,
            online_contacts: ContactTable::new(),
            offline_contacts: ContactTable::new(),
            contact_repository: ContactRepository::new(),
            orphan_switchboards: Vec::new(),
        }
    }

    /// A copy of the contact with this address, and whether it is online.
    fn find(&self, email: &String) -> (r: Option<(Contact, bool)>)
        requires
            self.wf(),
        ensures
            r is None <==> self.spec_find(email@) is None,
            r matches Some((c, on)) ==> Some(c@) == self.spec_find(email@) && on
                == self.online().contains_key(email@) && c.email@ == email@,
    {
        proof {
            self.online_contacts.lemma_valid();
            self.offline_contacts.lemma_valid();
        }
        match self.online_contacts.get(email.as_str()) {
            Some(c) => Some((c, true)),
            None => match self.offline_contacts.get(email.as_str()) {
                Some(c) => Some((c, false)),
                None => None,
            },
        }
    }

    /// Puts a changed contact back where it was found.
    fn put_back(&mut self, c: Contact, online: bool)
        requires
            old(self).wf(),
        ensures
            final(self).wf(),
            online ==> final(self).online() == old(self).online().insert(c.email@, c@)
                && final(self).offline() == old(self).offline(),
            !online ==> final(self).offline() == old(self).offline().insert(c.email@, c@)
                && final(self).online() == old(self).online(),
            final(self).repository() == old(self).repository(),
            final(self).user_email == old(self).user_email,
            final(self).display_name == old(self).display_name,
            final(self).personal_message == old(self).personal_message,
            final(self).display_picture == old(self).display_picture,
            final(self).selected_status == old(self).selected_status,
            final(self).selected_contact == old(self).selected_contact,
            final(self).msn_today_url == old(self).msn_today_url,
            final(self).orphan_switchboards == old(self).orphan_switchboards,
    {
        if online {
            self.online_contacts.insert(c);
        } else {
            self.offline_contacts.insert(c);
        }
    }

    /// The user's display name, as the server sent it.
    pub fn on_display_name(&mut self, display_name: String)
        ensures
            *final(self) == (Contacts { display_name: final(self).display_name, ..*old(self) }),
            final(self).display_name@ == display_name@,
            final(self).online() == old(self).online(),
            final(self).offline() == old(self).offline(),
            final(self).repository() == old(self).repository(),
            final(self).wf() == old(self).wf(),
            final(self).consistent() == old(self).consistent(),
            final(self).tables_consistent() == old(self).tables_consistent(),
    {
        self.display_name = display_name;
    }

    /// A contact of the forward list, as the server lists it after sign-in
    /// or after adding a contact: it is known, and offline.
    pub fn on_contact_in_forward_list(
        &mut self,
        email: String,
        display_name: String,
        guid: String,
        lists: Vec<MsnList>,
    )
        requires
            old(self).wf(),
        ensures
            *final(self) == (Contacts { online_contacts: final(self).online_contacts, offline_contacts: final(self).offline_contacts, contact_repository: final(self).contact_repository, ..*old(self) }),
            final(self).wf(),
            final(self).offline() == old(self).offline().insert(
                email@,
                listed_contact(email@, display_name@, guid@, lists@),
            ),
            final(self).repository() == old(self).repository().insert(
                email@,
                listed_contact(email@, display_name@, guid@, lists@),
            ),
            final(self).online() == old(self).online(),
            old(self).consistent() && !old(self).online().contains_key(email@)
                ==> final(self).consistent(),
            old(self).tables_consistent() && !old(self).online().contains_key(email@)
                ==> final(self).tables_consistent(),
    {
        let contact = Contact {
            email,
            display_name,
            guid,
            lists,
            status: None,
            personal_message: None,
            display_picture: None,
            opening_conversation: false,
        };
        self.contact_repository.update_contact(&contact);
        self.offline_contacts.insert(contact);
    }

    /// A contact's presence changed: it takes the new display name, presence
    /// and announced picture (`stored_picture` is the picture stored under
    /// the hash it announces); a contact that had no presence comes online,
    /// and unless this is the initial presence sent at sign-in, the user is
    /// told (when `notify_sign_ins` is set and the user is not busy). The
    /// result is the text of that notification.
    pub fn on_presence_update(
        &mut self,
        email: &String,
        display_name: String,
        presence: Presence,
        stored_picture: Option<Vec<u8>>,
        initial: bool,
        notify_sign_ins: bool,
    ) -> (notice: Option<String>)
        requires
            old(self).wf(),
        ensures
            *final(self) == (Contacts { online_contacts: final(self).online_contacts, offline_contacts: final(self).offline_contacts, contact_repository: final(self).contact_repository, ..*old(self) }),
            final(self).wf(),
            old(self).consistent() ==> final(self).consistent(),
            old(self).tables_consistent() ==> final(self).tables_consistent(),
            old(self).spec_find(email@) is None ==> notice is None && final(self).online()
                == old(self).online() && final(self).offline() == old(self).offline()
                && final(self).repository() == old(self).repository(),
            old(self).spec_find(email@) matches Some(c) ==> ({
                let n = presence_applied(c, display_name@, presence@, opt_view(stored_picture));
                &&& final(self).repository() == old(self).repository().insert(email@, n)
                &&& c.status is None ==> {
                    &&& final(self).online() == old(self).online().insert(email@, n)
                    &&& final(self).offline() == old(self).offline().remove(email@)
                    &&& opt_view(notice) == if !initial && notify_sign_ins
                        && old(self).selected_status != Status::Busy {
                        Some(sign_in_notice(display_name@))
                    } else {
                        None
                    }
                }
                &&& c.status is Some ==> {
                    &&& notice is None
                    &&& old(self).online().contains_key(email@) ==> final(self).online()
                        == old(self).online().insert(email@, n) && final(self).offline()
                        == old(self).offline()
                    &&& !old(self).online().contains_key(email@) ==> final(self).offline()
                        == old(self).offline().insert(email@, n) && final(self).online()
                        == old(self).online()
                }
            }),
            final(self).selected_status == old(self).selected_status,
    {
        let ghost old_self = *self;
        match self.find(email) {
            None => None,
            Some((mut c, online)) => {
                let ghost c0 = c@;
                match presence.picture_hash() {
                    Some(hash) => {
                        c.display_picture = match stored_picture {
                            Some(data) => Some(DisplayPicture { data, hash }),
                            None => None,
                        };
                    },
                    None => {},
                }
                let had_presence = c.status.is_some();
                c.display_name = display_name;
                c.status = Some(presence);
                proof {
                    assert(c@ == presence_applied(c0, c@.display_name, c@.status.unwrap(), opt_view(stored_picture)));
                }
                self.contact_repository.update_contact(&c);
                if !had_presence {
                    let notice = if !initial && notify_sign_ins && self.selected_status
                        != Status::Busy {
                        Some(c.display_name.clone().concat(" has just signed in"))
                    } else {
                        None
                    };
                    let _ = self.offline_contacts.remove(email.as_str());
                    self.online_contacts.insert(c);
                    proof {
                        if old_self.consistent() {
                            self.assert_consistent_after_move_online(old_self, email@);
                        }
                    }
                    notice
                } else {
                    self.put_back(c, online);
                    proof {
                        if old_self.consistent() {
                            assert(online);
                            assert(self.consistent());
                        }
                    }
                    None
                }
            },
        }
    }

    /// A contact's personal message changed.
    pub fn on_personal_message_update(&mut self, email: &String, personal_message: String)
        requires
            old(self).wf(),
        ensures
            *final(self) == (Contacts { online_contacts: final(self).online_contacts, offline_contacts: final(self).offline_contacts, contact_repository: final(self).contact_repository, ..*old(self) }),
            final(self).wf(),
            old(self).consistent() ==> final(self).consistent(),
            old(self).tables_consistent() ==> final(self).tables_consistent(),
            old(self).spec_find(email@) is None ==> final(self).online() == old(self).online()
                && final(self).offline() == old(self).offline() && final(self).repository()
                == old(self).repository(),
            old(self).spec_find(email@) matches Some(c) ==> ({
                let n = ContactView { personal_message: Some(personal_message@), ..c };
                &&& final(self).repository() == old(self).repository().insert(email@, n)
                &&& old(self).online().contains_key(email@) ==> final(self).online()
                    == old(self).online().insert(email@, n) && final(self).offline()
                    == old(self).offline()
                &&& !old(self).online().contains_key(email@) ==> final(self).offline()
                    == old(self).offline().insert(email@, n) && final(self).online()
                    == old(self).online()
            }),
    {
        if let Some((mut c, online)) = self.find(email) {
            c.personal_message = Some(personal_message);
            self.contact_repository.update_contact(&c);
            self.put_back(c, online);
        }
    }

    /// A contact went offline: it loses its presence and moves to the
    /// offline contacts.
    pub fn on_contact_offline(&mut self, email: &String)
        requires
            old(self).wf(),
        ensures
            *final(self) == (Contacts { online_contacts: final(self).online_contacts, offline_contacts: final(self).offline_contacts, contact_repository: final(self).contact_repository, ..*old(self) }),
            final(self).wf(),
            old(self).consistent() ==> final(self).consistent(),
            old(self).tables_consistent() ==> final(self).tables_consistent(),
            old(self).spec_find(email@) is None ==> final(self).online() == old(self).online()
                && final(self).offline() == old(self).offline() && final(self).repository()
                == old(self).repository(),
            old(self).spec_find(email@) matches Some(c) ==> ({
                let n = ContactView { status: None, ..c };
                &&& final(self).repository() == old(self).repository().insert(email@, n)
                &&& final(self).online() == old(self).online().remove(email@)
                &&& final(self).offline() == old(self).offline().insert(email@, n)
            }),
    {
        if let Some((mut c, _online)) = self.find(email) {
            c.status = None;
            self.contact_repository.update_contact(&c);
            let _ = self.online_contacts.remove(email.as_str());
            self.offline_contacts.insert(c);
        }
    }

    /// Changes the lists of a contact, where it is found.
    fn change_lists(&mut self, email: &String, block: bool)
        requires
            old(self).wf(),
        ensures
            *final(self) == (Contacts { online_contacts: final(self).online_contacts, offline_contacts: final(self).offline_contacts, contact_repository: final(self).contact_repository, ..*old(self) }),
            final(self).wf(),
            old(self).consistent() ==> final(self).consistent(),
            old(self).tables_consistent() ==> final(self).tables_consistent(),
            old(self).spec_find(email@) is None ==> final(self).online() == old(self).online()
                && final(self).offline() == old(self).offline() && final(self).repository()
                == old(self).repository(),
            old(self).spec_find(email@) matches Some(c) ==> ({
                let n = ContactView {
                    lists: if block {
                        blocked_lists(c.lists)
                    } else {
                        unblocked_lists(c.lists)
                    },
                    ..c
                };
                &&& final(self).repository() == old(self).repository().insert(email@, n)
                &&& old(self).online().contains_key(email@) ==> final(self).online()
                    == old(self).online().insert(email@, n) && final(self).offline()
                    == old(self).offline()
                &&& !old(self).online().contains_key(email@) ==> final(self).offline()
                    == old(self).offline().insert(email@, n) && final(self).online()
                    == old(self).online()
            }),
            final(self).user_email == old(self).user_email,
    {
        if let Some((mut c, online)) = self.find(email) {
            c.lists = if block {
                block_lists(&c.lists)
            } else {
                unblock_lists(&c.lists)
            };
            self.contact_repository.update_contact(&c);
            self.put_back(c, online);
        }
    }

    /// The server answered a request to block a contact: on success the
    /// contact joins the block list and leaves the allow list; an error is
    /// handed back, to be shown.
    pub fn on_block_result(&mut self, email: &String, result: Result<(), String>) -> (dialog:
        Option<String>)
        requires
            old(self).wf(),
        ensures
            *final(self) == (Contacts { online_contacts: final(self).online_contacts, offline_contacts: final(self).offline_contacts, contact_repository: final(self).contact_repository, ..*old(self) }),
            final(self).wf(),
            old(self).consistent() ==> final(self).consistent(),
            old(self).tables_consistent() ==> final(self).tables_consistent(),
            result is Err ==> opt_view(dialog) == Some(result->Err_0@) && final(self).online()
                == old(self).online() && final(self).offline() == old(self).offline()
                && final(self).repository() == old(self).repository(),
            result is Ok ==> dialog is None && (old(self).spec_find(email@) is None
                ==> final(self).online() == old(self).online() && final(self).offline()
                == old(self).offline() && final(self).repository() == old(self).repository()),
            result is Ok ==> (old(self).spec_find(email@) matches Some(c) ==> ({
                let n = ContactView { lists: blocked_lists(c.lists), ..c };
                &&& final(self).repository() == old(self).repository().insert(email@, n)
                &&& old(self).replaced(email@, n, *final(self))
            })),
    {
        match result {
            Err(e) => Some(e),
            Ok(()) => {
                self.change_lists(email, true);
                None
            },
        }
    }

    /// The server answered a request to unblock a contact: on success the
    /// contact leaves the block list and joins the allow list; an error is
    /// handed back, to be shown.
    pub fn on_unblock_result(&mut self, email: &String, result: Result<(), String>) -> (dialog:
        Option<String>)
        requires
            old(self).wf(),
        ensures
            *final(self) == (Contacts { online_contacts: final(self).online_contacts, offline_contacts: final(self).offline_contacts, contact_repository: final(self).contact_repository, ..*old(self) }),
            final(self).wf(),
            old(self).consistent() ==> final(self).consistent(),
            old(self).tables_consistent() ==> final(self).tables_consistent(),
            result is Err ==> opt_view(dialog) == Some(result->Err_0@) && final(self).online()
                == old(self).online() && final(self).offline() == old(self).offline()
                && final(self).repository() == old(self).repository(),
            result is Ok ==> dialog is None && (old(self).spec_find(email@) is None
                ==> final(self).online() == old(self).online() && final(self).offline()
                == old(self).offline() && final(self).repository() == old(self).repository()),
            result is Ok ==> (old(self).spec_find(email@) matches Some(c) ==> ({
                let n = ContactView { lists: unblocked_lists(c.lists), ..c };
                &&& final(self).repository() == old(self).repository().insert(email@, n)
                &&& old(self).replaced(email@, n, *final(self))
            })),
    {
        match result {
            Err(e) => Some(e),
            Ok(()) => {
                self.change_lists(email, false);
                None
            },
        }
    }

    /// The server answered a request to delete a contact: on success it is
    /// gone from the list and the repository; an error is handed back.
    pub fn on_delete_result(&mut self, email: &String, result: Result<(), String>) -> (dialog:
        Option<String>)
        requires
            old(self).wf(),
        ensures
            *final(self) == (Contacts { online_contacts: final(self).online_contacts, offline_contacts: final(self).offline_contacts, contact_repository: final(self).contact_repository, ..*old(self) }),
            final(self).wf(),
            old(self).consistent() ==> final(self).consistent(),
            old(self).tables_consistent() ==> final(self).tables_consistent(),
            result is Err ==> opt_view(dialog) == Some(result->Err_0@) && final(self).online()
                == old(self).online() && final(self).offline() == old(self).offline()
                && final(self).repository() == old(self).repository(),
            result is Ok ==> dialog is None && final(self).online() == old(self).online().remove(
                email@,
            ) && final(self).offline() == old(self).offline().remove(email@)
                && final(self).repository() == old(self).repository().remove(email@),
    {
        match result {
            Err(e) => Some(e),
            Ok(()) => {
                let _ = self.online_contacts.remove(email.as_str());
                let _ = self.offline_contacts.remove(email.as_str());
                self.contact_repository.remove_contact(email);
                None
            },
        }
    }

    /// A contact's display picture arrived. When the contact announced a
    /// picture, it becomes the contact's picture under the announced hash,
    /// which is handed back for the picture to be stored under.
    pub fn on_contact_display_picture(&mut self, email: &String, data: Vec<u8>) -> (hash: Option<
        String,
    >)
        requires
            old(self).wf(),
        ensures
            *final(self) == (Contacts { online_contacts: final(self).online_contacts, offline_contacts: final(self).offline_contacts, contact_repository: final(self).contact_repository, ..*old(self) }),
            final(self).wf(),
            old(self).consistent() ==> final(self).consistent(),
            old(self).tables_consistent() ==> final(self).tables_consistent(),
            old(self).spec_find(email@) is None ==> hash is None && final(self).online()
                == old(self).online() && final(self).offline() == old(self).offline()
                && final(self).repository() == old(self).repository(),
            old(self).spec_find(email@) matches Some(c) ==> ({
                let announced = match c.status {
                    Some(p) => match p.msn_object {
                        Some(o) => Some(o.sha1d),
                        None => None,
                    },
                    None => None,
                };
                let n = match announced {
                    Some(h) => ContactView {
                        display_picture: Some(DisplayPictureView { data: data@, hash: h }),
                        ..c
                    },
                    None => c,
                };
                &&& opt_view(hash) == announced
                &&& final(self).repository() == old(self).repository().insert(email@, n)
                &&& old(self).replaced(email@, n, *final(self))
            }),
    {
        match self.find(email) {
            None => None,
            Some((mut c, online)) => {
                let hash = match &c.status {
                    Some(p) => match &p.msn_object {
                        Some(o) => Some(o.sha1d.clone()),
                        None => None,
                    },
                    None => None,
                };
                match &hash {
                    Some(h) => {
                        c.display_picture = Some(DisplayPicture { data, hash: h.clone() });
                    },
                    None => {},
                }
                self.contact_repository.update_contact(&c);
                self.put_back(c, online);
                hash
            },
        }
    }

    /// The conversation window with this contact is open: the contact may
    /// be asked for a conversation again.
    pub fn on_chat_window_focused(&mut self, email: &String)
        requires
            old(self).wf(),
        ensures
            *final(self) == (Contacts { online_contacts: final(self).online_contacts, offline_contacts: final(self).offline_contacts, contact_repository: final(self).contact_repository, ..*old(self) }),
            final(self).wf(),
            old(self).consistent() ==> final(self).consistent(),
            old(self).tables_consistent() ==> final(self).tables_consistent(),
            final(self).repository() == old(self).repository(),
            old(self).spec_find(email@) is None ==> final(self).online() == old(self).online()
                && final(self).offline() == old(self).offline(),
            old(self).spec_find(email@) matches Some(c) ==> old(self).replaced(
                email@,
                ContactView { opening_conversation: false, ..c },
                *final(self),
            ),
    {
        if let Some((mut c, online)) = self.find(email) {
            c.opening_conversation = false;
            self.put_back(c, online);
        }
    }

    /// The user asked for a conversation with a contact. It opens when the
    /// contact is online, no conversation with it is being opened, and the
    /// user does not appear offline; the contact is then marked as having a
    /// conversation being opened and handed back.
    pub fn open_conversation(&mut self, email: &String) -> (r: Option<Contact>)
        requires
            old(self).wf(),
        ensures
            *final(self) == (Contacts { online_contacts: final(self).online_contacts, offline_contacts: final(self).offline_contacts, contact_repository: final(self).contact_repository, ..*old(self) }),
            final(self).wf(),
            old(self).consistent() ==> final(self).consistent(),
            old(self).tables_consistent() ==> final(self).tables_consistent(),
            final(self).repository() == old(self).repository(),
            r is None ==> final(self).online() == old(self).online() && final(self).offline()
                == old(self).offline(),
            r is Some <==> (old(self).spec_find(email@) matches Some(c) && c.status is Some
                && !c.opening_conversation && old(self).selected_status != Status::AppearOffline),
            r matches Some(c) ==> c@ == (ContactView {
                opening_conversation: true,
                ..old(self).spec_find(email@).unwrap()
            }) && old(self).replaced(email@, c@, *final(self)),
    {
        match self.find(email) {
            Some((mut c, online)) => {
                if c.status.is_some() && !c.opening_conversation && self.selected_status
                    != Status::AppearOffline {
                    c.opening_conversation = true;
                    let r = c.duplicate();
                    self.put_back(c, online);
                    Some(r)
                } else {
                    None
                }
            },
            None => None,
        }
    }

    /// A click on a contact selects it.
    pub fn select_contact(&mut self, email: String)
        ensures
            *final(self) == (Contacts { selected_contact: final(self).selected_contact, ..*old(self) }),
            opt_view(final(self).selected_contact) == Some(email@),
            final(self).online() == old(self).online(),
            final(self).offline() == old(self).offline(),
            final(self).repository() == old(self).repository(),
            final(self).wf() == old(self).wf(),
            final(self).consistent() == old(self).consistent(),
            final(self).tables_consistent() == old(self).tables_consistent(),
    {
        self.selected_contact = Some(email);
    }

    /// A click on the header of the online (or offline) category clears the
    /// selection when the selected contact is in that category.
    pub fn category_header_clicked(&mut self, online: bool)
        requires
            old(self).wf(),
        ensures
            *final(self) == (Contacts { selected_contact: final(self).selected_contact, ..*old(self) }),
            final(self).selected_contact is None <==> (old(self).selected_contact is None || ({
                let e = old(self).selected_contact.unwrap()@;
                if online {
                    old(self).online().contains_key(e)
                } else {
                    old(self).offline().contains_key(e)
                }
            })),
            final(self).selected_contact is Some ==> final(self).selected_contact
                == old(self).selected_contact,
            final(self).online() == old(self).online(),
            final(self).offline() == old(self).offline(),
            final(self).repository() == old(self).repository(),
            final(self).wf(),
            final(self).consistent() == old(self).consistent(),
            final(self).tables_consistent() == old(self).tables_consistent(),
    {
        let clear = match &self.selected_contact {
            Some(e) => if online {
                self.online_contacts.contains(e.as_str())
            } else {
                self.offline_contacts.contains(e.as_str())
            },
            None => false,
        };
        if clear {
            self.selected_contact = None;
        }
    }

    /// The server answered a request to add a contact: the added contact is
    /// listed offline; an error is handed back, to be shown.
    pub fn on_add_contact_result(
        &mut self,
        result: Result<(String, String, String, Vec<MsnList>), String>,
    ) -> (dialog: Option<String>)
        requires
            old(self).wf(),
        ensures
            *final(self) == (Contacts { online_contacts: final(self).online_contacts, offline_contacts: final(self).offline_contacts, contact_repository: final(self).contact_repository, ..*old(self) }),
            final(self).wf(),
            result is Err ==> opt_view(dialog) == Some(result->Err_0@) && final(self).online()
                == old(self).online() && final(self).offline() == old(self).offline()
                && final(self).repository() == old(self).repository(),
            result matches Ok((email, display_name, guid, lists)) ==> ({
                let c = listed_contact(email@, display_name@, guid@, lists@);
                &&& dialog is None
                &&& final(self).offline() == old(self).offline().insert(email@, c)
                &&& final(self).repository() == old(self).repository().insert(email@, c)
                &&& final(self).online() == old(self).online()
                &&& old(self).consistent() && !old(self).online().contains_key(email@)
                    ==> final(self).consistent()
                &&& old(self).tables_consistent() && !old(self).online().contains_key(email@)
                    ==> final(self).tables_consistent()
            }),
    {
        match result {
            Err(e) => Some(e),
            Ok((email, display_name, guid, lists)) => {
                self.on_contact_in_forward_list(email, display_name, guid, lists);
                None
            },
        }
    }

    /// The server answered a request to set the user's personal message: on
    /// success it is remembered for the user; an error is shown.
    pub fn on_personal_message_result(&self, result: Result<(), String>) -> (effect: ResultEffect)
        ensures
            result matches Err(e) ==> effect matches ResultEffect::Dialog(t) && t@ == e@,
            result is Ok ==> (effect matches ResultEffect::StorePersonalMessage {
                email,
                personal_message,
            } && email@ == self.user_email@ && personal_message@ == self.personal_message@),
    {
        match result {
            Err(e) => ResultEffect::Dialog(e),
            Ok(()) => ResultEffect::StorePersonalMessage {
                email: self.user_email.clone(),
                personal_message: self.personal_message.clone(),
            },
        }
    }

    /// The server answered a request to change the user's presence: on
    /// success the conversations learn of it; an error is shown.
    pub fn on_status_result(&self, status: PresenceStatus, result: Result<(), String>) -> (effect:
        ResultEffect)
        ensures
            result matches Err(e) ==> effect matches ResultEffect::Dialog(t) && t@ == e@,
            result is Ok ==> effect == ResultEffect::UserStatusChanged(status),
    {
        match result {
            Err(e) => ResultEffect::Dialog(e),
            Ok(()) => ResultEffect::UserStatusChanged(status),
        }
    }

    /// A new display picture was set for the user.
    pub fn on_display_picture_result(&mut self, picture: DisplayPicture)
        ensures
            *final(self) == (Contacts { display_picture: final(self).display_picture, ..*old(self) }),
            opt_view(final(self).display_picture) == Some(picture@),
            final(self).online() == old(self).online(),
            final(self).offline() == old(self).offline(),
            final(self).repository() == old(self).repository(),
            final(self).wf() == old(self).wf(),
            final(self).consistent() == old(self).consistent(),
            final(self).tables_consistent() == old(self).tables_consistent(),
    {
        self.display_picture = Some(picture);
    }

    /// The address of the "MSN Today" page arrived with the configuration.
    pub fn on_config(&mut self, msn_today_url: String)
        ensures
            *final(self) == (Contacts { msn_today_url: final(self).msn_today_url, ..*old(self) }),
            opt_view(final(self).msn_today_url) == Some(msn_today_url@),
            final(self).online() == old(self).online(),
            final(self).offline() == old(self).offline(),
            final(self).repository() == old(self).repository(),
            final(self).wf() == old(self).wf(),
            final(self).consistent() == old(self).consistent(),
            final(self).tables_consistent() == old(self).tables_consistent(),
    {
        self.msn_today_url = Some(msn_today_url);
    }

    /// Where the switchboard of a session is kept.
    fn orphan_index(&self, session_id: &String) -> (r: Option<usize>)
        requires
            self.wf(),
        ensures
            r is None <==> !self.orphans().contains_key(session_id@),
            r matches Some(i) ==> i < self.orphan_switchboards@.len()
                && self.orphan_switchboards@[i as int].session_id@ == session_id@,
    {
        let ghost s = self.orphan_switchboards@.map_values(|o: OrphanSwitchboard| o@);
        let mut i: usize = 0;
        while i < self.orphan_switchboards.len()
            invariant
                i <= self.orphan_switchboards.len(),
                s == self.orphan_switchboards@.map_values(|o: OrphanSwitchboard| o@),
                forall|k: int| 0 <= k < i ==> (#[trigger] s[k]).0 != session_id@,
            decreases self.orphan_switchboards.len() - i,
        {
            assert(s[i as int].0 == self.orphan_switchboards@[i as int].session_id@);
            if crate::text::same_text(
                self.orphan_switchboards[i].session_id.as_str(),
                session_id.as_str(),
            ) {
                proof {
                    assert(s[i as int].0 == session_id@);
                }
                return Some(i);
            }
            i = i + 1;
        }
        None
    }

    /// A contact answered an invitation to a switchboard session that no
    /// window holds yet: it is kept, with nobody in it so far.
    pub fn on_session_answered(&mut self, session_id: String)
        requires
            old(self).wf(),
        ensures
            *final(self) == (Contacts { orphan_switchboards: final(self).orphan_switchboards, ..*old(self) }),
            final(self).wf(),
            final(self).orphans() == old(self).orphans().insert(session_id@, Seq::empty()),
            final(self).online() == old(self).online(),
            final(self).offline() == old(self).offline(),
            final(self).repository() == old(self).repository(),
            old(self).consistent() ==> final(self).consistent(),
            old(self).tables_consistent() ==> final(self).tables_consistent(),
    {
        let ghost s = self.orphan_switchboards@.map_values(|o: OrphanSwitchboard| o@);
        let ghost id = session_id@;
        let fresh = OrphanSwitchboard { session_id, participants: Vec::new() };
        assert(fresh@ == (id, Seq::<Seq<char>>::empty())) by {
            assert(fresh.participants@.map_values(|p: String| p@) =~= Seq::<Seq<char>>::empty());
        }
        match self.orphan_index(&fresh.session_id) {
            Some(i) => {
                self.orphan_switchboards.set(i, fresh);
                let ghost t = self.orphan_switchboards@.map_values(|o: OrphanSwitchboard| o@);
                proof {
                    assert(t =~= s.update(i as int, (id, Seq::<Seq<char>>::empty())));
                    assert forall|a: int, b: int|
                        #![trigger t[a], t[b]]
                        0 <= a < b < t.len() implies t[a].0 != t[b].0 by {
                        assert(t[a].0 == s[a].0 && t[b].0 == s[b].0);
                    }
                    assert forall|k: Seq<char>|
                        #[trigger] by_session(t).contains_key(k) == old(self).orphans().insert(
                            id,
                            Seq::empty(),
                        ).contains_key(k) by {
                        if by_session(s).contains_key(k) {
                            let j = choose|j: int| 0 <= j < s.len() && (#[trigger] s[j]).0 == k;
                            assert(t[j].0 == k);
                        }
                        if by_session(t).contains_key(k) {
                            let j = choose|j: int| 0 <= j < t.len() && (#[trigger] t[j]).0 == k;
                            assert(s[j].0 == k);
                        }
                    }
                    assert forall|k: Seq<char>| #[trigger]
                        by_session(t).contains_key(k) implies by_session(t)[k] == old(self).orphans().insert(id, Seq::empty())[k] by {
                        let j = choose|j: int| 0 <= j < t.len() && (#[trigger] t[j]).0 == k;
                        lemma_by_session_at(t, j);
                        assert(s[i as int].0 == id);
                        if j != i {
                            assert(s[j] == t[j]);
                            lemma_by_session_at(s, j);
                            if j < i {
                                assert(s[j].0 != s[i as int].0);
                            } else {
                                assert(s[i as int].0 != s[j].0);
                            }
                        } else {
                            assert(t[j] == (id, Seq::<Seq<char>>::empty()));
                        }
                    }
                    assert(by_session(t) =~= old(self).orphans().insert(id, Seq::empty()));
                }
            },
            None => {
                self.orphan_switchboards.push(fresh);
                let ghost t = self.orphan_switchboards@.map_values(|o: OrphanSwitchboard| o@);
                proof {
                    assert(t =~= s.push((id, Seq::<Seq<char>>::empty())));
                    assert forall|a: int, b: int|
                        #![trigger t[a], t[b]]
                        0 <= a < b < t.len() implies t[a].0 != t[b].0 by {
                        if b == s.len() {
                            assert(t[a] == s[a]);
                            if s[a].0 == id {
                                assert(by_session(s).contains_key(id));
                            }
                        } else {
                            assert(t[a] == s[a] && t[b] == s[b]);
                        }
                    }
                    assert forall|k: Seq<char>|
                        #[trigger] by_session(t).contains_key(k) == old(self).orphans().insert(
                            id,
                            Seq::empty(),
                        ).contains_key(k) by {
                        if by_session(s).contains_key(k) {
                            let j = choose|j: int| 0 <= j < s.len() && (#[trigger] s[j]).0 == k;
                            assert(t[j].0 == k);
                        }
                        if k == id {
                            assert(t[s.len() as int].0 == k);
                        }
                        if by_session(t).contains_key(k) && k != id {
                            let j = choose|j: int| 0 <= j < t.len() && (#[trigger] t[j]).0 == k;
                            assert(j < s.len());
                            assert(s[j].0 == k);
                        }
                    }
                    assert forall|k: Seq<char>| #[trigger]
                        by_session(t).contains_key(k) implies by_session(t)[k] == old(self).orphans().insert(id, Seq::empty())[k] by {
                        let j = choose|j: int| 0 <= j < t.len() && (#[trigger] t[j]).0 == k;
                        lemma_by_session_at(t, j);
                        if j < s.len() {
                            assert(s[j] == t[j]);
                            lemma_by_session_at(s, j);
                            assert(k != id);
                        } else {
                            assert(t[j] == (id, Seq::<Seq<char>>::empty()));
                        }
                    }
                    assert(by_session(t) =~= old(self).orphans().insert(id, Seq::empty()));
                }
            },
        }
    }

    /// Someone joined or left the switchboard of a session no window holds:
    /// its participants become `update(participants)`.
    fn change_orphan(&mut self, i: usize, participants: Vec<String>)
        requires
            old(self).wf(),
            i < old(self).orphan_switchboards@.len(),
        ensures
            *final(self) == (Contacts { orphan_switchboards: final(self).orphan_switchboards, ..*old(self) }),
            final(self).wf(),
            final(self).orphans() == old(self).orphans().insert(
                old(self).orphan_switchboards@[i as int].session_id@,
                participants@.map_values(|p: String| p@),
            ),
            final(self).online() == old(self).online(),
            final(self).offline() == old(self).offline(),
            final(self).repository() == old(self).repository(),
            old(self).consistent() ==> final(self).consistent(),
            old(self).tables_consistent() ==> final(self).tables_consistent(),
    {
        let ghost s = self.orphan_switchboards@.map_values(|o: OrphanSwitchboard| o@);
        let id = self.orphan_switchboards[i].session_id.clone();
        let ghost pv = participants@.map_values(|p: String| p@);
        let fresh = OrphanSwitchboard { session_id: id, participants };
        self.orphan_switchboards.set(i, fresh);
        let ghost t = self.orphan_switchboards@.map_values(|o: OrphanSwitchboard| o@);
        let ghost k0 = s[i as int].0;
        proof {
            assert(t =~= s.update(i as int, (k0, pv)));
            assert forall|a: int, b: int|
                #![trigger t[a], t[b]]
                0 <= a < b < t.len() implies t[a].0 != t[b].0 by {
                assert(t[a].0 == s[a].0 && t[b].0 == s[b].0);
            }
            lemma_by_session_at(s, i as int);
            assert forall|k: Seq<char>|
                #[trigger] by_session(t).contains_key(k) == old(self).orphans().insert(k0, pv).contains_key(
                    k,
                ) by {
                if by_session(s).contains_key(k) {
                    let j = choose|j: int| 0 <= j < s.len() && (#[trigger] s[j]).0 == k;
                    assert(t[j].0 == k);
                }
                if by_session(t).contains_key(k) {
                    let j = choose|j: int| 0 <= j < t.len() && (#[trigger] t[j]).0 == k;
                    assert(s[j].0 == k);
                }
            }
            assert forall|k: Seq<char>| #[trigger]
                by_session(t).contains_key(k) implies by_session(t)[k] == old(self).orphans().insert(
                    k0,
                    pv,
                )[k] by {
                let j = choose|j: int| 0 <= j < t.len() && (#[trigger] t[j]).0 == k;
                lemma_by_session_at(t, j);
                if j != i {
                    assert(s[j] == t[j]);
                    lemma_by_session_at(s, j);
                }
            }
            assert(by_session(t) =~= old(self).orphans().insert(k0, pv));
        }
    }

    /// Someone joined the switchboard of a session no window holds.
    pub fn on_participant_in_switchboard(&mut self, session_id: &String, email: String)
        requires
            old(self).wf(),
        ensures
            *final(self) == (Contacts { orphan_switchboards: final(self).orphan_switchboards, ..*old(self) }),
            final(self).wf(),
            old(self).orphans().contains_key(session_id@) ==> final(self).orphans() == old(self).orphans().insert(session_id@, old(self).orphans()[session_id@].push(email@)),
            !old(self).orphans().contains_key(session_id@) ==> final(self).orphans() == old(self).orphans(),
            final(self).online() == old(self).online(),
            final(self).offline() == old(self).offline(),
            final(self).repository() == old(self).repository(),
            old(self).consistent() ==> final(self).consistent(),
            old(self).tables_consistent() ==> final(self).tables_consistent(),
    {
        if let Some(i) = self.orphan_index(session_id) {
            let ghost s = self.orphan_switchboards@.map_values(|o: OrphanSwitchboard| o@);
            proof {
                lemma_by_session_at(s, i as int);
            }
            let mut participants = crate::screens::contacts::copy_texts(
                &self.orphan_switchboards[i].participants,
            );
            let ghost before = participants@.map_values(|p: String| p@);
            participants.push(email);
            assert(participants@.map_values(|p: String| p@) =~= before.push(
                participants@[participants.len() - 1]@,
            ));
            self.change_orphan(i, participants);
        }
    }

    /// Someone left the switchboard of a session no window holds.
    pub fn on_participant_left_switchboard(&mut self, session_id: &String, email: &String)
        requires
            old(self).wf(),
        ensures
            *final(self) == (Contacts { orphan_switchboards: final(self).orphan_switchboards, ..*old(self) }),
            final(self).wf(),
            old(self).orphans().contains_key(session_id@) ==> final(self).orphans() == old(self).orphans().insert(
                session_id@,
                old(self).orphans()[session_id@].filter(|p: Seq<char>| p != email@),
            ),
            !old(self).orphans().contains_key(session_id@) ==> final(self).orphans() == old(self).orphans(),
            final(self).online() == old(self).online(),
            final(self).offline() == old(self).offline(),
            final(self).repository() == old(self).repository(),
            old(self).consistent() ==> final(self).consistent(),
            old(self).tables_consistent() ==> final(self).tables_consistent(),
    {
        if let Some(i) = self.orphan_index(session_id) {
            let ghost s = self.orphan_switchboards@.map_values(|o: OrphanSwitchboard| o@);
            proof {
                lemma_by_session_at(s, i as int);
            }
            let participants = crate::screens::contacts::texts_without(
                &self.orphan_switchboards[i].participants,
                email,
            );
            self.change_orphan(i, participants);
        }
    }

    /// A message arrived on the switchboard of a session no window holds:
    /// the switchboard is handed over, to a conversation, and no longer kept.
    pub fn take_orphan(&mut self, session_id: &String) -> (r: Option<OrphanSwitchboard>)
        requires
            old(self).wf(),
        ensures
            *final(self) == (Contacts { orphan_switchboards: final(self).orphan_switchboards, ..*old(self) }),
            final(self).wf(),
            r is Some <==> old(self).orphans().contains_key(session_id@),
            r matches Some(o) ==> o@ == (session_id@, old(self).orphans()[session_id@]),
            final(self).orphans() == old(self).orphans().remove(session_id@),
            final(self).online() == old(self).online(),
            final(self).offline() == old(self).offline(),
            final(self).repository() == old(self).repository(),
            old(self).consistent() ==> final(self).consistent(),
            old(self).tables_consistent() ==> final(self).tables_consistent(),
    {
        let ghost s = self.orphan_switchboards@.map_values(|o: OrphanSwitchboard| o@);
        match self.orphan_index(session_id) {
            Some(i) => {
                proof {
                    lemma_by_session_at(s, i as int);
                }
                let o = self.orphan_switchboards.remove(i);
                let ghost t = self.orphan_switchboards@.map_values(|o: OrphanSwitchboard| o@);
                let ghost id = session_id@;
                proof {
                    assert(t =~= s.remove(i as int));
                    assert forall|a: int, b: int|
                        #![trigger t[a], t[b]]
                        0 <= a < b < t.len() implies t[a].0 != t[b].0 by {
                        if b < i {
                            assert(t[a] == s[a] && t[b] == s[b]);
                        } else if a < i {
                            assert(t[a] == s[a] && t[b] == s[b + 1]);
                        } else {
                            assert(t[a] == s[a + 1] && t[b] == s[b + 1]);
                        }
                    }
                    assert forall|k: Seq<char>|
                        #[trigger] by_session(t).contains_key(k) == old(self).orphans().remove(
                            id,
                        ).contains_key(k) by {
                        if by_session(s).contains_key(k) && k != id {
                            let j = choose|j: int| 0 <= j < s.len() && (#[trigger] s[j]).0 == k;
                            if j < i {
                                assert(t[j] == s[j]);
                            } else {
                                assert(j != i);
                                assert(t[j - 1] == s[j]);
                            }
                        }
                        if by_session(t).contains_key(k) {
                            let j = choose|j: int| 0 <= j < t.len() && (#[trigger] t[j]).0 == k;
                            if j < i {
                                assert(s[j] == t[j]);
                                if k == id {
                                    assert(s[j].0 == s[i as int].0);
                                }
                            } else {
                                assert(s[j + 1] == t[j]);
                                if k == id {
                                    assert(s[i as int].0 == s[j + 1].0);
                                }
                            }
                        }
                    }
                    assert forall|k: Seq<char>| #[trigger]
                        by_session(t).contains_key(k) implies by_session(t)[k] == old(self).orphans().remove(id)[k] by {
                        let j = choose|j: int| 0 <= j < t.len() && (#[trigger] t[j]).0 == k;
                        lemma_by_session_at(t, j);
                        if j < i {
                            assert(s[j] == t[j]);
                            lemma_by_session_at(s, j);
                        } else {
                            assert(s[j + 1] == t[j]);
                            lemma_by_session_at(s, j + 1);
                        }
                    }
                    assert(by_session(t) =~= old(self).orphans().remove(id));
                }
                Some(o)
            },
            None => {
                assert(self.orphans() =~= old(self).orphans().remove(session_id@));
                None
            },
        }
    }

    proof fn assert_consistent_after_move_online(self, old_self: Contacts, e: Seq<char>)
        requires
            old_self.consistent(),
            old_self.spec_find(e) is Some,
            self.online() == old_self.online().insert(e, self.online()[e]),
            self.online().contains_key(e),
            self.online()[e].status is Some,
            self.offline() == old_self.offline().remove(e),
            self.repository() == old_self.repository().insert(e, self.online()[e]),
        ensures
            self.consistent(),
    {
    }
}

} // verus!
