use crate::models::display_picture::{copy_picture, DisplayPicture, DisplayPictureView};
use crate::status::PresenceStatus;
use crate::models::common::opt_view;
use vstd::prelude::*;

verus! {

/// The lists of the protocol a contact can be in.
#[derive(Debug, Clone, Copy, PartialEq, Eq, Structural)]
pub enum MsnList {
    ForwardList,
    AllowList,
    BlockList,
    ReverseList,
    PendingList,
}

/// The object a contact's presence announces; type 3 is a display picture.
pub struct MsnObject {
    pub object_type: u16,
    pub sha1d: String,
}

pub ghost struct MsnObjectView {
    pub object_type: u16,
    pub sha1d: Seq<char>,
}

impl View for MsnObject {
    type V = MsnObjectView;

    open spec fn view(&self) -> MsnObjectView {
        MsnObjectView { object_type: self.object_type, sha1d: self.sha1d@ }
    }
}

/// A contact's presence: its status and the object it announces.
pub struct Presence {
    pub status: PresenceStatus,
    pub msn_object: Option<MsnObject>,
    pub msn_object_string: Option<String>,
}

pub ghost struct PresenceView {
    pub status: PresenceStatus,
    pub msn_object: Option<MsnObjectView>,
    pub msn_object_string: Option<Seq<char>>,
}

impl View for Presence {
    type V = PresenceView;

    open spec fn view(&self) -> PresenceView {
        PresenceView {
            status: self.status,
            msn_object: opt_view(self.msn_object),
            msn_object_string: opt_view(self.msn_object_string),
        }
    }
}

/// A contact of the user's list.
pub struct Contact {
    pub email: String,
    pub display_name: String,
    pub guid: String,
    pub lists: Vec<MsnList>,
    pub status: Option<Presence>,
    pub personal_message: Option<String>,
    pub display_picture: Option<DisplayPicture>,
    pub opening_conversation: bool,
}

pub ghost struct ContactView {
    pub email: Seq<char>,
    pub display_name: Seq<char>,
    pub guid: Seq<char>,
    pub lists: Seq<MsnList>,
    pub status: Option<PresenceView>,
    pub personal_message: Option<Seq<char>>,
    pub display_picture: Option<DisplayPictureView>,
    pub opening_conversation: bool,
}

impl View for Contact {
    type V = ContactView;

    open spec fn view(&self) -> ContactView {
        ContactView {
            email: self.email@,
            display_name: self.display_name@,
            guid: self.guid@,
            lists: self.lists@,
            status: opt_view(self.status),
            personal_message: opt_view(self.personal_message),
            display_picture: opt_view(self.display_picture),
            opening_conversation: self.opening_conversation,
        }
    }
}

/// A copy of an optional text.
pub fn copy_text(s: &Option<String>) -> (r: Option<String>)
    ensures
        opt_view(r) == opt_view(*s),
{
    match s {
        Some(t) => Some(t.clone()),
        None => None,
    }
}

/// A copy of a sequence of lists.
pub fn copy_lists(v: &Vec<MsnList>) -> (r: Vec<MsnList>)
    ensures
        r@ == v@,
{
    let mut r: Vec<MsnList> = Vec::with_capacity(v.len());
    let mut i: usize = 0;
    while i < v.len()
        invariant
            i <= v.len(),
            r@ == v@.take(i as int),
        decreases v.len() - i,
    {
        r.push(v[i]);
        i = i + 1;
        assert(r@ =~= v@.take(i as int));
    }
    assert(v@.take(v.len() as int) =~= v@);
    r
}

impl MsnObject {
    pub fn duplicate(&self) -> (r: MsnObject)
        ensures
            r@ == self@,
    {
        MsnObject { object_type: self.object_type, sha1d: self.sha1d.clone() }
    }
}

impl Presence {
    pub fn duplicate(&self) -> (r: Presence)
        ensures
            r@ == self@,
    {
        Presence {
            status: self.status,
            msn_object: match &self.msn_object {
                Some(o) => Some(o.duplicate()),
                None => None,
            },
            msn_object_string: copy_text(&self.msn_object_string),
        }
    }

    /// The hash of the display picture this presence announces, if it
    /// announces one (an object of type 3).
    pub fn picture_hash(&self) -> (r: Option<String>)
        ensures
            opt_view(r) == announced_picture(self@),
    {
        match &self.msn_object {
            Some(o) => if o.object_type == 3 {
                Some(o.sha1d.clone())
            } else {
                None
            },
            None => None,
        }
    }
}

/// The hash of the display picture a presence announces, if it announces
/// one (an object of type 3).
pub open spec fn announced_picture(p: PresenceView) -> Option<Seq<char>> {
    match p.msn_object {
        Some(o) => if o.object_type == 3 {
            Some(o.sha1d)
        } else {
            None
        },
        None => None,
    }
}

/// A copy of an optional presence.
pub fn copy_presence(p: &Option<Presence>) -> (r: Option<Presence>)
    ensures
        opt_view(r) == opt_view(*p),
{
    match p {
        Some(q) => Some(q.duplicate()),
        None => None,
    }
}

impl Contact {
    pub fn duplicate(&self) -> (r: Contact)
        ensures
            r@ == self@,
    {
        Contact {
            email: self.email.clone(),
            display_name: self.display_name.clone(),
            guid: self.guid.clone(),
            lists: copy_lists(&self.lists),
            status: copy_presence(&self.status),
            personal_message: copy_text(&self.personal_message),
            display_picture: copy_picture(&self.display_picture),
            opening_conversation: self.opening_conversation,
        }
    }

    /// A contact known only by its e-mail address, which also serves as its
    /// display name.
    pub open spec fn spec_unknown(email: Seq<char>) -> ContactView {
        ContactView {
            email: email,
            display_name: email,
            guid: Seq::empty(),
            lists: Seq::empty(),
            status: None,
            personal_message: None,
            display_picture: None,
            opening_conversation: false,
        }
    }

    pub fn unknown(email: &String) -> (r: Contact)
        ensures
            r@ == Contact::spec_unknown(email@),
    {
        Contact {
            email: email.clone(),
            display_name: email.clone(),
            guid: String::new(),
            lists: Vec::new(),
            status: None,
            personal_message: None,
            display_picture: None,
            opening_conversation: false,
        }
    }
}

/// Whether a list appears in a sequence of lists.
pub fn has_list(lists: &Vec<MsnList>, list: MsnList) -> (r: bool)
    ensures
        r == lists@.contains(list),
{
    let mut i: usize = 0;
    while i < lists.len()
        invariant
            i <= lists.len(),
            forall|k: int| 0 <= k < i ==> lists@[k] != list,
        decreases lists.len() - i,
    {
        if lists[i] == list {
            return true;
        }
        i = i + 1;
    }
    false
}

/// The lists without any occurrence of one list (`retain(|l| l != list)`).
pub fn without_list(lists: &Vec<MsnList>, list: MsnList) -> (r: Vec<MsnList>)
    ensures
        r@ == lists@.filter(|l: MsnList| l != list),
{
    let mut r: Vec<MsnList> = Vec::new();
    let mut i: usize = 0;
    while i < lists.len()
        invariant
            i <= lists.len(),
            r@ == lists@.take(i as int).filter(|l: MsnList| l != list),
        decreases lists.len() - i,
    {
        proof {
            reveal_with_fuel(Seq::<_>::filter, 1);
            assert(lists@.take(i + 1).drop_last() =~= lists@.take(i as int));
        }
        if lists[i] != list {
            r.push(lists[i]);
        }
        i = i + 1;
    }
    assert(lists@.take(lists.len() as int) =~= lists@);
    r
}

/// The lists after a contact was blocked: the block list added, the allow
/// list removed.
pub open spec fn blocked_lists(lists: Seq<MsnList>) -> Seq<MsnList> {
    lists.push(MsnList::BlockList).filter(|l: MsnList| l != MsnList::AllowList)
}

/// The lists after a contact was unblocked: the block list removed, the
/// allow list added.
pub open spec fn unblocked_lists(lists: Seq<MsnList>) -> Seq<MsnList> {
    lists.filter(|l: MsnList| l != MsnList::BlockList).push(MsnList::AllowList)
}

pub fn block_lists(lists: &Vec<MsnList>) -> (r: Vec<MsnList>)
    ensures
        r@ == blocked_lists(lists@),
{
    let mut l = copy_lists(lists);
    l.push(MsnList::BlockList);
    without_list(&l, MsnList::AllowList)
}

pub fn unblock_lists(lists: &Vec<MsnList>) -> (r: Vec<MsnList>)
    ensures
        r@ == unblocked_lists(lists@),
{
    let mut l = without_list(lists, MsnList::BlockList);
    l.push(MsnList::AllowList);
    l
}

/// After blocking, a contact is in the block list and not in the allow list;
/// after unblocking, the reverse; and either leaves every other list as it
/// was.
pub proof fn lemma_block_unblock(lists: Seq<MsnList>)
    ensures
        blocked_lists(lists).contains(MsnList::BlockList),
        !blocked_lists(lists).contains(MsnList::AllowList),
        unblocked_lists(lists).contains(MsnList::AllowList),
        !unblocked_lists(lists).contains(MsnList::BlockList),
        forall|l: MsnList|
            l != MsnList::BlockList && l != MsnList::AllowList ==> (blocked_lists(lists).contains(l)
                <==> lists.contains(l)) && (unblocked_lists(lists).contains(l) <==> lists.contains(
                l,
            )),
{
    broadcast use vstd::seq_lib::group_filter_ensures;

    let pb = |l: MsnList| l != MsnList::AllowList;
    let pu = |l: MsnList| l != MsnList::BlockList;
    let p = lists.push(MsnList::BlockList);
    let b = p.filter(pb);
    let f = lists.filter(pu);
    let u = f.push(MsnList::AllowList);
    assert(p[lists.len() as int] == MsnList::BlockList);
    p.lemma_filter_contains(pb, lists.len() as int);
    if b.contains(MsnList::AllowList) {
        let k = choose|k: int| 0 <= k < b.len() && b[k] == MsnList::AllowList;
        p.lemma_filter_pred(pb, k);
    }
    assert(u[f.len() as int] == MsnList::AllowList);
    if u.contains(MsnList::BlockList) {
        let k = choose|k: int| 0 <= k < u.len() && u[k] == MsnList::BlockList;
        assert(f[k] == MsnList::BlockList);
        lists.lemma_filter_pred(pu, k);
    }
    assert forall|l: MsnList| l != MsnList::BlockList && l != MsnList::AllowList implies (
    b.contains(l) <==> lists.contains(l)) && (u.contains(l) <==> lists.contains(l)) by {
        if lists.contains(l) {
            let k = choose|k: int| 0 <= k < lists.len() && lists[k] == l;
            assert(p[k] == l);
            p.lemma_filter_contains(pb, k);
            lists.lemma_filter_contains(pu, k);
            let j = choose|j: int| 0 <= j < f.len() && f[j] == l;
            assert(u[j] == l);
        }
        if b.contains(l) {
            p.lemma_filter_contains_rev(pb, l);
            let k = choose|k: int| 0 <= k < p.len() && p[k] == l;
            assert(k < lists.len());
            assert(lists[k] == l);
        }
        if u.contains(l) {
            let k = choose|k: int| 0 <= k < u.len() && u[k] == l;
            assert(k < f.len());
            assert(f[k] == l);
            lists.lemma_filter_contains_rev(pu, l);
        }
    }
}

} // verus!
