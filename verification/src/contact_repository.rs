use crate::contact_table::ContactTable;
use crate::models::contact::{has_list, Contact, ContactView, MsnList};
use vstd::prelude::*;

verus! {

/// A map after a sequence of contacts was stored in it one after the other,
/// each under its address.
pub open spec fn stored_all(
    m: Map<Seq<char>, ContactView>,
    s: Seq<ContactView>,
) -> Map<Seq<char>, ContactView>
    decreases s.len(),
{
    if s.len() == 0 {
        m
    } else {
        stored_all(m, s.drop_last()).insert(s.last().email, s.last())
    }
}

/// Every contact known to the signed-in user, by e-mail address: what the
/// contact list, the conversations and the privacy settings look contacts
/// up in.
pub struct ContactRepository {
    contacts: ContactTable,
}

impl View for ContactRepository {
    type V = Map<Seq<char>, ContactView>;

    closed spec fn view(&self) -> Map<Seq<char>, ContactView> {
        self.contacts@
    }
}

impl ContactRepository {
    pub closed spec fn wf(self) -> bool {
        self.contacts.wf()
    }

    /// The contacts in order of their addresses.
    pub closed spec fn ordered(self) -> Seq<ContactView> {
        self.contacts.ordered()
    }

    /// Every contact is stored under its own address.
    pub proof fn lemma_keyed(&self)
        requires
            self.wf(),
        ensures
            forall|k: Seq<char>| #[trigger] self@.contains_key(k) ==> self@[k].email == k,
    {
        self.contacts.lemma_valid();
    }

    pub fn new() -> (r: ContactRepository)
        ensures
            r.wf(),
            r@ == Map::<Seq<char>, ContactView>::empty(),
    {
        ContactRepository { contacts: ContactTable::new() }
    }

    /// A copy of the contact with this address, if it is known.
    pub fn get_contact(&self, email: &String) -> (r: Option<Contact>)
        requires
            self.wf(),
        ensures
            r.is_some() == self@.contains_key(email@),
            r.is_some() ==> r.unwrap()@ == self@[email@],
    {
        self.contacts.get(email.as_str())
    }

    fn store_all(&mut self, contacts: &[Contact])
        requires
            old(self).wf(),
        ensures
            final(self).wf(),
            final(self)@ == stored_all(old(self)@, contacts@.map_values(|c: Contact| c@)),
    {
        let ghost s = contacts@.map_values(|c: Contact| c@);
        let mut i: usize = 0;
        while i < contacts.len()
            invariant
                i <= contacts.len(),
                s == contacts@.map_values(|c: Contact| c@),
                self.wf(),
                self@ == stored_all(old(self)@, s.take(i as int)),
            decreases contacts.len() - i,
        {
            let c = contacts[i].duplicate();
            proof {
                assert(s.take(i + 1).drop_last() =~= s.take(i as int));
                assert(s.take(i + 1).last() == c@);
            }
            self.contacts.insert(c);
            i = i + 1;
        }
        assert(s.take(contacts.len() as int) =~= s);
    }

    /// Stores the contacts, each under its address, replacing what was
    /// stored under it.
    pub fn add_contacts(&mut self, contacts: &[Contact])
        requires
            old(self).wf(),
        ensures
            final(self).wf(),
            final(self)@ == stored_all(old(self)@, contacts@.map_values(|c: Contact| c@)),
    {
        self.store_all(contacts);
    }

    /// Stores the new state of the contacts, each under its address.
    pub fn update_contacts(&mut self, contacts: &[Contact])
        requires
            old(self).wf(),
        ensures
            final(self).wf(),
            final(self)@ == stored_all(old(self)@, contacts@.map_values(|c: Contact| c@)),
    {
        self.store_all(contacts);
    }

    /// Stores one contact under its address.
    pub fn update_contact(&mut self, contact: &Contact)
        requires
            old(self).wf(),
        ensures
            final(self).wf(),
            final(self)@ == old(self)@.insert(contact.email@, contact@),
    {
        self.contacts.insert(contact.duplicate());
    }

    /// Forgets the contact with this address.
    pub fn remove_contact(&mut self, email: &String)
        requires
            old(self).wf(),
        ensures
            final(self).wf(),
            final(self)@ == old(self)@.remove(email@),
    {
        let _ = self.contacts.remove(email.as_str());
    }

    /// The contacts that are in the given list, in order of their addresses.
    pub fn get_contacts_in_list(&self, list: MsnList) -> (r: Vec<Contact>)
        requires
            self.wf(),
        ensures
            r@.map_values(|c: Contact| c@) == self.ordered().filter(
                |c: ContactView| c.lists.contains(list),
            ),
    {
        let all = self.contacts.contacts();
        let ghost s = self.ordered();
        let mut r: Vec<Contact> = Vec::new();
        let mut i: usize = 0;
        while i < all.len()
            invariant
                i <= all.len(),
                s == all@.map_values(|c: Contact| c@),
                r@.map_values(|c: Contact| c@) == s.take(i as int).filter(
                    |c: ContactView| c.lists.contains(list),
                ),
            decreases all.len() - i,
        {
            proof {
                reveal_with_fuel(Seq::<_>::filter, 1);
                assert(s.take(i + 1).drop_last() =~= s.take(i as int));
                assert(s[i as int] == all@[i as int]@);
            }
            let ghost before = r@.map_values(|c: Contact| c@);
            if has_list(&all[i].lists, list) {
                r.push(all[i].duplicate());
                assert(r@.map_values(|c: Contact| c@) =~= before.push(s[i as int]));
            }
            i = i + 1;
        }
        assert(s.take(all.len() as int) =~= s);
        r
    }
}

/// Reading a contact back after storing it gives what was stored; storing
/// leaves every other address as it was; a removed contact is no longer
/// found.
pub proof fn lemma_repository_store_then_get(
    m: Map<Seq<char>, ContactView>,
    c: ContactView,
    other: Seq<char>,
)
    requires
        other != c.email,
    ensures
        stored_all(m, seq![c]).contains_key(c.email),
        stored_all(m, seq![c])[c.email] == c,
        stored_all(m, seq![c]).contains_key(other) == m.contains_key(other),
        m.contains_key(other) ==> stored_all(m, seq![c])[other] == m[other],
        !m.remove(c.email).contains_key(c.email),
{
    assert(seq![c].drop_last() =~= Seq::<ContactView>::empty());
    assert(stored_all(m, Seq::<ContactView>::empty()) == m);
    assert(stored_all(m, seq![c]) == m.insert(c.email, c));
}

} // verus!
