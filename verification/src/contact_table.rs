use crate::models::contact::{Contact, ContactView};
use crate::text::{lemma_text_less_irreflexive, lemma_text_less_total, lemma_text_less_transitive, same_text, text_before, text_less};
use vstd::prelude::*;

verus! {

/// Whether a sequence of contacts holds one with the given e-mail address.
pub open spec fn has_email(s: Seq<ContactView>, k: Seq<char>) -> bool {
    exists|i: int| 0 <= i < s.len() && (#[trigger] s[i]).email == k
}

/// Where a sequence of contacts holds the one with the given e-mail address.
pub open spec fn email_index(s: Seq<ContactView>, k: Seq<char>) -> int {
    choose|i: int| 0 <= i < s.len() && (#[trigger] s[i]).email == k
}

/// The contacts of a sequence, by e-mail address.
pub open spec fn by_email(s: Seq<ContactView>) -> Map<Seq<char>, ContactView> {
    Map::new(|k: Seq<char>| has_email(s, k), |k: Seq<char>| s[email_index(s, k)])
}

/// The e-mail addresses of a sequence of contacts are in strictly
/// increasing order.
pub open spec fn sorted_by_email(s: Seq<ContactView>) -> bool {
    forall|i: int, j: int|
        #![trigger s[i], s[j]]
        0 <= i < j < s.len() ==> text_less(s[i].email, s[j].email)
}

/// Contacts keyed by e-mail address and kept in the order of their
/// addresses, as a `BTreeMap` keyed by e-mail address holds them.
pub struct ContactTable {
    contacts: Vec<Contact>,
}

impl View for ContactTable {
    type V = Map<Seq<char>, ContactView>;

    closed spec fn view(&self) -> Map<Seq<char>, ContactView> {
        by_email(self.ordered())
    }
}

proof fn lemma_unique(s: Seq<ContactView>, i: int, j: int)
    requires
        sorted_by_email(s),
        0 <= i < s.len(),
        0 <= j < s.len(),
        s[i].email == s[j].email,
    ensures
        i == j,
{
    lemma_text_less_irreflexive(s[i].email);
    if i < j {
        assert(text_less(s[i].email, s[j].email));
    }
    if j < i {
        assert(text_less(s[j].email, s[i].email));
    }
}

proof fn lemma_lookup(s: Seq<ContactView>, i: int)
    requires
        sorted_by_email(s),
        0 <= i < s.len(),
    ensures
        by_email(s).contains_key(s[i].email),
        by_email(s)[s[i].email] == s[i],
{
    assert(has_email(s, s[i].email));
    let j = email_index(s, s[i].email);
    lemma_unique(s, i, j);
}

impl ContactTable {
    /// The table's contacts are kept in order of their addresses.
    pub closed spec fn wf(self) -> bool {
        sorted_by_email(self.ordered())
    }

    /// The contacts, in the order of their e-mail addresses.
    pub closed spec fn ordered(self) -> Seq<ContactView> {
        self.contacts@.map_values(|c: Contact| c@)
    }

    /// The ordered contacts are sorted by address and are exactly the
    /// contacts of the table.
    pub proof fn lemma_ordered(self)
        requires
            sorted_by_email(self.ordered()),
        ensures
            sorted_by_email(self.ordered()),
            forall|i: int|
                0 <= i < self.ordered().len() ==> self@.contains_key(
                    #[trigger] self.ordered()[i].email,
                ) && self@[self.ordered()[i].email] == self.ordered()[i],
            forall|k: Seq<char>|
                #[trigger] self@.contains_key(k) ==> has_email(self.ordered(), k),
    {
        assert forall|i: int| 0 <= i < self.ordered().len() implies self@.contains_key(
            #[trigger] self.ordered()[i].email,
        ) && self@[self.ordered()[i].email] == self.ordered()[i] by {
            lemma_lookup(self.ordered(), i);
        }
    }

    /// The table's contacts are in order and keyed by their address.
    pub proof fn lemma_valid(&self)
        requires
            self.wf(),
        ensures
            sorted_by_email(self.ordered()),
            forall|i: int|
                0 <= i < self.ordered().len() ==> self@.contains_key(
                    #[trigger] self.ordered()[i].email,
                ) && self@[self.ordered()[i].email] == self.ordered()[i],
            forall|k: Seq<char>|
                #[trigger] self@.contains_key(k) ==> has_email(self.ordered(), k),
            forall|k: Seq<char>| #[trigger] self@.contains_key(k) ==> self@[k].email == k,
    {
        self.lemma_ordered();
        assert forall|k: Seq<char>| #[trigger] self@.contains_key(k) implies self@[k].email == k by {
            let i = email_index(self.ordered(), k);
        }
    }

    pub fn new() -> (t: ContactTable)
        ensures
            t.wf(),
            t@ == Map::<Seq<char>, ContactView>::empty(),
            t.ordered().len() == 0,
    {
        let t = ContactTable { contacts: Vec::new() };
        assert(t@ =~= Map::<Seq<char>, ContactView>::empty());
        t
    }

    pub fn len(&self) -> (n: usize)
        requires
            self.wf(),
        ensures
            n == self.ordered().len(),
    {
        self.contacts.len()
    }

    /// The contacts in the order of their e-mail addresses.
    pub fn contacts(&self) -> (v: &Vec<Contact>)
        requires
            self.wf(),
        ensures
            v@.map_values(|c: Contact| c@) == self.ordered(),
    {
        &self.contacts
    }

    /// Where the key stands or would stand.
    fn position(&self, key: &str) -> (r: (usize, bool))
        requires
            self.wf(),
        ensures
            r.0 <= self.ordered().len(),
            forall|j: int| 0 <= j < r.0 ==> text_less(#[trigger] self.ordered()[j].email, key@),
            r.1 == (r.0 < self.ordered().len() && self.ordered()[r.0 as int].email == key@),
            forall|j: int|
                r.0 <= j < self.ordered().len() && !(r.1 && j == r.0) ==> text_less(
                    key@,
                    #[trigger] self.ordered()[j].email,
                ),
    {
        let ghost s = self.ordered();
        let n = self.contacts.len();
        let mut i: usize = 0;
        while i < n && text_before(self.contacts[i].email.as_str(), key)
            invariant
                n == s.len(),
                s == self.ordered(),
                sorted_by_email(s),
                i <= n,
                forall|j: int| 0 <= j < i ==> text_less(#[trigger] s[j].email, key@),
            decreases n - i,
        {
            assert(s[i as int] == self.contacts@[i as int]@);
            i = i + 1;
        }
        if i < n {
            assert(s[i as int] == self.contacts@[i as int]@);
            let found = same_text(self.contacts[i].email.as_str(), key);
            proof {
                lemma_text_less_total(s[i as int].email, key@);
                assert forall|j: int|
                    i <= j < s.len() && !(found && j == i) implies text_less(
                    key@,
                    #[trigger] s[j].email,
                ) by {
                    if j > i {
                        assert(text_less(s[i as int].email, s[j].email));
                        if !found {
                            lemma_text_less_transitive(key@, s[i as int].email, s[j].email);
                        }
                    }
                }
            }
            (i, found)
        } else {
            (i, false)
        }
    }

    /// Whether a contact has the given address.
    pub fn contains(&self, key: &str) -> (b: bool)
        requires
            self.wf(),
        ensures
            b == self@.contains_key(key@),
    {
        proof {
            self.lemma_valid();
        }
        let (i, found) = self.position(key);
        proof {
            if self@.contains_key(key@) {
                let j = email_index(self.ordered(), key@);
                if !found {
                    if j < i {
                        lemma_text_less_irreflexive(key@);
                    } else {
                        lemma_text_less_irreflexive(key@);
                    }
                }
            }
        }
        found
    }

    /// The contact with the given address, if there is one.
    pub fn get_ref(&self, key: &str) -> (r: Option<&Contact>)
        requires
            self.wf(),
        ensures
            r.is_some() == self@.contains_key(key@),
            r.is_some() ==> r.unwrap()@ == self@[key@],
    {
        proof {
            self.lemma_valid();
        }
        let (i, found) = self.position(key);
        if found {
            proof {
                assert(self.ordered()[i as int] == self.contacts@[i as int]@);
            }
            Some(&self.contacts[i])
        } else {
            proof {
                if self@.contains_key(key@) {
                    let j = email_index(self.ordered(), key@);
                    lemma_text_less_irreflexive(key@);
                }
            }
            None
        }
    }

    /// A copy of the contact with the given address, if there is one.
    pub fn get(&self, key: &str) -> (r: Option<Contact>)
        requires
            self.wf(),
        ensures
            r.is_some() == self@.contains_key(key@),
            r.is_some() ==> r.unwrap()@ == self@[key@],
    {
        match self.get_ref(key) {
            Some(c) => Some(c.duplicate()),
            None => None,
        }
    }

    /// Adds a contact, or replaces the one with the same address.
    pub fn insert(&mut self, c: Contact)
        requires
            old(self).wf(),
        ensures
            final(self).wf(),
            final(self)@ == old(self)@.insert(c.email@, c@),
            old(self)@.contains_key(c.email@) ==> final(self).ordered().len() == old(self).ordered().len(),
            !old(self)@.contains_key(c.email@) ==> final(self).ordered().len() == old(self).ordered().len() + 1,
    {
        proof {
            self.lemma_valid();
        }
        let ghost s = self.ordered();
        let ghost cv = c@;
        let (i, found) = self.position(c.email.as_str());
        if found {
            let mut v = Vec::new();
            std::mem::swap(&mut v, &mut self.contacts);
            v.set(i, c);
            let ghost t = v@.map_values(|x: Contact| x@);
            proof {
                assert(t =~= s.update(i as int, cv));
                assert forall|a: int, b: int|
                    #![trigger t[a], t[b]]
                    0 <= a < b < t.len() implies text_less(t[a].email, t[b].email) by {
                    assert(s[a].email == t[a].email);
                    assert(s[b].email == t[b].email);
                }
            }
            self.contacts = v;
            proof {
                assert(self.ordered() == t);
                self.lemma_valid();
                assert forall|k: Seq<char>|
                    #[trigger] self@.contains_key(k) == old(self)@.insert(cv.email, cv).contains_key(
                        k,
                    ) by {
                    if old(self)@.contains_key(k) {
                        let j = email_index(s, k);
                        assert(t[j].email == k);
                    }
                    if self@.contains_key(k) {
                        let j = email_index(t, k);
                        if j != i {
                            assert(s[j] == t[j]);
                        }
                    }
                }
                assert forall|k: Seq<char>| #[trigger]
                    self@.contains_key(k) implies self@[k] == old(self)@.insert(cv.email, cv)[k] by {
                    let j = email_index(t, k);
                    lemma_lookup(t, j);
                    if j != i {
                        assert(s[j] == t[j]);
                        lemma_lookup(s, j);
                    }
                }
                assert(self@ =~= old(self)@.insert(cv.email, cv));
            }
        } else {
            let mut v = Vec::new();
            std::mem::swap(&mut v, &mut self.contacts);
            v.insert(i, c);
            let ghost t = v@.map_values(|x: Contact| x@);
            proof {
                if old(self)@.contains_key(cv.email) {
                    let j = email_index(s, cv.email);
                    lemma_text_less_irreflexive(cv.email);
                }
                assert(t =~= s.insert(i as int, cv));
                assert forall|a: int, b: int|
                    #![trigger t[a], t[b]]
                    0 <= a < b < t.len() implies text_less(t[a].email, t[b].email) by {
                    if b < i {
                        assert(t[a] == s[a] && t[b] == s[b]);
                    } else if b == i {
                        assert(t[a] == s[a]);
                    } else if a < i {
                        assert(t[a] == s[a] && t[b] == s[b - 1]);
                        assert(text_less(s[a].email, cv.email));
                        assert(text_less(cv.email, s[b - 1].email));
                        lemma_text_less_transitive(s[a].email, cv.email, s[b - 1].email);
                    } else if a == i {
                        assert(t[b] == s[b - 1]);
                    } else {
                        assert(t[a] == s[a - 1] && t[b] == s[b - 1]);
                    }
                }
            }
            self.contacts = v;
            proof {
                assert(self.ordered() == t);
                self.lemma_valid();
                assert forall|k: Seq<char>|
                    #[trigger] self@.contains_key(k) == old(self)@.insert(cv.email, cv).contains_key(
                        k,
                    ) by {
                    if old(self)@.contains_key(k) {
                        let j = email_index(s, k);
                        if j < i {
                            assert(t[j] == s[j]);
                        } else {
                            assert(t[j + 1] == s[j]);
                        }
                    }
                    if k == cv.email {
                        assert(t[i as int].email == k);
                    }
                    if self@.contains_key(k) {
                        let j = email_index(t, k);
                        if j < i {
                            assert(s[j] == t[j]);
                        } else if j > i {
                            assert(s[j - 1] == t[j]);
                        }
                    }
                }
                assert forall|k: Seq<char>| #[trigger]
                    self@.contains_key(k) implies self@[k] == old(self)@.insert(cv.email, cv)[k] by {
                    let j = email_index(t, k);
                    lemma_lookup(t, j);
                    if j < i {
                        assert(s[j] == t[j]);
                        lemma_lookup(s, j);
                    } else if j > i {
                        assert(s[j - 1] == t[j]);
                        lemma_lookup(s, j - 1);
                    }
                }
                assert(self@ =~= old(self)@.insert(cv.email, cv));
            }
        }
    }

    /// Removes the contact with the given address and hands it back.
    pub fn remove(&mut self, key: &str) -> (r: Option<Contact>)
        requires
            old(self).wf(),
        ensures
            final(self).wf(),
            final(self)@ == old(self)@.remove(key@),
            r.is_some() == old(self)@.contains_key(key@),
            r.is_some() ==> r.unwrap()@ == old(self)@[key@],
            r.is_some() ==> final(self).ordered().len() + 1 == old(self).ordered().len(),
            r.is_none() ==> final(self).ordered() == old(self).ordered(),
    {
        proof {
            self.lemma_valid();
        }
        let ghost s = self.ordered();
        let (i, found) = self.position(key);
        if found {
            let mut v = Vec::new();
            std::mem::swap(&mut v, &mut self.contacts);
            let c = v.remove(i);
            let ghost t = v@.map_values(|x: Contact| x@);
            proof {
                assert(t =~= s.remove(i as int));
                assert forall|a: int, b: int|
                    #![trigger t[a], t[b]]
                    0 <= a < b < t.len() implies text_less(t[a].email, t[b].email) by {
                    if b < i {
                        assert(t[a] == s[a] && t[b] == s[b]);
                    } else if a < i {
                        assert(t[a] == s[a] && t[b] == s[b + 1]);
                    } else {
                        assert(t[a] == s[a + 1] && t[b] == s[b + 1]);
                    }
                }
                lemma_lookup(s, i as int);
            }
            self.contacts = v;
            proof {
                assert(self.ordered() == t);
                self.lemma_valid();
                assert forall|k: Seq<char>|
                    #[trigger] self@.contains_key(k) == old(self)@.remove(key@).contains_key(k) by {
                    if old(self)@.contains_key(k) && k != key@ {
                        let j = email_index(s, k);
                        if j < i {
                            assert(t[j] == s[j]);
                        } else {
                            assert(j != i);
                            assert(t[j - 1] == s[j]);
                        }
                    }
                    if self@.contains_key(k) {
                        let j = email_index(t, k);
                        if j < i {
                            assert(s[j] == t[j]);
                            if k == key@ {
                                lemma_unique(s, j, i as int);
                            }
                        } else {
                            assert(s[j + 1] == t[j]);
                            if k == key@ {
                                lemma_unique(s, j + 1, i as int);
                            }
                        }
                    }
                }
                assert forall|k: Seq<char>| #[trigger]
                    self@.contains_key(k) implies self@[k] == old(self)@.remove(key@)[k] by {
                    let j = email_index(t, k);
                    lemma_lookup(t, j);
                    if j < i {
                        assert(s[j] == t[j]);
                        lemma_lookup(s, j);
                    } else {
                        assert(s[j + 1] == t[j]);
                        lemma_lookup(s, j + 1);
                    }
                }
                assert(self@ =~= old(self)@.remove(key@));
            }
            Some(c)
        } else {
            proof {
                if self@.contains_key(key@) {
                    let j = email_index(s, key@);
                    lemma_text_less_irreflexive(key@);
                }
                assert(self@ =~= old(self)@.remove(key@));
            }
            None
        }
    }
}

} // verus!
