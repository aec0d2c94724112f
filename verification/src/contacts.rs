//! A user's contacts, keyed by identifier, and the home page that lists them.
use vstd::prelude::*;
use crate::ids::{id_text, uuid_text};
use crate::text::{
    lemma_replace_all_absent, lemma_replace_all_split, occurs_at, replace_all, replace_text,
};

verus! {

/// A user's contacts: identifier and nickname of each, an identifier at most
/// once, in the order in which they were first inserted.
#[derive(Debug)]
pub struct ContactList {
    entries: Vec<(u128, String)>,
}

/// Identifier and nickname text of each entry.
pub open spec fn entries_view(entries: Seq<(u128, String)>) -> Seq<(u128, Seq<char>)> {
    entries.map_values(|e: (u128, String)| (e.0, e.1@))
}

impl View for ContactList {
    type V = Seq<(u128, Seq<char>)>;

    closed spec fn view(&self) -> Seq<(u128, Seq<char>)> {
        entries_view(self.entries@)
    }
}

impl ContactList {
    /// An identifier occurs at most once.
    #[verifier::type_invariant]
    spec fn distinct_ids(self) -> bool {
        ids_distinct(self@)
    }
}

/// No identifier occurs twice.
pub open spec fn ids_distinct(s: Seq<(u128, Seq<char>)>) -> bool {
    forall|i: int, j: int| 0 <= i < j < s.len() ==> s[i].0 != s[j].0
}

/// `i` is the first position of `id` in `s`.
pub open spec fn first_position(s: Seq<(u128, Seq<char>)>, id: u128, i: int) -> bool {
    &&& 0 <= i < s.len()
    &&& s[i].0 == id
    &&& forall|j: int| 0 <= j < i ==> s[j].0 != id
}

/// `id` occurs in `s`.
pub open spec fn has_id(s: Seq<(u128, Seq<char>)>, id: u128) -> bool {
    exists|i: int| 0 <= i < s.len() && s[i].0 == id
}

/// `s` with the nickname of `id` set to `nickname`: in place where `id`
/// occurs, appended where it does not.
pub open spec fn with_contact(s: Seq<(u128, Seq<char>)>, id: u128, nickname: Seq<char>) -> Seq<
    (u128, Seq<char>),
> {
    if has_id(s, id) {
        s.update(choose|i: int| first_position(s, id, i), (id, nickname))
    } else {
        s.push((id, nickname))
    }
}

/// The contacts as a map from identifier to nickname (the first entry of an
/// identifier counts).
pub open spec fn contacts_map(s: Seq<(u128, Seq<char>)>) -> Map<u128, Seq<char>> {
    Map::new(|id: u128| has_id(s, id), |id: u128| s[choose|i: int| first_position(s, id, i)].1)
}

/// The button of one contact on the home page.
pub open spec fn contact_button(id: u128, nickname: Seq<char>) -> Seq<char> {
    "<button class='user' data-user-id='"@ + uuid_text(id) + "'>"@ + nickname + "</button>"@
}

/// The buttons of all contacts, in order.
pub open spec fn contact_buttons(s: Seq<(u128, Seq<char>)>) -> Seq<char>
    decreases s.len(),
{
    if s.len() == 0 {
        Seq::empty()
    } else {
        contact_buttons(s.drop_last()) + contact_button(s.last().0, s.last().1)
    }
}

/// The home page: its placeholder `Contacts` replaced by the contacts'
/// buttons.
pub open spec fn home_page_text(page: Seq<char>, contacts: Seq<(u128, Seq<char>)>) -> Seq<char> {
    replace_all(page, "Contacts"@, contact_buttons(contacts))
}

/// The home page lists the contacts where its placeholder stood:
/// `before + "Contacts" + after`, with no placeholder beginning inside
/// `before` and none in `after`, becomes `before + buttons + after`.
pub proof fn lemma_home_page_lists_contacts(
    before: Seq<char>,
    after: Seq<char>,
    contacts: Seq<(u128, Seq<char>)>,
)
    requires
        forall|p: int|
            0 <= p < before.len() ==> !occurs_at(before + "Contacts"@, "Contacts"@, p),
        forall|p: int| !occurs_at(after, "Contacts"@, p),
    ensures
        home_page_text(before + "Contacts"@ + after, contacts) == before + contact_buttons(contacts)
            + after,
{
    reveal_strlit("Contacts");
    lemma_replace_all_split(before, "Contacts"@, after, contact_buttons(contacts));
    lemma_replace_all_absent(after, "Contacts"@, contact_buttons(contacts));
}

proof fn lemma_first_position_unique(s: Seq<(u128, Seq<char>)>, id: u128, i: int)
    requires
        first_position(s, id, i),
    ensures
        (choose|k: int| first_position(s, id, k)) == i,
{
    let k: int = choose|k: int| first_position(s, id, k);
    assert(first_position(s, id, k));
    if k < i {
        assert(s[k].0 != id);
    } else if k > i {
        assert(s[i].0 != id);
    }
}

proof fn lemma_has_first_position(s: Seq<(u128, Seq<char>)>, id: u128)
    requires
        has_id(s, id),
    ensures
        exists|i: int| first_position(s, id, i),
    decreases s.len(),
{
    if s[0].0 == id {
        assert(first_position(s, id, 0));
    } else {
        let rest = s.drop_first();
        let w: int = choose|i: int| 0 <= i < s.len() && s[i].0 == id;
        assert(rest[w - 1].0 == id);
        lemma_has_first_position(rest, id);
        let k: int = choose|i: int| first_position(rest, id, i);
        assert forall|j: int| 0 <= j < k + 1 implies s[j].0 != id by {
            if j > 0 {
                assert(rest[j - 1] == s[j]);
            }
        }
        assert(first_position(s, id, k + 1));
    }
}

/// Setting a contact's nickname acts on the contacts' map as an insertion,
/// and keeps identifiers distinct.
pub proof fn lemma_with_contact_is_insert(s: Seq<(u128, Seq<char>)>, id: u128, nickname: Seq<char>)
    ensures
        contacts_map(with_contact(s, id, nickname)) == contacts_map(s).insert(id, nickname),
        ids_distinct(s) ==> ids_distinct(with_contact(s, id, nickname)),
{
    let t = with_contact(s, id, nickname);
    if has_id(s, id) {
        lemma_has_first_position(s, id);
        let k: int = choose|i: int| first_position(s, id, i);
        assert(first_position(t, id, k));
        lemma_first_position_unique(t, id, k);
        assert forall|x: u128| x != id implies has_id(t, x) == has_id(s, x) && (has_id(s, x) ==> t[
            choose|i: int| first_position(t, x, i)].1 == s[choose|i: int|
            first_position(s, x, i)].1) by {
            if has_id(s, x) {
                lemma_has_first_position(s, x);
                let p: int = choose|i: int| first_position(s, x, i);
                assert(p != k);
                assert(first_position(t, x, p));
                lemma_first_position_unique(t, x, p);
                lemma_first_position_unique(s, x, p);
            }
            if has_id(t, x) {
                let w: int = choose|i: int| 0 <= i < t.len() && t[i].0 == x;
                assert(s[w].0 == x);
            }
        }
    } else {
        assert(first_position(t, id, s.len() as int));
        lemma_first_position_unique(t, id, s.len() as int);
        assert forall|x: u128| x != id implies has_id(t, x) == has_id(s, x) && (has_id(s, x) ==> t[
            choose|i: int| first_position(t, x, i)].1 == s[choose|i: int|
            first_position(s, x, i)].1) by {
            if has_id(s, x) {
                lemma_has_first_position(s, x);
                let p: int = choose|i: int| first_position(s, x, i);
                assert(first_position(t, x, p));
                lemma_first_position_unique(t, x, p);
                lemma_first_position_unique(s, x, p);
            }
            if has_id(t, x) {
                let w: int = choose|i: int| 0 <= i < t.len() && t[i].0 == x;
                assert(w < s.len());
                assert(s[w].0 == x);
            }
        }
    }
    assert(contacts_map(t) =~= contacts_map(s).insert(id, nickname));
}

impl ContactList {
    /// No contacts.
    pub fn new() -> (r: ContactList)
        ensures
            r@ == Seq::<(u128, Seq<char>)>::empty(),
    {
        let entries: Vec<(u128, String)> = Vec::new();
        assert(entries_view(entries@) =~= Seq::<(u128, Seq<char>)>::empty());
        ContactList { entries }
    }

    /// Number of contacts.
    pub fn len(&self) -> (r: usize)
        ensures
            r == self@.len(),
    {
        self.entries.len()
    }

    /// Whether there are no contacts.
    pub fn is_empty(&self) -> (r: bool)
        ensures
            r == (self@.len() == 0),
    {
        self.entries.len() == 0
    }

    /// Sets the nickname of `id`, adding `id` if it is not there.
    pub fn insert(&mut self, id: u128, nickname: String)
        ensures
            final(self)@ == with_contact(old(self)@, id, nickname@),
            contacts_map(final(self)@) == contacts_map(old(self)@).insert(id, nickname@),
            ids_distinct(final(self)@),
            final(self)@.len() == old(self)@.len() + if has_id(old(self)@, id) {
                0int
            } else {
                1int
            },
            forall|i: int|
                0 <= i < old(self)@.len() && old(self)@[i].0 != id ==> final(self)@[i] == old(
                    self,
                )@[i],
    {
        proof {
            use_type_invariant(&*self);
            lemma_with_contact_is_insert(self@, id, nickname@);
        }
        let ghost before = self@;
        let ghost nick = nickname@;
        let mut i: usize = 0;
        let mut found = false;
        while i < self.entries.len()
            invariant_except_break
                !found,
            invariant
                i <= self.entries.len(),
                self@ == before,
                forall|j: int| 0 <= j < i ==> before[j].0 != id,
            ensures
                i <= self.entries.len(),
                found ==> i < self.entries.len() && before[i as int].0 == id,
                !found ==> i == self.entries.len(),
                forall|j: int| 0 <= j < i ==> before[j].0 != id,
            decreases self.entries.len() - i,
        {
            if self.entries[i].0 == id {
                found = true;
                break;
            }
            i = i + 1;
        }
        let mut entries: Vec<(u128, String)> = Vec::new();
        std::mem::swap(&mut entries, &mut self.entries);
        assert(entries_view(entries@) == before);
        if found {
            proof {
                assert(has_id(before, id));
                assert(first_position(before, id, i as int));
                lemma_first_position_unique(before, id, i as int);
            }
            entries.set(i, (id, nickname));
            assert(entries_view(entries@) =~= before.update(i as int, (id, nick)));
        } else {
            entries.push((id, nickname));
            assert(entries_view(entries@) =~= before.push((id, nick)));
        }
        self.entries = entries;
    }

    /// The buttons of all contacts, in order; each contact once.
    pub fn buttons(&self) -> (r: String)
        ensures
            r@ == contact_buttons(self@),
            ids_distinct(self@),
    {
        proof {
            use_type_invariant(self);
        }
        let mut out = String::new();
        let mut i: usize = 0;
        assert(self@.take(0) =~= Seq::<(u128, Seq<char>)>::empty());
        while i < self.entries.len()
            invariant
                i <= self.entries.len(),
                self@.len() == self.entries.len(),
                out@ == contact_buttons(self@.take(i as int)),
            decreases self.entries.len() - i,
        {
            let id: u128 = self.entries[i].0;
            let text = id_text(id);
            proof {
                reveal_strlit("<button class='user' data-user-id='");
                reveal_strlit("'>");
                reveal_strlit("</button>");
            }
            out.append("<button class='user' data-user-id='");
            out.append(text.as_str());
            out.append("'>");
            out.append(self.entries[i].1.as_str());
            out.append("</button>");
            assert(self@.take(i + 1).drop_last() =~= self@.take(i as int));
            assert(self@[i as int] == (id, self.entries@[i as int].1@));
            i = i + 1;
        }
        assert(self@.take(i as int) =~= self@);
        out
    }
}

/// The home page: its placeholder `Contacts` replaced by the buttons of the
/// contacts, each contact once.
pub fn home_page(page: &str, contacts: &ContactList) -> (r: String)
    ensures
        r@ == home_page_text(page@, contacts@),
        ids_distinct(contacts@),
{
    let html = contacts.buttons();
    proof {
        reveal_strlit("Contacts");
    }
    replace_text(page, "Contacts", html.as_str())
}

} // verus!
