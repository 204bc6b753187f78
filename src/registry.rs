use vstd::prelude::*;
use crate::element::UiElement;

verus! {

/// The map that a sequence of (identifier, element) entries stands for:
/// a later entry wins over an earlier one with the same identifier.
pub open spec fn map_of(s: Seq<(String, UiElement)>) -> Map<Seq<char>, UiElement>
    decreases s.len(),
{
    if s.len() == 0 {
        Map::empty()
    } else {
        map_of(s.drop_last()).insert(s.last().0@, s.last().1)
    }
}

/// No two entries share an identifier.
pub open spec fn keys_unique(s: Seq<(String, UiElement)>) -> bool {
    forall|i: int, j: int| 0 <= i < j < s.len() ==> s[i].0@ != s[j].0@
}

/// `elements` lists every entry of `m` exactly once, in some order.
pub open spec fn is_snapshot_of(elements: Seq<UiElement>, m: Map<Seq<char>, UiElement>) -> bool {
    exists|keys: Seq<Seq<char>>|
        {
            &&& keys.len() == elements.len()
            &&& keys.no_duplicates()
            &&& forall|k: Seq<char>| m.contains_key(k) <==> keys.contains(k)
            &&& forall|i: int| 0 <= i < keys.len() ==> elements[i] == m[#[trigger] keys[i]]
        }
}

/// Number of entries of `s` under `key`.
pub open spec fn count_key(s: Seq<(String, UiElement)>, key: Seq<char>) -> nat
    decreases s.len(),
{
    if s.len() == 0 {
        0
    } else {
        count_key(s.drop_last(), key) + if s.last().0@ == key {
            1nat
        } else {
            0nat
        }
    }
}

proof fn lemma_count_key(s: Seq<(String, UiElement)>, key: Seq<char>)
    requires
        keys_unique(s),
    ensures
        count_key(s, key) == if map_of(s).contains_key(key) {
            1nat
        } else {
            0nat
        },
    decreases s.len(),
{
    if s.len() > 0 {
        let t = s.drop_last();
        lemma_count_key(t, key);
        lemma_map_of_dom(t, key);
        if s.last().0@ == key {
            assert forall|i: int| 0 <= i < t.len() implies t[i].0@ != key by {
                assert(t[i] == s[i]);
            }
        }
    }
}

/// Whether two strings hold the same characters.
pub fn str_eq(a: &str, b: &str) -> (r: bool)
    ensures
        r == (a@ == b@),
{
    let n = a.unicode_len();
    if n != b.unicode_len() {
        return false;
    }
    let mut i: usize = 0;
    while i < n
        invariant
            n == a@.len(),
            n == b@.len(),
            0 <= i <= n,
            forall|k: int| 0 <= k < i ==> a@[k] == b@[k],
        decreases n - i,
    {
        if a.get_char(i) != b.get_char(i) {
            return false;
        }
        i = i + 1;
    }
    assert(a@ =~= b@);
    true
}

proof fn lemma_map_of_index(s: Seq<(String, UiElement)>, i: int)
    requires
        keys_unique(s),
        0 <= i < s.len(),
    ensures
        map_of(s).contains_key(s[i].0@),
        map_of(s)[s[i].0@] == s[i].1,
    decreases s.len(),
{
    if i < s.len() - 1 {
        let t = s.drop_last();
        assert(t[i] == s[i]);
        lemma_map_of_index(t, i);
    }
}

proof fn lemma_map_of_dom(s: Seq<(String, UiElement)>, k: Seq<char>)
    ensures
        map_of(s).contains_key(k) <==> exists|i: int| 0 <= i < s.len() && s[i].0@ == k,
    decreases s.len(),
{
    if s.len() > 0 {
        let t = s.drop_last();
        lemma_map_of_dom(t, k);
        if map_of(s).contains_key(k) {
            if k != s.last().0@ {
                let i = choose|i: int| 0 <= i < t.len() && t[i].0@ == k;
                assert(s[i] == t[i]);
            } else {
                assert(s[s.len() - 1].0@ == k);
            }
        }
        if exists|i: int| 0 <= i < s.len() && s[i].0@ == k {
            let i = choose|i: int| 0 <= i < s.len() && s[i].0@ == k;
            if i < s.len() - 1 {
                assert(t[i] == s[i]);
            }
        }
    }
}

proof fn lemma_map_of_update(s: Seq<(String, UiElement)>, j: int, p: (String, UiElement))
    requires
        keys_unique(s),
        0 <= j < s.len(),
        p.0@ == s[j].0@,
    ensures
        map_of(s.update(j, p)) == map_of(s).insert(p.0@, p.1),
    decreases s.len(),
{
    let u = s.update(j, p);
    let t = s.drop_last();
    if j == s.len() - 1 {
        assert(u.drop_last() =~= t);
        assert(map_of(u) =~= map_of(s).insert(p.0@, p.1));
    } else {
        assert(u.drop_last() =~= t.update(j, p));
        lemma_map_of_update(t, j, p);
        assert(s.last().0@ != p.0@);
        assert(map_of(u) =~= map_of(s).insert(p.0@, p.1));
    }
}

/// The authoritative identifier-to-element mapping: at most one element per identifier.
pub struct Registry {
    entries: Vec<(String, UiElement)>,
}

impl View for Registry {
    type V = Map<Seq<char>, UiElement>;

    closed spec fn view(&self) -> Map<Seq<char>, UiElement> {
        map_of(self.entries@)
    }
}

impl Registry {
    /// Each identifier is held by one entry.
    pub closed spec fn wf(&self) -> bool {
        keys_unique(self.entries@)
    }

    /// Number of entries held under `key`.
    pub closed spec fn occurrences(&self, key: Seq<char>) -> nat {
        count_key(self.entries@, key)
    }

    /// Creates an empty registry.
    pub fn new() -> (r: Registry)
        ensures
            r.wf(),
            r@ == Map::<Seq<char>, UiElement>::empty(),
    {
        Registry { entries: Vec::new() }
    }

    /// Position of the entry held under `key`, if any.
    fn find(&self, key: &str) -> (r: Option<usize>)
        ensures
            match r {
                Some(i) => i < self.entries@.len() && self.entries@[i as int].0@ == key@,
                None => forall|i: int|
                    0 <= i < self.entries@.len() ==> self.entries@[i].0@ != key@,
            },
    {
        let mut i: usize = 0;
        while i < self.entries.len()
            invariant
                0 <= i <= self.entries@.len(),
                forall|k: int| 0 <= k < i ==> self.entries@[k].0@ != key@,
            decreases self.entries@.len() - i,
        {
            if str_eq(self.entries[i].0.as_str(), key) {
                return Some(i);
            }
            i = i + 1;
        }
        None
    }

    /// Inserts `element` under `key`, replacing wholesale whatever was there.
    pub fn insert_at(&mut self, key: String, element: UiElement)
        requires
            old(self).wf(),
        ensures
            final(self).wf(),
            final(self)@ == old(self)@.insert(key@, element),
    {
        match self.find(key.as_str()) {
            Some(i) => {
                proof {
                    lemma_map_of_update(self.entries@, i as int, (key, element));
                }
                self.entries.set(i, (key, element));
            },
            None => {
                let ghost s = self.entries@;
                self.entries.push((key, element));
                assert(self.entries@.drop_last() =~= s);
            },
        }
    }

    /// Inserts `element` under its own identifier, replacing what was there.
    pub fn upsert(&mut self, element: UiElement)
        requires
            old(self).wf(),
        ensures
            final(self).wf(),
            final(self)@ == old(self)@.insert(element.spec_id(), element),
    {
        let key = element.id().clone();
        self.insert_at(key, element);
    }

    /// The element held under `id`, if any.
    pub fn lookup(&self, id: &str) -> (r: Option<&UiElement>)
        requires
            self.wf(),
        ensures
            match r {
                Some(e) => self@.contains_key(id@) && *e == self@[id@],
                None => !self@.contains_key(id@),
            },
    {
        proof {
            lemma_map_of_dom(self.entries@, id@);
        }
        match self.find(id) {
            Some(i) => {
                proof {
                    lemma_map_of_index(self.entries@, i as int);
                }
                Some(&self.entries[i].1)
            },
            None => None,
        }
    }

    /// An independent copy of every current element.
    pub fn snapshot(&self) -> (r: Vec<UiElement>)
        requires
            self.wf(),
        ensures
            is_snapshot_of(r@, self@),
    {
        let mut out: Vec<UiElement> = Vec::new();
        let mut i: usize = 0;
        while i < self.entries.len()
            invariant
                0 <= i <= self.entries@.len(),
                out@.len() == i,
                forall|k: int| 0 <= k < i ==> out@[k] == self.entries@[k].1,
            decreases self.entries@.len() - i,
        {
            out.push(self.entries[i].1.duplicate());
            i = i + 1;
        }
        let ghost keys = self.entries@.map_values(|p: (String, UiElement)| p.0@);
        proof {
            assert forall|k: Seq<char>| self@.contains_key(k) <==> keys.contains(k) by {
                lemma_map_of_dom(self.entries@, k);
                if self@.contains_key(k) {
                    let j = choose|j: int| 0 <= j < self.entries@.len() && self.entries@[j].0@ == k;
                    assert(keys[j] == k);
                }
            }
            assert forall|j: int| 0 <= j < keys.len() implies out@[j] == self@[#[trigger] keys[j]] by {
                lemma_map_of_index(self.entries@, j);
            }
            assert(keys.no_duplicates());
        }
        out
    }
}

/// Upserting two elements with the same identifier leaves exactly one entry
/// under it, and that entry holds the second element.
pub proof fn lemma_upsert_twice(before: Registry, mid: Registry, after: Registry, first: UiElement, second: UiElement)
    requires
        before.wf(),
        first.spec_id() == second.spec_id(),
        mid.wf(),
        mid@ == before@.insert(first.spec_id(), first),
        after.wf(),
        after@ == mid@.insert(second.spec_id(), second),
    ensures
        after@ == before@.insert(second.spec_id(), second),
        after@[second.spec_id()] == second,
        after.occurrences(second.spec_id()) == 1,
{
    assert(after@ =~= before@.insert(second.spec_id(), second));
    lemma_count_key(after.entries@, second.spec_id());
}

/// A snapshot holds the element stored under each identifier of the registry.
pub proof fn lemma_snapshot_holds(elements: Seq<UiElement>, m: Map<Seq<char>, UiElement>, key: Seq<char>)
    requires
        is_snapshot_of(elements, m),
        m.contains_key(key),
    ensures
        elements.contains(m[key]),
{
    let keys = choose|keys: Seq<Seq<char>>|
        {
            &&& keys.len() == elements.len()
            &&& keys.no_duplicates()
            &&& forall|k: Seq<char>| m.contains_key(k) <==> keys.contains(k)
            &&& forall|i: int| 0 <= i < keys.len() ==> elements[i] == m[#[trigger] keys[i]]
        };
    assert(keys.contains(key));
    let i = choose|i: int| 0 <= i < keys.len() && keys[i] == key;
    assert(elements[i] == m[keys[i]]);
}

} // verus!
