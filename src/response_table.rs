//! The table of canned replies, keyed by username.
use vstd::prelude::*;

verus! {

/// A table as the pairs (username, reply) it holds, in the order of their
/// first insertion.
pub type Entries = Seq<(Seq<char>, Seq<char>)>;

/// No username has two entries.
pub open spec fn keys_unique(e: Entries) -> bool {
    forall|i: int, j: int| 0 <= i < e.len() && 0 <= j < e.len() && i != j ==> e[i].0 != e[j].0
}

pub open spec fn has_key(e: Entries, k: Seq<char>) -> bool {
    exists|i: int| 0 <= i < e.len() && #[trigger] e[i].0 == k
}

/// Where the entry of `k` stands (meaningful when `has_key(e, k)`).
pub open spec fn key_pos(e: Entries, k: Seq<char>) -> int {
    choose|i: int| 0 <= i < e.len() && #[trigger] e[i].0 == k
}

/// The reply stored for `k`, if any.
pub open spec fn lookup(e: Entries, k: Seq<char>) -> Option<Seq<char>> {
    if has_key(e, k) {
        Some(e[key_pos(e, k)].1)
    } else {
        None
    }
}

/// `e` after storing `v` for `k`: the old entry of `k` is overwritten in
/// place, or a new one is appended.
pub open spec fn upserted(e: Entries, k: Seq<char>, v: Seq<char>) -> Entries {
    if has_key(e, k) {
        e.update(key_pos(e, k), (k, v))
    } else {
        e.push((k, v))
    }
}

/// `e` without the entry of `k`.
pub open spec fn removed(e: Entries, k: Seq<char>) -> Entries {
    if has_key(e, k) {
        e.remove(key_pos(e, k))
    } else {
        e
    }
}

/// The view of an `Option<String>`.
pub open spec fn opt_text(o: Option<String>) -> Option<Seq<char>> {
    match o {
        Some(s) => Some(s@),
        None => None,
    }
}

/// The view of a run of (username, reply) pairs.
pub open spec fn pair_texts(v: Seq<(String, String)>) -> Entries {
    v.map_values(|p: (String, String)| (p.0@, p.1@))
}

/// Canned replies keyed by username, at most one per username.
pub struct ResponseTable {
    entries: Vec<(String, String)>,
}

impl View for ResponseTable {
    type V = Entries;

    closed spec fn view(&self) -> Entries {
        pair_texts(self.entries@)
    }
}

impl ResponseTable {
    pub open spec fn wf(&self) -> bool {
        keys_unique(self@)
    }

    pub fn new() -> (r: ResponseTable)
        ensures
            r.wf(),
            r@ == Seq::<(Seq<char>, Seq<char>)>::empty(),
    {
        let r = ResponseTable { entries: Vec::new() };
        assert(r@ =~= Seq::<(Seq<char>, Seq<char>)>::empty());
        r
    }

    fn find(&self, key: &String) -> (r: Option<usize>)
        requires
            self.wf(),
        ensures
            match r {
                Some(i) => has_key(self@, key@) && i == key_pos(self@, key@) && i < self@.len(),
                None => !has_key(self@, key@),
            },
    {
        let n = self.entries.len();
        let mut i: usize = 0;
        while i < n
            invariant
                n == self@.len(),
                i <= n,
                self.wf(),
                forall|j: int| 0 <= j < i ==> self@[j].0 != key@,
            decreases n - i,
        {
            if self.entries[i].0.eq(key) {
                proof {
                    let e = self@;
                    assert(e[i as int].0 == key@);
                    assert(has_key(e, key@));
                    let p = key_pos(e, key@);
                    assert(0 <= p < e.len() && e[p].0 == key@);
                    assert(p == i as int);
                }
                return Some(i);
            }
            i = i + 1;
        }
        None
    }

    /// The reply stored for `username`, matched exactly.
    pub fn get(&self, username: &str) -> (r: Option<String>)
        requires
            self.wf(),
        ensures
            opt_text(r) == lookup(self@, username@),
    {
        let key = String::from_str(username);
        match self.find(&key) {
            Some(i) => Some(self.entries[i].1.clone()),
            None => None,
        }
    }

    /// Stores `body` for `username`, replacing what was stored before.
    pub fn upsert(&mut self, username: String, body: String)
        requires
            old(self).wf(),
        ensures
            final(self).wf(),
            final(self)@ == upserted(old(self)@, username@, body@),
    {
        let ghost e = self@;
        let ghost k = username@;
        let ghost v = body@;
        match self.find(&username) {
            Some(i) => {
                self.entries.set(i, (username, body));
                assert(self@ =~= e.update(i as int, (k, v)));
            },
            None => {
                self.entries.push((username, body));
                assert(self@ =~= e.push((k, v)));
                assert forall|i: int, j: int|
                    0 <= i < self@.len() && 0 <= j < self@.len() && i != j implies self@[i].0
                    != self@[j].0 by {
                    if i == e.len() {
                        assert(e[j].0 == self@[j].0);
                    } else if j == e.len() {
                        assert(e[i].0 == self@[i].0);
                    }
                }
            },
        }
    }

    /// Takes the entry of `username` out; says whether there was one.
    pub fn remove(&mut self, username: &str) -> (r: bool)
        requires
            old(self).wf(),
        ensures
            final(self).wf(),
            r == has_key(old(self)@, username@),
            final(self)@ == removed(old(self)@, username@),
    {
        let ghost e = self@;
        let key = String::from_str(username);
        match self.find(&key) {
            Some(i) => {
                self.entries.remove(i);
                assert(self@ =~= e.remove(i as int));
                assert forall|a: int, b: int|
                    0 <= a < self@.len() && 0 <= b < self@.len() && a != b implies self@[a].0
                    != self@[b].0 by {
                    let a2 = if a < i { a } else { a + 1 };
                    let b2 = if b < i { b } else { b + 1 };
                    assert(self@[a] == e[a2]);
                    assert(self@[b] == e[b2]);
                }
                true
            },
            None => false,
        }
    }

    /// The entries, in the order of their first insertion.
    pub fn list(&self) -> (r: Vec<(String, String)>)
        ensures
            pair_texts(r@) == self@,
    {
        let mut r: Vec<(String, String)> = Vec::new();
        let n = self.entries.len();
        let mut i: usize = 0;
        while i < n
            invariant
                n == self@.len(),
                i <= n,
                pair_texts(r@) =~= self@.take(i as int),
            decreases n - i,
        {
            let ghost before = r@;
            let k = self.entries[i].0.clone();
            let v = self.entries[i].1.clone();
            r.push((k, v));
            assert(pair_texts(r@) =~= pair_texts(before).push(self@[i as int]));
            assert(self@.take(i + 1) =~= self@.take(i as int).push(self@[i as int]));
            i = i + 1;
        }
        assert(self@.take(n as int) =~= self@);
        r
    }

    pub fn is_empty(&self) -> (r: bool)
        ensures
            r == (self@.len() == 0),
    {
        self.entries.len() == 0
    }
}

} // verus!
