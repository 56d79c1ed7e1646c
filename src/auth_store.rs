//! The whitelist of usernames that may configure the bot.
use vstd::prelude::*;
use crate::text::texts;

verus! {

/// `s` with every occurrence of `x` taken out, the rest in order.
pub open spec fn without(s: Seq<Seq<char>>, x: Seq<char>) -> Seq<Seq<char>>
    decreases s.len(),
{
    if s.len() == 0 {
        s
    } else if s.last() == x {
        without(s.drop_last(), x)
    } else {
        without(s.drop_last(), x).push(s.last())
    }
}

/// `s` with `x` added at the end, unless `x` is in it already.
pub open spec fn with(s: Seq<Seq<char>>, x: Seq<char>) -> Seq<Seq<char>> {
    if s.contains(x) {
        s
    } else {
        s.push(x)
    }
}

proof fn lemma_without_members(s: Seq<Seq<char>>, x: Seq<char>)
    requires
        s.no_duplicates(),
    ensures
        without(s, x).no_duplicates(),
        forall|y: Seq<char>| #[trigger] without(s, x).contains(y) <==> (s.contains(y) && y != x),
    decreases s.len(),
{
    if s.len() > 0 {
        let p = s.drop_last();
        assert(p.no_duplicates());
        lemma_without_members(p, x);
        assert forall|y: Seq<char>| s.contains(y) <==> (p.contains(y) || y == s.last()) by {
            if s.contains(y) {
                let j = choose|j: int| 0 <= j < s.len() && s[j] == y;
                if j < s.len() - 1 {
                    assert(p[j] == y);
                }
            }
            if p.contains(y) {
                let j = choose|j: int| 0 <= j < p.len() && p[j] == y;
                assert(s[j] == y);
            }
            if y == s.last() {
                assert(s[s.len() - 1] == y);
            }
        }
        if s.last() != x {
            let w = without(p, x);
            assert(!p.contains(s.last())) by {
                if p.contains(s.last()) {
                    let j = choose|j: int| 0 <= j < p.len() && p[j] == s.last();
                    assert(s[j] == s[s.len() - 1]);
                }
            }
            assert forall|y: Seq<char>| w.push(s.last()).contains(y) <==> (w.contains(y) || y
                == s.last()) by {
                if w.push(s.last()).contains(y) {
                    let j = choose|j: int| 0 <= j < w.len() + 1 && w.push(s.last())[j] == y;
                    if j < w.len() {
                        assert(w[j] == y);
                    }
                }
                if w.contains(y) {
                    let j = choose|j: int| 0 <= j < w.len() && w[j] == y;
                    assert(w.push(s.last())[j] == y);
                }
                if y == s.last() {
                    assert(w.push(s.last())[w.len() as int] == y);
                }
            }
            assert(without(s, x) == w.push(s.last()));
            assert(w.push(s.last()).no_duplicates()) by {
                assert forall|i: int, j: int|
                    0 <= i < w.len() + 1 && 0 <= j < w.len() + 1 && i != j implies w.push(
                    s.last())[i] != w.push(s.last())[j] by {
                    if i == w.len() {
                        assert(w.contains(w[j]));
                    } else if j == w.len() {
                        assert(w.contains(w[i]));
                    }
                }
            }
        }
        assert forall|y: Seq<char>| #[trigger] without(s, x).contains(y) <==> (s.contains(y) && y
            != x) by {
            assert(without(p, x).contains(y) <==> (p.contains(y) && y != x));
        }
    }
}

/// The whitelist: usernames in the order they were added, none twice.
pub struct AuthStore {
    users: Vec<String>,
}

impl View for AuthStore {
    type V = Seq<Seq<char>>;

    closed spec fn view(&self) -> Seq<Seq<char>> {
        texts(self.users@)
    }
}

impl AuthStore {
    /// No username occurs twice.
    pub open spec fn wf(&self) -> bool {
        self@.no_duplicates()
    }

    pub fn new() -> (r: AuthStore)
        ensures
            r.wf(),
            r@ == Seq::<Seq<char>>::empty(),
    {
        let r = AuthStore { users: Vec::new() };
        assert(r@ =~= Seq::<Seq<char>>::empty());
        r
    }

    /// Whether `username` is on the whitelist, compared exactly.
    pub fn contains(&self, username: &str) -> (r: bool)
        ensures
            r == self@.contains(username@),
    {
        let key = String::from_str(username);
        let n = self.users.len();
        let mut i: usize = 0;
        while i < n
            invariant
                n == self.users@.len(),
                i <= n,
                key@ == username@,
                forall|j: int| 0 <= j < i ==> self@[j] != username@,
            decreases n - i,
        {
            if self.users[i].eq(&key) {
                assert(self@[i as int] == username@);
                return true;
            }
            i = i + 1;
        }
        false
    }

    /// Adds `username` at the end unless it is there already.
    pub fn add(&mut self, username: &str)
        requires
            old(self).wf(),
        ensures
            final(self).wf(),
            final(self)@ == with(old(self)@, username@),
    {
        if !self.contains(username) {
            let u = String::from_str(username);
            self.users.push(u);
            proof {
                let s = old(self)@;
                assert(self@ =~= s.push(username@));
                assert forall|i: int, j: int|
                    0 <= i < self@.len() && 0 <= j < self@.len() && i != j implies self@[i]
                    != self@[j] by {
                    if i == s.len() {
                        assert(s.contains(s[j]));
                    } else if j == s.len() {
                        assert(s.contains(s[i]));
                    }
                }
            }
        }
    }

    /// Takes every occurrence of `username` out; says whether there was one.
    pub fn remove(&mut self, username: &str) -> (r: bool)
        requires
            old(self).wf(),
        ensures
            final(self).wf(),
            r == old(self)@.contains(username@),
            final(self)@ == without(old(self)@, username@),
    {
        let key = String::from_str(username);
        let mut kept: Vec<String> = Vec::new();
        let mut found = false;
        let n = self.users.len();
        let mut i: usize = 0;
        while i < n
            invariant
                n == self.users@.len(),
                i <= n,
                key@ == username@,
                texts(kept@) == without(self@.take(i as int), username@),
                found == self@.take(i as int).contains(username@),
            decreases n - i,
        {
            let ghost t = self@.take(i as int);
            let ghost t1 = self@.take(i + 1);
            assert(t1.drop_last() =~= t);
            assert(t1.last() == self@[i as int]);
            assert forall|y: Seq<char>| t1.contains(y) <==> (t.contains(y) || y == self@[i as int]) by {
                if t1.contains(y) {
                    let j = choose|j: int| 0 <= j < t1.len() && t1[j] == y;
                    if j < i {
                        assert(t[j] == y);
                    }
                }
                if t.contains(y) {
                    let j = choose|j: int| 0 <= j < t.len() && t[j] == y;
                    assert(t1[j] == y);
                }
                if y == self@[i as int] {
                    assert(t1[i as int] == y);
                }
            }
            if self.users[i].eq(&key) {
                found = true;
            } else {
                let ghost before = kept@;
                kept.push(self.users[i].clone());
                assert(texts(kept@) =~= texts(before).push(self@[i as int]));
            }
            i = i + 1;
        }
        assert(self@.take(n as int) =~= self@);
        proof {
            lemma_without_members(self@, username@);
        }
        self.users = kept;
        found
    }

    /// The usernames, in the order they were added.
    pub fn list(&self) -> (r: Vec<String>)
        ensures
            texts(r@) == self@,
    {
        self.users.clone()
    }

    pub fn is_empty(&self) -> (r: bool)
        ensures
            r == (self@.len() == 0),
    {
        self.users.len() == 0
    }
}

} // verus!
