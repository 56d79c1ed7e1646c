//! Properties that hold across calls, proved over the models that the
//! functions' contracts use.
use vstd::prelude::*;
use crate::auth_store::with;
use crate::bot::{
    BotModel,
    model_wf,
    execute_model,
    private_outcome,
    no_username_reply,
    not_authorized_reply,
};
use crate::command::CommandModel;
use crate::response_table::{Entries, keys_unique, has_key, key_pos, lookup, upserted, removed};

verus! {

/// Storing `v` for `k` keeps usernames unique, and afterwards `k` has exactly
/// the reply `v`, in the place of its old entry or in a new last one.
pub proof fn lemma_upserted(e: Entries, k: Seq<char>, v: Seq<char>)
    requires
        keys_unique(e),
    ensures
        keys_unique(upserted(e, k, v)),
        has_key(upserted(e, k, v), k),
        key_pos(upserted(e, k, v), k) == if has_key(e, k) {
            key_pos(e, k)
        } else {
            e.len() as int
        },
        lookup(upserted(e, k, v), k) == Some(v),
        upserted(e, k, v).len() == if has_key(e, k) {
            e.len()
        } else {
            e.len() + 1
        },
{
    let e2 = upserted(e, k, v);
    let p: int = if has_key(e, k) {
        key_pos(e, k)
    } else {
        e.len() as int
    };
    assert(e2[p] == (k, v));
    assert forall|i: int, j: int|
        0 <= i < e2.len() && 0 <= j < e2.len() && i != j implies e2[i].0 != e2[j].0 by {
        if i != p && j != p {
            assert(e2[i] == e[i] && e2[j] == e[j]);
        } else if i == p {
            assert(e2[j] == e[j]);
        } else {
            assert(e2[i] == e[i]);
        }
    }
    assert(e2[p].0 == k);
    assert(has_key(e2, k));
    let q = key_pos(e2, k);
    assert(e2[q].0 == k);
    assert(q == p);
}

/// A username with no stored reply still has none after the reply of another
/// username is stored or removed.
pub proof fn lemma_absent_stays_absent(e: Entries, u: Seq<char>, k: Seq<char>, v: Seq<char>)
    requires
        keys_unique(e),
        lookup(e, u) is None,
        k != u,
    ensures
        lookup(upserted(e, k, v), u) is None,
        lookup(removed(e, k), u) is None,
{
    let e2 = upserted(e, k, v);
    if has_key(e2, u) {
        let i = choose|i: int| 0 <= i < e2.len() && #[trigger] e2[i].0 == u;
        if has_key(e, k) {
            if i != key_pos(e, k) {
                assert(e[i].0 == u);
            }
        } else if i < e.len() {
            assert(e[i].0 == u);
        }
    }
    let e3 = removed(e, k);
    if has_key(e3, u) {
        let i = choose|i: int| 0 <= i < e3.len() && #[trigger] e3[i].0 == u;
        let p = key_pos(e, k);
        if i < p {
            assert(e[i].0 == u);
        } else {
            assert(e[i + 1].0 == u);
        }
    }
}

/// Adding the same reply for the same username twice changes nothing the
/// second time: the reply and the state are those of the first, and the
/// username has exactly one entry, holding that reply.
pub proof fn lemma_add_user_twice(s: BotModel, username: Seq<char>, body: Seq<char>)
    requires
        model_wf(s),
    ensures
        ({
            let c = CommandModel::AddUser { username, body };
            let once = execute_model(c, s);
            &&& execute_model(c, once.1) == once
            &&& model_wf(once.1)
            &&& lookup(once.1.mappings, username) == Some(body)
        }),
{
    let e = s.mappings;
    lemma_upserted(e, username, body);
    let e1 = upserted(e, username, body);
    lemma_upserted(e1, username, body);
    let p = key_pos(e1, username);
    assert(e1[p] == (username, body));
    assert(upserted(e1, username, body) =~= e1);
}

/// A second reply for a username replaces the first: one entry remains for
/// it, holding the second reply.
pub proof fn lemma_add_user_overwrites(
    s: BotModel,
    username: Seq<char>,
    first: Seq<char>,
    second: Seq<char>,
)
    requires
        model_wf(s),
    ensures
        ({
            let s1 = execute_model(CommandModel::AddUser { username, body: first }, s).1;
            let s2 = execute_model(CommandModel::AddUser { username, body: second }, s1).1;
            &&& model_wf(s2)
            &&& lookup(s2.mappings, username) == Some(second)
            &&& s2.mappings.len() == s1.mappings.len()
        }),
{
    lemma_upserted(s.mappings, username, first);
    lemma_upserted(upserted(s.mappings, username, first), username, second);
}

/// Whitelisting a username twice leaves the whitelist as once: it holds the
/// username, and no username twice.
pub proof fn lemma_whitelist_add_twice(s: BotModel, username: Seq<char>)
    requires
        model_wf(s),
    ensures
        ({
            let c = CommandModel::WhitelistAdd { username };
            let s1 = execute_model(c, s).1;
            &&& execute_model(c, s1).1 == s1
            &&& s1.whitelist.contains(username)
            &&& s1.whitelist.no_duplicates()
        }),
{
    let w = s.whitelist;
    if !w.contains(username) {
        let w1 = w.push(username);
        assert(w1[w.len() as int] == username);
        assert forall|i: int, j: int|
            0 <= i < w1.len() && 0 <= j < w1.len() && i != j implies w1[i] != w1[j] by {
            if i == w.len() {
                assert(w.contains(w[j]));
            } else if j == w.len() {
                assert(w.contains(w[i]));
            }
        }
    }
    assert(with(w, username).contains(username));
}

/// A private message from a username that is not whitelisted gets the fixed
/// refusal and changes nothing, whatever its text.
pub proof fn lemma_unauthorized_changes_nothing(s: BotModel, username: Seq<char>, text: Seq<char>)
    requires
        !s.whitelist.contains(username),
    ensures
        private_outcome(s, Some(username), text) == (not_authorized_reply(), s),
{
}

/// A private message from a sender without a username gets the fixed error
/// and changes nothing, whatever its text.
pub proof fn lemma_no_username_changes_nothing(s: BotModel, text: Seq<char>)
    ensures
        private_outcome(s, None, text) == (no_username_reply(), s),
{
}

} // verus!
