//! Character-level helpers: whitespace tokenizing, `@` stripping and joining.
use vstd::prelude::*;

verus! {

/// The Unicode `White_Space` property, as `char::is_whitespace` documents it.
pub open spec fn is_ws(c: char) -> bool {
    let n = c as u32;
    (0x09 <= n && n <= 0x0d) || n == 0x20 || n == 0x85 || n == 0xa0 || n == 0x1680 || (0x2000
        <= n && n <= 0x200a) || n == 0x2028 || n == 0x2029 || n == 0x202f || n == 0x205f || n
        == 0x3000
}

/// The words of `s` when the word in progress is `cur`.
pub open spec fn split_from(s: Seq<char>, cur: Seq<char>) -> Seq<Seq<char>>
    decreases s.len(),
{
    let done: Seq<Seq<char>> = if cur.len() == 0 {
        seq![]
    } else {
        seq![cur]
    };
    if s.len() == 0 {
        done
    } else if is_ws(s[0]) {
        done + split_from(s.drop_first(), seq![])
    } else {
        split_from(s.drop_first(), cur.push(s[0]))
    }
}

/// The maximal runs of non-whitespace characters of `s`, in order.
pub open spec fn split_ws(s: Seq<char>) -> Seq<Seq<char>> {
    split_from(s, seq![])
}

/// `s` without its leading `@` characters.
pub open spec fn strip_at(s: Seq<char>) -> Seq<char>
    decreases s.len(),
{
    if s.len() > 0 && s[0] == '@' {
        strip_at(s.drop_first())
    } else {
        s
    }
}

/// The parts, with `sep` between each two neighbours.
pub open spec fn join(parts: Seq<Seq<char>>, sep: Seq<char>) -> Seq<char>
    decreases parts.len(),
{
    if parts.len() == 0 {
        seq![]
    } else if parts.len() == 1 {
        parts[0]
    } else {
        join(parts.drop_last(), sep) + sep + parts.last()
    }
}

/// The character sequences of a run of strings.
pub open spec fn texts(v: Seq<String>) -> Seq<Seq<char>> {
    v.map_values(|s: String| s@)
}

pub fn is_whitespace(c: char) -> (r: bool)
    ensures
        r == is_ws(c),
{
    let n = c as u32;
    (0x09 <= n && n <= 0x0d) || n == 0x20 || n == 0x85 || n == 0xa0 || n == 0x1680 || (0x2000
        <= n && n <= 0x200a) || n == 0x2028 || n == 0x2029 || n == 0x202f || n == 0x205f || n
        == 0x3000
}

/// Splits `text` on runs of whitespace.
pub fn split_whitespace(text: &str) -> (r: Vec<String>)
    ensures
        texts(r@) == split_ws(text@),
{
    let n = text.unicode_len();
    let mut words: Vec<String> = Vec::new();
    let mut start: usize = 0;
    let mut i: usize = 0;
    assert(text@.skip(0) =~= text@);
    assert(text@.subrange(0, 0) =~= Seq::<char>::empty());
    assert(texts(words@) + split_ws(text@) =~= split_ws(text@));
    while i < n
        invariant
            n == text@.len(),
            start <= i <= n,
            texts(words@) + split_from(text@.skip(i as int), text@.subrange(start as int, i as int))
                == split_ws(text@),
        decreases n - i,
    {
        let c = text.get_char(i);
        let ghost rest = text@.skip(i as int);
        let ghost cur = text@.subrange(start as int, i as int);
        assert(rest[0] == c);
        assert(rest.drop_first() =~= text@.skip(i + 1));
        if is_whitespace(c) {
            if start < i {
                let w = String::from_str(text.substring_char(start, i));
                proof {
                    assert(texts(words@.push(w)) =~= texts(words@).push(cur));
                    assert(texts(words@).push(cur) =~= texts(words@) + seq![cur]);
                }
                words.push(w);
            } else {
                assert(cur.len() == 0);
                assert(texts(words@) + (seq![] + split_from(rest.drop_first(), seq![]))
                    =~= texts(words@) + split_from(rest.drop_first(), seq![]));
            }
            assert(text@.subrange(i + 1, i + 1) =~= Seq::<char>::empty());
            start = i + 1;
        } else {
            assert(cur.push(c) =~= text@.subrange(start as int, i + 1));
        }
        i = i + 1;
    }
    let ghost cur = text@.subrange(start as int, n as int);
    assert(text@.skip(n as int) =~= Seq::<char>::empty());
    if start < n {
        let w = String::from_str(text.substring_char(start, n));
        proof {
            assert(texts(words@.push(w)) =~= texts(words@) + seq![cur]);
        }
        words.push(w);
    } else {
        assert(texts(words@) + Seq::<Seq<char>>::empty() =~= texts(words@));
    }
    words
}

proof fn lemma_strip_at_skip(s: Seq<char>, k: int)
    requires
        0 <= k <= s.len(),
        forall|j: int| 0 <= j < k ==> s[j] == '@',
    ensures
        strip_at(s) == strip_at(s.skip(k)),
    decreases k,
{
    if k == 0 {
        assert(s.skip(0) =~= s);
    } else {
        assert(s.drop_first().skip(k - 1) =~= s.skip(k));
        lemma_strip_at_skip(s.drop_first(), k - 1);
    }
}

/// `text` without its leading `@` characters.
pub fn trim_at(text: &str) -> (r: String)
    ensures
        r@ == strip_at(text@),
{
    let n = text.unicode_len();
    let mut k: usize = 0;
    while k < n && text.get_char(k) == '@'
        invariant
            n == text@.len(),
            k <= n,
            forall|j: int| 0 <= j < k ==> text@[j] == '@',
        decreases n - k,
    {
        k = k + 1;
    }
    proof {
        lemma_strip_at_skip(text@, k as int);
        assert(text@.skip(k as int) =~= text@.subrange(k as int, n as int));
    }
    String::from_str(text.substring_char(k, n))
}

/// Joins `parts[from..]` with `sep` between each two neighbours.
pub fn join_from(parts: &Vec<String>, from: usize, sep: &str) -> (r: String)
    requires
        from <= parts@.len(),
    ensures
        r@ == join(texts(parts@).skip(from as int), sep@),
{
    let n = parts.len();
    if from == n {
        assert(texts(parts@).skip(from as int) =~= Seq::<Seq<char>>::empty());
        return String::new();
    }
    let mut r = parts[from].clone();
    let mut i: usize = from + 1;
    assert(texts(parts@).subrange(from as int, i as int) =~= seq![parts@[from as int]@]);
    while i < n
        invariant
            n == parts@.len(),
            from < i <= n,
            r@ == join(texts(parts@).subrange(from as int, i as int), sep@),
        decreases n - i,
    {
        let ghost prev = texts(parts@).subrange(from as int, i as int);
        let ghost next = texts(parts@).subrange(from as int, i + 1);
        assert(next.drop_last() =~= prev);
        r.append(sep);
        r.append(parts[i].as_str());
        i = i + 1;
    }
    assert(texts(parts@).subrange(from as int, n as int) =~= texts(parts@).skip(from as int));
    r
}

} // verus!
