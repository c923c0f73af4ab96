//! Verified character-level string utilities: equality, prefix and substring
//! tests, and splitting on a separator character.

use vstd::prelude::*;
use vstd::string::*;

verus! {

/// `p` is a prefix of `s`.
pub open spec fn seq_starts_with(s: Seq<char>, p: Seq<char>) -> bool {
    p.len() <= s.len() && s.subrange(0, p.len() as int) == p
}

/// `sub` occurs somewhere in `s` as a contiguous run.
pub open spec fn seq_contains(s: Seq<char>, sub: Seq<char>) -> bool {
    exists|i: int|
        0 <= i <= s.len() - sub.len() && #[trigger] s.subrange(i, i + sub.len() as int) == sub
}

/// Index of the first occurrence of `c` in `s`, if any.
pub open spec fn index_of_char(s: Seq<char>, c: char) -> Option<int>
    decreases s.len(),
{
    if s.len() == 0 {
        None
    } else if s[0] == c {
        Some(0)
    } else {
        match index_of_char(s.skip(1), c) {
            Some(i) => Some(i + 1),
            None => None,
        }
    }
}

proof fn lemma_index_of_char_in_range(s: Seq<char>, c: char)
    ensures
        index_of_char(s, c) matches Some(i) ==> 0 <= i < s.len(),
    decreases s.len(),
{
    if s.len() > 0 {
        lemma_index_of_char_in_range(s.skip(1), c);
    }
}

/// The pieces of `s` between occurrences of `sep`. Splitting the empty
/// string yields one empty piece, as `str::split` does.
pub open spec fn split_on(s: Seq<char>, sep: char) -> Seq<Seq<char>>
    decreases s.len(),
    via split_on_decreases
{
    match index_of_char(s, sep) {
        None => seq![s],
        Some(i) => seq![s.subrange(0, i)] + split_on(s.skip(i + 1), sep),
    }
}

#[via_fn]
proof fn split_on_decreases(s: Seq<char>, sep: char) {
    lemma_index_of_char_in_range(s, sep);
}

proof fn lemma_index_of_char_none(s: Seq<char>, c: char)
    requires
        forall|j: int| 0 <= j < s.len() ==> s[j] != c,
    ensures
        index_of_char(s, c) is None,
    decreases s.len(),
{
    if s.len() > 0 {
        assert(forall|j: int| 0 <= j < s.skip(1).len() ==> s.skip(1)[j] == s[j + 1]);
        lemma_index_of_char_none(s.skip(1), c);
    }
}

proof fn lemma_index_of_char_at(s: Seq<char>, c: char, k: int)
    requires
        0 <= k < s.len(),
        s[k] == c,
        forall|j: int| 0 <= j < k ==> s[j] != c,
    ensures
        index_of_char(s, c) == Some(k),
    decreases s.len(),
{
    if k > 0 {
        assert(forall|j: int| 0 <= j < s.skip(1).len() ==> s.skip(1)[j] == s[j + 1]);
        lemma_index_of_char_at(s.skip(1), c, k - 1);
    }
}

/// Character-wise string equality.
pub fn str_eq(a: &str, b: &str) -> (r: bool)
    ensures
        r == (a@ == b@),
{
    let an = a.unicode_len();
    let bn = b.unicode_len();
    if an != bn {
        proof {
            assert(a@ != b@) by {
                assert(a@.len() != b@.len());
            }
        }
        return false;
    }
    let mut i: usize = 0;
    while i < an
        invariant
            an == a@.len(),
            an == b@.len(),
            0 <= i <= an,
            forall|j: int| 0 <= j < i ==> a@[j] == b@[j],
        decreases an - i,
    {
        if a.get_char(i) != b.get_char(i) {
            proof {
                assert(a@[i as int] != b@[i as int]);
            }
            return false;
        }
        i = i + 1;
    }
    proof {
        assert(a@ =~= b@);
    }
    true
}

/// Does `s` begin with `p`?
pub fn str_starts_with(s: &str, p: &str) -> (r: bool)
    ensures
        r == seq_starts_with(s@, p@),
{
    let sn = s.unicode_len();
    let pn = p.unicode_len();
    if pn > sn {
        return false;
    }
    let mut i: usize = 0;
    while i < pn
        invariant
            sn == s@.len(),
            pn == p@.len(),
            pn <= sn,
            0 <= i <= pn,
            forall|j: int| 0 <= j < i ==> s@[j] == p@[j],
        decreases pn - i,
    {
        if s.get_char(i) != p.get_char(i) {
            proof {
                assert(s@.subrange(0, p@.len() as int)[i as int] == s@[i as int]);
                assert(s@.subrange(0, p@.len() as int) != p@);
            }
            return false;
        }
        i = i + 1;
    }
    proof {
        assert(s@.subrange(0, p@.len() as int) =~= p@);
    }
    true
}

/// Does `s.subrange(at, at + p.len())` equal `p`?
fn str_matches_at(s: &str, at: usize, p: &str) -> (r: bool)
    requires
        at + p@.len() <= s@.len(),
    ensures
        r == (s@.subrange(at as int, at + p@.len() as int) == p@),
{
    let sn = s.unicode_len();
    let pn = p.unicode_len();
    let mut i: usize = 0;
    while i < pn
        invariant
            sn == s@.len(),
            pn == p@.len(),
            at + pn <= sn,
            0 <= i <= pn,
            forall|j: int| 0 <= j < i ==> s@[at + j] == p@[j],
        decreases pn - i,
    {
        if s.get_char(at + i) != p.get_char(i) {
            proof {
                assert(s@.subrange(at as int, at + p@.len() as int)[i as int] == s@[at + i]);
                assert(s@.subrange(at as int, at + p@.len() as int) != p@);
            }
            return false;
        }
        i = i + 1;
    }
    proof {
        assert(s@.subrange(at as int, at + p@.len() as int) =~= p@);
    }
    true
}

/// Does `sub` occur somewhere in `s`?
pub fn str_contains(s: &str, sub: &str) -> (r: bool)
    ensures
        r == seq_contains(s@, sub@),
{
    let sn = s.unicode_len();
    let subn = sub.unicode_len();
    if subn > sn {
        return false;
    }
    if subn == 0 {
        proof {
            assert(s@.subrange(0, 0 + sub@.len() as int) =~= sub@);
        }
        return true;
    }
    let bound = sn - subn;
    let mut i: usize = 0;
    while i <= bound
        invariant
            sn == s@.len(),
            subn == sub@.len(),
            1 <= subn <= sn,
            bound == sn - subn,
            0 <= i <= bound + 1,
            forall|k: int|
                0 <= k < i ==> #[trigger] s@.subrange(k, k + sub@.len() as int) != sub@,
        decreases bound + 1 - i,
    {
        if str_matches_at(s, i, sub) {
            return true;
        }
        i = i + 1;
    }
    false
}

/// Split `s` at every `/`, keeping empty pieces, as `str::split('/')` does.
pub fn split_slash(s: &str) -> (r: Vec<&str>)
    ensures
        r@.map_values(|p: &str| p@) == split_on(s@, '/'),
{
    let n = s.unicode_len();
    let mut parts: Vec<&str> = Vec::new();
    let mut start: usize = 0;
    let mut i: usize = 0;
    proof {
        reveal_strlit("/");
        assert(s@.skip(0) =~= s@);
        assert(parts@.map_values(|p: &str| p@) =~= Seq::<Seq<char>>::empty());
        assert(Seq::<Seq<char>>::empty() + split_on(s@, '/') =~= split_on(s@, '/'));
    }
    while i < n
        invariant
            n == s@.len(),
            0 <= start <= i <= n,
            forall|j: int| start <= j < i ==> s@[j] != '/',
            split_on(s@, '/') == parts@.map_values(|p: &str| p@) + split_on(
                s@.skip(start as int),
                '/',
            ),
        decreases n - i,
    {
        if s.get_char(i) == '/' {
            let piece = s.substring_char(start, i);
            proof {
                let rest = s@.skip(start as int);
                assert(forall|j: int| 0 <= j < i - start ==> rest[j] == s@[start + j]);
                lemma_index_of_char_at(rest, '/', i - start);
                assert(rest.subrange(0, i - start) =~= s@.subrange(start as int, i as int));
                assert(rest.skip(i - start + 1) =~= s@.skip(i + 1));
                assert(split_on(rest, '/') == seq![s@.subrange(start as int, i as int)]
                    + split_on(s@.skip(i + 1), '/'));
            }
            let ghost old_parts = parts@;
            parts.push(piece);
            proof {
                let piece_seq = seq![s@.subrange(start as int, i as int)];
                assert(parts@.map_values(|p: &str| p@) =~= old_parts.map_values(|p: &str| p@)
                    + piece_seq);
                assert((old_parts.map_values(|p: &str| p@) + piece_seq) + split_on(
                    s@.skip(i + 1),
                    '/',
                ) =~= old_parts.map_values(|p: &str| p@) + (piece_seq + split_on(
                    s@.skip(i + 1),
                    '/',
                )));
                assert(split_on(s@, '/') == parts@.map_values(|p: &str| p@) + split_on(
                    s@.skip(i + 1),
                    '/',
                ));
            }
            start = i + 1;
        }
        i = i + 1;
    }
    let piece = s.substring_char(start, n);
    proof {
        let rest = s@.skip(start as int);
        assert(forall|j: int| 0 <= j < rest.len() ==> rest[j] == s@[start + j]);
        lemma_index_of_char_none(rest, '/');
        assert(rest =~= s@.subrange(start as int, n as int));
        assert(split_on(rest, '/') == seq![s@.subrange(start as int, n as int)]);
    }
    let ghost old_parts = parts@;
    parts.push(piece);
    proof {
        assert(parts@.map_values(|p: &str| p@) =~= old_parts.map_values(|p: &str| p@)
            + seq![s@.subrange(start as int, n as int)]);
        assert(parts@.map_values(|p: &str| p@) == split_on(s@, '/'));
    }
    parts
}

} // verus!
