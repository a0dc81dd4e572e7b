//! Small verified text utilities shared by the artifact generators.

use vstd::prelude::*;
use vstd::string::StringExecFns;

verus! {

/// The parts of `parts` concatenated in order with `sep` between neighbours.
pub open spec fn join_spec(parts: Seq<Seq<char>>, sep: Seq<char>) -> Seq<char>
    decreases parts.len(),
{
    if parts.len() == 0 {
        Seq::empty()
    } else if parts.len() == 1 {
        parts[0]
    } else {
        join_spec(parts.drop_last(), sep) + sep + parts.last()
    }
}

/// The parts of `parts` concatenated in order.
pub open spec fn concat_spec(parts: Seq<Seq<char>>) -> Seq<char>
    decreases parts.len(),
{
    if parts.len() == 0 {
        Seq::empty()
    } else {
        concat_spec(parts.drop_last()) + parts.last()
    }
}

/// Joins the strings of `parts` with `sep` between neighbours.
pub fn join_strs(parts: &Vec<String>, sep: &str) -> (r: String)
    ensures
        r@ == join_spec(parts.deep_view(), sep@),
{
    let ghost pv = parts.deep_view();
    let mut r = String::new();
    let mut i: usize = 0;
    while i < parts.len()
        invariant
            pv == parts.deep_view(),
            pv.len() == parts@.len(),
            i <= parts@.len(),
            r@ == join_spec(pv.take(i as int), sep@),
        decreases parts@.len() - i,
    {
        if i > 0 {
            r.append(sep);
        }
        r.append(parts[i].as_str());
        proof {
            assert(pv.take(i + 1).drop_last() =~= pv.take(i as int));
            assert(pv.take(i + 1).last() == pv[i as int]);
            if i == 0 {
                assert(r@ =~= join_spec(pv.take(i + 1), sep@));
            }
        }
        i = i + 1;
    }
    proof {
        assert(pv.take(parts@.len() as int) =~= pv);
    }
    r
}

/// Concatenates the strings of `parts` in order.
pub fn concat_strs(parts: &Vec<String>) -> (r: String)
    ensures
        r@ == concat_spec(parts.deep_view()),
{
    let ghost pv = parts.deep_view();
    let mut r = String::new();
    let mut i: usize = 0;
    while i < parts.len()
        invariant
            pv == parts.deep_view(),
            pv.len() == parts@.len(),
            i <= parts@.len(),
            r@ == concat_spec(pv.take(i as int)),
        decreases parts@.len() - i,
    {
        r.append(parts[i].as_str());
        proof {
            assert(pv.take(i + 1).drop_last() =~= pv.take(i as int));
            assert(pv.take(i + 1).last() == pv[i as int]);
        }
        i = i + 1;
    }
    proof {
        assert(pv.take(parts@.len() as int) =~= pv);
    }
    r
}

/// Compares two string slices character by character.
pub fn str_eq(a: &str, b: &str) -> (r: bool)
    ensures
        r == (a@ == b@),
{
    let n = a.unicode_len();
    let m = b.unicode_len();
    if n != m {
        return false;
    }
    let mut i: usize = 0;
    while i < n
        invariant
            n == a@.len(),
            n == b@.len(),
            i <= n,
            forall|j: int| 0 <= j < i ==> a@[j] == b@[j],
        decreases n - i,
    {
        let ca = a.get_char(i);
        let cb = b.get_char(i);
        if ca != cb {
            return false;
        }
        i = i + 1;
    }
    proof {
        assert(a@ =~= b@);
    }
    true
}

/// Copies a string slice into an owned string.
pub fn str_owned(s: &str) -> (r: String)
    ensures
        r@ == s@,
{
    s.to_owned()
}

/// Whether `c` occurs in `s`.
pub open spec fn contains_char_spec(s: Seq<char>, c: char) -> bool {
    exists|i: int| 0 <= i < s.len() && s[i] == c
}

/// Looks for an occurrence of `c` in `s`.
pub fn contains_char(s: &str, c: char) -> (r: bool)
    ensures
        r == contains_char_spec(s@, c),
{
    let n = s.unicode_len();
    let mut i: usize = 0;
    while i < n
        invariant
            n == s@.len(),
            i <= n,
            forall|j: int| 0 <= j < i ==> s@[j] != c,
        decreases n - i,
    {
        if s.get_char(i) == c {
            return true;
        }
        i = i + 1;
    }
    false
}

/// Whether `s` ends with the suffix `suf`.
pub open spec fn ends_with_spec(s: Seq<char>, suf: Seq<char>) -> bool {
    s.len() >= suf.len() && s.subrange(s.len() - suf.len(), s.len() as int) == suf
}

/// `s` with a final `suf` removed, or `s` unchanged if `suf` is not a suffix.
pub open spec fn strip_suffix_spec(s: Seq<char>, suf: Seq<char>) -> Seq<char> {
    if ends_with_spec(s, suf) {
        s.take(s.len() - suf.len())
    } else {
        s
    }
}

/// Whether `s` ends with `suf`.
pub fn ends_with(s: &str, suf: &str) -> (r: bool)
    ensures
        r == ends_with_spec(s@, suf@),
{
    let n = s.unicode_len();
    let k = suf.unicode_len();
    if n < k {
        return false;
    }
    let mut i: usize = 0;
    while i < k
        invariant
            n == s@.len(),
            k == suf@.len(),
            k <= n,
            i <= k,
            forall|j: int| 0 <= j < i ==> s@[n - k + j] == suf@[j],
        decreases k - i,
    {
        let cs = s.get_char(n - k + i);
        let cf = suf.get_char(i);
        if cs != cf {
            proof {
                assert(s@.subrange(s@.len() - suf@.len(), s@.len() as int)[i as int] == s@[n - k
                    + i]);
            }
            return false;
        }
        i = i + 1;
    }
    proof {
        assert(s@.subrange(s@.len() - suf@.len(), s@.len() as int) =~= suf@);
    }
    true
}

/// Copies the first `k` characters of `s`.
pub fn take_prefix(s: &str, k: usize) -> (r: String)
    requires
        k <= s@.len(),
    ensures
        r@ == s@.take(k as int),
{
    let mut r = String::new();
    let mut i: usize = 0;
    while i < k
        invariant
            k <= s@.len(),
            i <= k,
            r@ == s@.take(i as int),
        decreases k - i,
    {
        let c = s.get_char(i);
        crate::naming::push_char(&mut r, c);
        proof {
            assert(s@.take(i + 1) =~= s@.take(i as int).push(s@[i as int]));
        }
        i = i + 1;
    }
    r
}

/// `s` with a final `suf` removed, or `s` unchanged when it does not end
/// with `suf`.
pub fn strip_suffix(s: &str, suf: &str) -> (r: String)
    ensures
        r@ == strip_suffix_spec(s@, suf@),
{
    if ends_with(s, suf) {
        let n = s.unicode_len();
        let k = suf.unicode_len();
        take_prefix(s, n - k)
    } else {
        s.to_owned()
    }
}

} // verus!
