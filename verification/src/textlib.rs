//! Small text utilities shared by the formatters: substring occurrence,
//! suffix reasoning, literal matching, and concatenation helpers.

use vstd::prelude::*;
use vstd::string::*;

verus! {

/// `x` occurs somewhere inside `s`.
pub open spec fn appears(s: Seq<char>, x: Seq<char>) -> bool {
    exists|k: int| 0 <= k && k + x.len() <= s.len() && #[trigger] s.subrange(k, k + x.len()) == x
}

/// `t` is a suffix of `s`.
pub open spec fn suffix_of(t: Seq<char>, s: Seq<char>) -> bool {
    exists|j: int| 0 <= j <= s.len() && s.skip(j) == t
}

pub proof fn lemma_appears_here(a: Seq<char>, x: Seq<char>, b: Seq<char>)
    ensures
        appears(a + (x + b), x),
{
    let s = a + (x + b);
    let k = a.len() as int;
    assert(s.subrange(k, k + x.len()) =~= x);
}

pub proof fn lemma_appears_in_suffix(s: Seq<char>, t: Seq<char>, x: Seq<char>)
    requires
        suffix_of(t, s),
        appears(t, x),
    ensures
        appears(s, x),
{
    let j = choose|j: int| 0 <= j <= s.len() && s.skip(j) == t;
    let k = choose|k: int|
        0 <= k && k + x.len() <= t.len() && #[trigger] t.subrange(k, k + x.len()) == x;
    assert(s.subrange(j + k, j + k + x.len()) =~= t.subrange(k, k + x.len()));
}

pub proof fn lemma_suffix_step(a: Seq<char>, t: Seq<char>)
    ensures
        suffix_of(t, a + t),
{
    let s = a + t;
    assert(s.skip(a.len() as int) =~= t);
}

pub proof fn lemma_suffix_trans(u: Seq<char>, t: Seq<char>, s: Seq<char>)
    requires
        suffix_of(u, t),
        suffix_of(t, s),
    ensures
        suffix_of(u, s),
{
    let j = choose|j: int| 0 <= j <= s.len() && s.skip(j) == t;
    let k = choose|k: int| 0 <= k <= t.len() && t.skip(k) == u;
    assert forall|m: int| 0 <= m < u.len() implies s.skip(j + k)[m] == u[m] by {
        assert(s.skip(j + k)[m] == s[j + k + m]);
        assert(s.skip(j)[k + m] == s[j + k + m]);
        assert(t.skip(k)[m] == t[k + m]);
    }
    assert(s.skip(j + k) =~= u);
}

/// What matching the literal `lit` at position `i` of `s` yields: the
/// position after the match, or nothing where `lit` does not stand there.
pub open spec fn sp_lit(s: Seq<char>, i: nat, lit: Seq<char>) -> Option<nat> {
    if i + lit.len() <= s.len() && s.subrange(i as int, (i + lit.len()) as int) == lit {
        Some((i + lit.len()) as nat)
    } else {
        None
    }
}

/// Match the literal `lit` at position `i` of `s`, refining [`sp_lit`].
pub fn eat_lit(s: &str, i: usize, lit: &str) -> (r: Option<usize>)
    requires
        i <= s@.len(),
    ensures
        match r {
            Some(j) => sp_lit(s@, i as nat, lit@) == Some(j as nat) && i <= j <= s@.len(),
            None => sp_lit(s@, i as nat, lit@) is None,
        },
{
    let n = s.unicode_len();
    let m = lit.unicode_len();
    if m > n - i {
        return None;
    }
    let mut k: usize = 0;
    while k < m
        invariant
            k <= m,
            i + m <= n,
            n == s@.len(),
            m == lit@.len(),
            forall|t: int| 0 <= t < k ==> s@[i + t] == lit@[t],
        decreases m - k,
    {
        let a = s.get_char(i + k);
        let b = lit.get_char(k);
        if a as u32 != b as u32 {
            proof {
                assert(s@[i + k as int] != lit@[k as int]);
                if i + m <= s@.len() && s@.subrange(i as int, (i + m) as int) == lit@ {
                    assert(s@.subrange(i as int, (i + m) as int)[k as int] == s@[i + k]);
                }
            }
            return None;
        }
        k += 1;
    }
    proof {
        assert(s@.subrange(i as int, (i + m) as int) =~= lit@);
    }
    Some(i + m)
}

/// Relies on std's `String::push`: it appends exactly the one character.
#[verifier::external_body]
pub fn push_char(s: &mut String, c: char)
    ensures
        final(s)@ == old(s)@.push(c),
{
    s.push(c);
}

/// Concatenation of a literal, a middle part, and a rest, grouped the way
/// the formatters' specifications are.
pub fn cat3(lit: &str, mid: &str, rest: &str) -> (s: String)
    ensures
        s@ == lit@ + (mid@ + rest@),
{
    let mut s = lit.to_owned();
    s.append(mid);
    s.append(rest);
    proof {
        assert(s@ =~= lit@ + (mid@ + rest@));
    }
    s
}

} // verus!
