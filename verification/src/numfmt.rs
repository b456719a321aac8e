//! Decimal rendering and parsing of unsigned 64-bit values, with the lemmas
//! that make the two directions inverse to each other.

use vstd::prelude::*;
use vstd::string::*;

verus! {

/// The decimal digit character for `d`.
pub open spec fn dec_digit(d: nat) -> char {
    if d == 0 {
        '0'
    } else if d == 1 {
        '1'
    } else if d == 2 {
        '2'
    } else if d == 3 {
        '3'
    } else if d == 4 {
        '4'
    } else if d == 5 {
        '5'
    } else if d == 6 {
        '6'
    } else if d == 7 {
        '7'
    } else if d == 8 {
        '8'
    } else {
        '9'
    }
}

/// Decimal rendering of `n`: most significant digit first, no leading zeros.
pub open spec fn dec_str(n: nat) -> Seq<char>
    decreases n,
{
    if n < 10 {
        seq![dec_digit(n)]
    } else {
        dec_str(n / 10).push(dec_digit(n % 10))
    }
}

pub open spec fn is_dec_digit(c: char) -> bool {
    '0' as u32 <= c as u32 && c as u32 <= '9' as u32
}

pub open spec fn digit_val(c: char) -> nat {
    (c as u32 - '0' as u32) as nat
}

/// Numeric value of a digit string, most significant digit first.
pub open spec fn dec_val(s: Seq<char>) -> nat
    decreases s.len(),
{
    if s.len() == 0 {
        0
    } else {
        dec_val(s.drop_last()) * 10 + digit_val(s.last())
    }
}

/// First position at or after `i` that does not hold a decimal digit.
pub open spec fn digits_end(s: Seq<char>, i: nat) -> nat
    decreases s.len() - i,
{
    if i < s.len() && is_dec_digit(s[i as int]) {
        digits_end(s, i + 1)
    } else {
        i
    }
}

/// What a greedy decimal scan from position `i` yields: the value and the
/// position after the digits, or nothing where no digit stands at `i` or the
/// value does not fit in 64 bits.
pub open spec fn sp_u64(s: Seq<char>, i: nat) -> Option<(u64, nat)> {
    let j = digits_end(s, i);
    if i < j && dec_val(s.subrange(i as int, j as int)) <= u64::MAX {
        Some((dec_val(s.subrange(i as int, j as int)) as u64, j))
    } else {
        None
    }
}

pub proof fn lemma_dec_digit_val(d: nat)
    requires
        d < 10,
    ensures
        digit_val(dec_digit(d)) == d,
        is_dec_digit(dec_digit(d)),
{
}

pub proof fn lemma_dec_str_digits(n: nat)
    ensures
        dec_str(n).len() >= 1,
        forall|i: int| 0 <= i < dec_str(n).len() ==> is_dec_digit(#[trigger] dec_str(n)[i]),
    decreases n,
{
    if n < 10 {
        lemma_dec_digit_val(n);
    } else {
        lemma_dec_str_digits(n / 10);
        lemma_dec_digit_val(n % 10);
        assert forall|i: int| 0 <= i < dec_str(n).len() implies is_dec_digit(
            #[trigger] dec_str(n)[i],
        ) by {
            if i < dec_str(n / 10).len() {
                assert(dec_str(n)[i] == dec_str(n / 10)[i]);
            } else {
                assert(dec_str(n)[i] == dec_digit(n % 10));
            }
        }
    }
}

/// Parsing inverts rendering: the value of the decimal string of `n` is `n`.
pub proof fn lemma_dec_val_of_dec_str(n: nat)
    ensures
        dec_val(dec_str(n)) == n,
    decreases n,
{
    if n < 10 {
        lemma_dec_digit_val(n);
        assert(dec_str(n).drop_last() =~= Seq::<char>::empty());
        assert(dec_str(n).last() == dec_digit(n));
        assert(dec_val(dec_str(n)) == dec_val(Seq::<char>::empty()) * 10 + digit_val(
            dec_digit(n),
        ));
    } else {
        lemma_dec_val_of_dec_str(n / 10);
        lemma_dec_digit_val(n % 10);
        assert(dec_str(n).drop_last() =~= dec_str(n / 10));
        assert(dec_str(n).last() == dec_digit(n % 10));
        assert(dec_val(dec_str(n)) == (n / 10) * 10 + (n % 10));
        vstd::arithmetic::div_mod::lemma_fundamental_div_mod(n as int, 10);
    }
}

/// Where a digit string `d` stands at position `i` of `s` and is followed by
/// a non-digit (or the end), the greedy scan stops exactly after `d`.
pub proof fn lemma_digits_end_of(s: Seq<char>, i: nat, d: Seq<char>)
    requires
        i + d.len() <= s.len(),
        s.subrange(i as int, (i + d.len()) as int) == d,
        forall|k: int| 0 <= k < d.len() ==> is_dec_digit(#[trigger] d[k]),
        i + d.len() == s.len() || !is_dec_digit(s[(i + d.len()) as int]),
    ensures
        digits_end(s, i) == i + d.len(),
    decreases d.len(),
{
    if d.len() == 0 {
    } else {
        assert(s[i as int] == s.subrange(i as int, (i + d.len()) as int)[0]);
        assert(is_dec_digit(s[i as int]));
        assert(s.subrange((i + 1) as int, (i + d.len()) as int) =~= d.drop_first());
        lemma_digits_end_of(s, i + 1, d.drop_first());
    }
}

pub fn digit_str(d: u64) -> (r: &'static str)
    requires
        d < 10,
    ensures
        r@ == seq![dec_digit(d as nat)],
{
    proof {
        reveal_strlit("0");
        reveal_strlit("1");
        reveal_strlit("2");
        reveal_strlit("3");
        reveal_strlit("4");
        reveal_strlit("5");
        reveal_strlit("6");
        reveal_strlit("7");
        reveal_strlit("8");
        reveal_strlit("9");
        assert("0"@ =~= seq!['0']);
        assert("1"@ =~= seq!['1']);
        assert("2"@ =~= seq!['2']);
        assert("3"@ =~= seq!['3']);
        assert("4"@ =~= seq!['4']);
        assert("5"@ =~= seq!['5']);
        assert("6"@ =~= seq!['6']);
        assert("7"@ =~= seq!['7']);
        assert("8"@ =~= seq!['8']);
        assert("9"@ =~= seq!['9']);
    }
    if d == 0 {
        "0"
    } else if d == 1 {
        "1"
    } else if d == 2 {
        "2"
    } else if d == 3 {
        "3"
    } else if d == 4 {
        "4"
    } else if d == 5 {
        "5"
    } else if d == 6 {
        "6"
    } else if d == 7 {
        "7"
    } else if d == 8 {
        "8"
    } else {
        "9"
    }
}

/// Render `n` in decimal.
pub fn u64_to_string(n: u64) -> (s: String)
    ensures
        s@ == dec_str(n as nat),
    decreases n,
{
    if n < 10 {
        digit_str(n).to_owned()
    } else {
        let mut s = u64_to_string(n / 10);
        s.append(digit_str(n % 10));
        proof {
            assert(s@ =~= dec_str(n as nat));
        }
        s
    }
}

/// Greedy decimal scan from position `i` of `s`, refining [`sp_u64`].
pub fn scan_u64(s: &str, i: usize) -> (r: Option<(u64, usize)>)
    requires
        i <= s@.len(),
    ensures
        match r {
            Some(p) => sp_u64(s@, i as nat) == Some((p.0, p.1 as nat)) && p.1 <= s@.len(),
            None => sp_u64(s@, i as nat) is None,
        },
{
    let n = s.unicode_len();
    let mut j = i;
    let mut acc: u64 = 0;
    let mut overflow = false;
    loop
        invariant
            i <= j <= n,
            n == s@.len(),
            digits_end(s@, i as nat) == digits_end(s@, j as nat),
            !overflow ==> acc == dec_val(s@.subrange(i as int, j as int)),
            overflow ==> dec_val(s@.subrange(i as int, j as int)) > u64::MAX,
        ensures
            i <= j <= n,
            j as nat == digits_end(s@, i as nat),
            !overflow ==> acc == dec_val(s@.subrange(i as int, j as int)),
            overflow ==> dec_val(s@.subrange(i as int, j as int)) > u64::MAX,
        decreases n - j,
    {
        if j >= n {
            break;
        }
        let c = s.get_char(j);
        let u = c as u32;
        if u < 48 || u > 57 {
            proof {
                assert(!is_dec_digit(s@[j as int]));
            }
            break;
        }
        let d = (u - 48) as u64;
        proof {
            assert(is_dec_digit(s@[j as int]));
            assert(digit_val(s@[j as int]) == d);
            assert(s@.subrange(i as int, j + 1 as int).drop_last() =~= s@.subrange(
                i as int,
                j as int,
            ));
            assert(s@.subrange(i as int, j + 1 as int).last() == s@[j as int]);
        }
        let ghost old_val = dec_val(s@.subrange(i as int, j as int));
        proof {
            assert(dec_val(s@.subrange(i as int, j + 1 as int)) == old_val * 10 + d);
        }
        if !overflow {
            if acc > (u64::MAX - d) / 10 {
                overflow = true;
                proof {
                    vstd::arithmetic::div_mod::lemma_fundamental_div_mod(
                        (u64::MAX - d) as int,
                        10,
                    );
                    assert(acc * 10 + d > u64::MAX) by (nonlinear_arith)
                        requires
                            acc > (u64::MAX - d) / 10,
                            (u64::MAX - d) as int == ((u64::MAX - d) / 10) * 10 + (u64::MAX
                                - d) % 10,
                            (u64::MAX - d) % 10 < 10,
                            d < 10,
                    ;
                }
            } else {
                proof {
                    vstd::arithmetic::div_mod::lemma_fundamental_div_mod(
                        (u64::MAX - d) as int,
                        10,
                    );
                    assert(acc * 10 + d <= u64::MAX) by (nonlinear_arith)
                        requires
                            acc <= (u64::MAX - d) / 10,
                            (u64::MAX - d) as int == ((u64::MAX - d) / 10) * 10 + (u64::MAX
                                - d) % 10,
                            0 <= (u64::MAX - d) % 10,
                            d < 10,
                    ;
                }
                acc = acc * 10 + d;
            }
        } else {
            proof {
                assert(old_val * 10 >= old_val) by (nonlinear_arith)
                    requires
                        old_val >= 0,
                ;
            }
        }
        j += 1;
    }
    if j == i {
        None
    } else if overflow {
        None
    } else {
        Some((acc, j))
    }
}

} // verus!
