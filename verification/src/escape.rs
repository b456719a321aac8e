//! String escaping for the structured formatter, its inverse, and the proof
//! that unescaping undoes escaping.
//!
//! A quote or backslash is escaped with a backslash; a control character
//! (below space) becomes a six-character `\u00..` form with two lowercase
//! hex digits; every other character stands for itself.

use vstd::prelude::*;
use vstd::string::*;
use crate::numfmt::{dec_digit, digit_val, is_dec_digit};

verus! {

/// The lowercase hex digit character for `d < 16`.
pub open spec fn hex_digit(d: nat) -> char {
    if d < 10 {
        dec_digit(d)
    } else if d == 10 {
        'a'
    } else if d == 11 {
        'b'
    } else if d == 12 {
        'c'
    } else if d == 13 {
        'd'
    } else if d == 14 {
        'e'
    } else {
        'f'
    }
}

pub open spec fn is_hex_lower(c: char) -> bool {
    is_dec_digit(c) || ('a' as u32 <= c as u32 && c as u32 <= 'f' as u32)
}

pub open spec fn hex_val(c: char) -> nat {
    if is_dec_digit(c) {
        digit_val(c)
    } else {
        (c as u32 - 'a' as u32 + 10) as nat
    }
}

/// The escape sequence for one character.
pub open spec fn esc_char(c: char) -> Seq<char> {
    if c == '"' {
        seq!['\\', '"']
    } else if c == '\\' {
        seq!['\\', '\\']
    } else if (c as u32) < 32 {
        seq![
            '\\',
            'u',
            '0',
            '0',
            hex_digit(((c as u32) / 16) as nat),
            hex_digit(((c as u32) % 16) as nat),
        ]
    } else {
        seq![c]
    }
}

/// The escaped form of a whole string.
pub open spec fn escape(s: Seq<char>) -> Seq<char>
    decreases s.len(),
{
    if s.len() == 0 {
        Seq::empty()
    } else {
        esc_char(s[0]) + escape(s.drop_first())
    }
}

pub open spec fn opt_cons(c: char, r: Option<Seq<char>>) -> Option<Seq<char>> {
    match r {
        Some(x) => Some(seq![c] + x),
        None => None,
    }
}

/// Unescaping: the loose inverse of [`escape`].  It reads one escape
/// sequence or one plain character at a time from the front.
pub open spec fn unescape(t: Seq<char>) -> Option<Seq<char>>
    decreases t.len(),
{
    if t.len() == 0 {
        Some(Seq::empty())
    } else if t[0] == '\\' {
        if t.len() >= 2 && t[1] == '"' {
            opt_cons('"', unescape(t.skip(2)))
        } else if t.len() >= 2 && t[1] == '\\' {
            opt_cons('\\', unescape(t.skip(2)))
        } else if t.len() >= 6 && t[1] == 'u' && t[2] == '0' && t[3] == '0' && is_hex_lower(t[4])
            && is_hex_lower(t[5]) && hex_val(t[4]) * 16 + hex_val(t[5]) < 32 {
            opt_cons(((hex_val(t[4]) * 16 + hex_val(t[5])) as char), unescape(t.skip(6)))
        } else {
            None
        }
    } else {
        opt_cons(t[0], unescape(t.skip(1)))
    }
}

pub proof fn lemma_hex_digit_val(d: nat)
    requires
        d < 16,
    ensures
        hex_val(hex_digit(d)) == d,
        is_hex_lower(hex_digit(d)),
        hex_digit(d) != '"',
        hex_digit(d) != '\\',
        hex_digit(d) as u32 >= 32,
{
    if d < 10 {
        crate::numfmt::lemma_dec_digit_val(d);
    }
}

/// Unescaping undoes escaping.
pub proof fn lemma_unescape_escape(x: Seq<char>)
    ensures
        unescape(escape(x)) == Some(x),
    decreases x.len(),
{
    if x.len() == 0 {
        assert(escape(x).len() == 0);
    } else {
        let c = x[0];
        let rest = x.drop_first();
        lemma_unescape_escape(rest);
        let t = escape(x);
        assert(t == esc_char(c) + escape(rest));
        if c == '"' {
            assert(t[0] == '\\' && t[1] == '"');
            assert(t.skip(2) =~= escape(rest));
            assert(seq!['"'] + rest =~= x);
        } else if c == '\\' {
            assert(t[0] == '\\' && t[1] == '\\');
            assert(t.skip(2) =~= escape(rest));
            assert(seq!['\\'] + rest =~= x);
        } else if (c as u32) < 32 {
            let v = c as u32;
            lemma_hex_digit_val((v / 16) as nat);
            lemma_hex_digit_val((v % 16) as nat);
            assert(t[0] == '\\' && t[1] == 'u' && t[2] == '0' && t[3] == '0');
            assert(t[4] == hex_digit((v / 16) as nat));
            assert(t[5] == hex_digit((v % 16) as nat));
            assert(hex_val(t[4]) * 16 + hex_val(t[5]) == (v / 16) * 16 + (v % 16));
            vstd::arithmetic::div_mod::lemma_fundamental_div_mod(v as int, 16);
            assert(hex_val(t[4]) * 16 + hex_val(t[5]) == v);
            vstd::utf8::char_u32_cast(c, v);
            assert(((hex_val(t[4]) * 16 + hex_val(t[5])) as char) == c);
            assert(t.skip(6) =~= escape(rest));
            assert(seq![c] + rest =~= x);
        } else {
            assert(t[0] == c);
            assert(t.skip(1) =~= escape(rest));
            assert(seq![c] + rest =~= x);
        }
    }
}

/// Scan for the first reachable raw quote, stepping over two-character
/// escape openers.
pub open spec fn scan_quote(s: Seq<char>, i: nat) -> Option<nat>
    decreases s.len() - i,
{
    if i >= s.len() {
        None
    } else if s[i as int] == '"' {
        Some(i)
    } else if s[i as int] == '\\' {
        if i + 2 <= s.len() {
            scan_quote(s, i + 2)
        } else {
            None
        }
    } else {
        scan_quote(s, i + 1)
    }
}

/// Skipping past a leading block of a suffix leaves the rest of the suffix.
pub proof fn lemma_skip_shift(s: Seq<char>, i: nat, a: Seq<char>, b: Seq<char>)
    requires
        i <= s.len(),
        s.skip(i as int) == a + b,
    ensures
        s.skip((i + a.len()) as int) == b,
{
    let t = s.skip(i as int);
    assert(t.len() == s.len() - i);
    assert forall|k: int| 0 <= k < b.len() implies s.skip((i + a.len()) as int)[k] == b[k] by {
        assert(s.skip((i + a.len()) as int)[k] == s[i + a.len() + k]);
        assert(t[a.len() + k] == s[i + a.len() + k]);
        assert(t[a.len() + k] == (a + b)[a.len() + k]);
    }
    assert(s.skip((i + a.len()) as int) =~= b);
}

/// Where the escaped form of `x` stands at position `i` of `s` and a raw
/// quote follows it, the scan halts exactly at that quote.
pub proof fn lemma_scan_quote_of(s: Seq<char>, i: nat, x: Seq<char>, q: Seq<char>)
    requires
        i <= s.len(),
        s.skip(i as int) == escape(x) + q,
        q.len() > 0,
        q[0] == '"',
    ensures
        scan_quote(s, i) == Some((i + escape(x).len()) as nat),
    decreases x.len(),
{
    let t = s.skip(i as int);
    assert(t.len() == s.len() - i);
    assert(t.len() == escape(x).len() + q.len());
    assert(escape(x).len() + q.len() + i == s.len());
    if x.len() == 0 {
        assert(s[i as int] == t[0]);
        assert(t[0] == q[0]);
    } else {
        let c = x[0];
        let rest = x.drop_first();
        assert(escape(x) == esc_char(c) + escape(rest));
        assert(t =~= esc_char(c) + (escape(rest) + q));
        assert(s[i as int] == t[0]);
        if c == '"' {
            assert(t[0] == '\\');
            lemma_skip_shift(s, i, esc_char(c), escape(rest) + q);
            assert(esc_char(c).len() == 2);
            lemma_scan_quote_of(s, i + 2, rest, q);
        } else if c == '\\' {
            assert(t[0] == '\\');
            lemma_skip_shift(s, i, esc_char(c), escape(rest) + q);
            assert(esc_char(c).len() == 2);
            lemma_scan_quote_of(s, i + 2, rest, q);
        } else if (c as u32) < 32 {
            let v = c as u32;
            lemma_hex_digit_val((v / 16) as nat);
            lemma_hex_digit_val((v % 16) as nat);
            assert(t[0] == '\\');
            assert(s[i + 2 as int] == t[2] && t[2] == '0');
            assert(s[i + 3 as int] == t[3] && t[3] == '0');
            assert(s[i + 4 as int] == t[4] && t[4] == hex_digit((v / 16) as nat));
            assert(s[i + 5 as int] == t[5] && t[5] == hex_digit((v % 16) as nat));
            lemma_skip_shift(s, i, esc_char(c), escape(rest) + q);
            assert(esc_char(c).len() == 6);
            lemma_scan_quote_of(s, i + 6, rest, q);
            assert(scan_quote(s, i + 2) == scan_quote(s, i + 3));
            assert(scan_quote(s, i + 3) == scan_quote(s, i + 4));
            assert(scan_quote(s, i + 4) == scan_quote(s, i + 5));
            assert(scan_quote(s, i + 5) == scan_quote(s, i + 6));
        } else {
            assert(t[0] == c);
            assert(c != '"' && c != '\\');
            lemma_skip_shift(s, i, esc_char(c), escape(rest) + q);
            assert(esc_char(c).len() == 1);
            lemma_scan_quote_of(s, i + 1, rest, q);
        }
    }
}

/// Appending one character to a string extends its escaped form by that
/// character's escape sequence.
pub proof fn lemma_escape_snoc(a: Seq<char>, c: char)
    ensures
        escape(a.push(c)) == escape(a) + esc_char(c),
    decreases a.len(),
{
    if a.len() == 0 {
        assert(a.push(c)[0] == c);
        assert(a.push(c).drop_first() =~= Seq::<char>::empty());
        assert(escape(a.push(c)) == esc_char(c) + escape(Seq::<char>::empty()));
        assert(escape(Seq::<char>::empty()) == Seq::<char>::empty());
        assert(escape(a) == Seq::<char>::empty());
        assert(esc_char(c) + Seq::<char>::empty() =~= Seq::<char>::empty() + esc_char(c));
    } else {
        lemma_escape_snoc(a.drop_first(), c);
        assert(a.push(c)[0] == a[0]);
        assert(a.push(c).drop_first() =~= a.drop_first().push(c));
        assert(escape(a.push(c)) == esc_char(a[0]) + escape(a.drop_first().push(c)));
        assert(esc_char(a[0]) + (escape(a.drop_first()) + esc_char(c)) =~= (esc_char(a[0])
            + escape(a.drop_first())) + esc_char(c));
    }
}

fn hex_str(d: u32) -> (r: &'static str)
    requires
        d < 16,
    ensures
        r@ == seq![hex_digit(d as nat)],
{
    proof {
        reveal_strlit("a");
        reveal_strlit("b");
        reveal_strlit("c");
        reveal_strlit("d");
        reveal_strlit("e");
        reveal_strlit("f");
        assert("a"@ =~= seq!['a']);
        assert("b"@ =~= seq!['b']);
        assert("c"@ =~= seq!['c']);
        assert("d"@ =~= seq!['d']);
        assert("e"@ =~= seq!['e']);
        assert("f"@ =~= seq!['f']);
    }
    if d < 10 {
        crate::numfmt::digit_str(d as u64)
    } else if d == 10 {
        "a"
    } else if d == 11 {
        "b"
    } else if d == 12 {
        "c"
    } else if d == 13 {
        "d"
    } else if d == 14 {
        "e"
    } else {
        "f"
    }
}

/// Escape a whole string for the structured formatter.
pub fn escape_string(s: &str) -> (r: String)
    ensures
        r@ == escape(s@),
{
    let n = s.unicode_len();
    let mut out = String::new();
    let mut i: usize = 0;
    while i < n
        invariant
            i <= n,
            n == s@.len(),
            out@ == escape(s@.take(i as int)),
        decreases n - i,
    {
        let c = s.get_char(i);
        let u = c as u32;
        proof {
            reveal_strlit("\\\"");
            reveal_strlit("\\\\");
            reveal_strlit("\\u00");
        }
        if u == 34 {
            out.append("\\\"");
            proof {
                assert("\\\""@ =~= esc_char(c));
            }
        } else if u == 92 {
            out.append("\\\\");
            proof {
                assert("\\\\"@ =~= esc_char(c));
            }
        } else if u < 32 {
            out.append("\\u00");
            out.append(hex_str(u / 16));
            out.append(hex_str(u % 16));
            proof {
                assert("\\u00"@ + (seq![hex_digit((u / 16) as nat)] + seq![
                    hex_digit((u % 16) as nat),
                ]) =~= esc_char(c));
            }
        } else {
            crate::textlib::push_char(&mut out, c);
            proof {
                assert(esc_char(c) =~= seq![c]);
            }
        }
        proof {
            assert(s@.take(i + 1 as int) =~= s@.take(i as int).push(s@[i as int]));
            lemma_escape_snoc(s@.take(i as int), s@[i as int]);
            assert(out@ =~= escape(s@.take(i + 1 as int)));
        }
        i += 1;
    }
    proof {
        assert(s@.take(n as int) =~= s@);
    }
    out
}

pub open spec fn opt_prepend(p: Seq<char>, r: Option<Seq<char>>) -> Option<Seq<char>> {
    match r {
        Some(x) => Some(p + x),
        None => None,
    }
}

fn hexv(c: char) -> (r: Option<u32>)
    ensures
        match r {
            Some(v) => is_hex_lower(c) && v == hex_val(c) && v < 16,
            None => !is_hex_lower(c),
        },
{
    let u = c as u32;
    if 48 <= u && u <= 57 {
        Some(u - 48)
    } else if 97 <= u && u <= 102 {
        Some(u - 97 + 10)
    } else {
        None
    }
}

/// Undo [`escape_string`], refining the specification-level [`unescape`].
pub fn unescape_str(t: &str) -> (r: Option<String>)
    ensures
        match unescape(t@) {
            Some(x) => r is Some && r->0@ == x,
            None => r is None,
        },
{
    let n = t.unicode_len();
    let mut out = String::new();
    let mut i: usize = 0;
    proof {
        assert(t@.skip(0) =~= t@);
        if unescape(t@) is Some {
            assert(Seq::<char>::empty() + unescape(t@)->0 =~= unescape(t@)->0);
        }
    }
    while i < n
        invariant
            i <= n,
            n == t@.len(),
            unescape(t@) == opt_prepend(out@, unescape(t@.skip(i as int))),
        decreases n - i,
    {
        let ghost tail = t@.skip(i as int);
        proof {
            assert(tail.len() == n - i);
            assert(tail[0] == t@[i as int]);
        }
        let c = t.get_char(i);
        if c as u32 != 92 {
            proof {
                assert(tail.skip(1) =~= t@.skip(i + 1 as int));
                assert(unescape(tail) == opt_cons(c, unescape(t@.skip(i + 1 as int))));
            }
            crate::textlib::push_char(&mut out, c);
            proof {
                if unescape(t@.skip(i + 1 as int)) is Some {
                    assert(out@ + unescape(t@.skip(i + 1 as int))->0 =~= out@.drop_last() + (seq![c]
                        + unescape(t@.skip(i + 1 as int))->0));
                }
            }
            i += 1;
        } else {
            if i + 1 >= n {
                proof {
                    assert(unescape(tail) is None);
                }
                return None;
            }
            let e = t.get_char(i + 1);
            let ue = e as u32;
            proof {
                assert(tail[1] == t@[i + 1 as int]);
            }
            if ue == 34 || ue == 92 {
                let d: char = if ue == 34 {
                    '"'
                } else {
                    '\\'
                };
                proof {
                    assert(tail.skip(2) =~= t@.skip(i + 2 as int));
                    assert(unescape(tail) == opt_cons(d, unescape(t@.skip(i + 2 as int))));
                }
                crate::textlib::push_char(&mut out, d);
                proof {
                    if unescape(t@.skip(i + 2 as int)) is Some {
                        assert(out@ + unescape(t@.skip(i + 2 as int))->0 =~= out@.drop_last() + (
                        seq![d] + unescape(t@.skip(i + 2 as int))->0));
                    }
                }
                i += 2;
            } else if ue == 117 && n - i > 5 {
                let z1 = t.get_char(i + 2);
                let z2 = t.get_char(i + 3);
                let h1 = t.get_char(i + 4);
                let h2 = t.get_char(i + 5);
                proof {
                    assert(tail[2] == t@[i + 2 as int]);
                    assert(tail[3] == t@[i + 3 as int]);
                    assert(tail[4] == t@[i + 4 as int]);
                    assert(tail[5] == t@[i + 5 as int]);
                }
                if z1 as u32 != 48 || z2 as u32 != 48 {
                    proof {
                        assert(unescape(tail) is None);
                    }
                    return None;
                }
                let v1 = match hexv(h1) {
                    Some(v) => v,
                    None => {
                        proof {
                            assert(unescape(tail) is None);
                        }
                        return None;
                    },
                };
                let v2 = match hexv(h2) {
                    Some(v) => v,
                    None => {
                        proof {
                            assert(unescape(tail) is None);
                        }
                        return None;
                    },
                };
                let v = v1 * 16 + v2;
                if v >= 32 {
                    proof {
                        assert(unescape(tail) is None);
                    }
                    return None;
                }
                let d = (v as u8) as char;
                proof {
                    assert(d == ((hex_val(tail[4]) * 16 + hex_val(tail[5])) as char));
                    assert(tail.skip(6) =~= t@.skip(i + 6 as int));
                    assert(unescape(tail) == opt_cons(d, unescape(t@.skip(i + 6 as int))));
                }
                crate::textlib::push_char(&mut out, d);
                proof {
                    if unescape(t@.skip(i + 6 as int)) is Some {
                        assert(out@ + unescape(t@.skip(i + 6 as int))->0 =~= out@.drop_last() + (
                        seq![d] + unescape(t@.skip(i + 6 as int))->0));
                    }
                }
                i += 6;
            } else {
                proof {
                    assert(unescape(tail) is None);
                }
                return None;
            }
        }
    }
    proof {
        assert(t@.skip(n as int) =~= Seq::<char>::empty());
        assert(unescape(t@.skip(n as int)) == Some(Seq::<char>::empty()));
        assert(out@ + Seq::<char>::empty() =~= out@);
    }
    Some(out)
}

/// Find the first reachable raw quote at or after `i`, refining
/// [`scan_quote`].
pub fn find_quote(s: &str, i: usize) -> (r: Option<usize>)
    requires
        i <= s@.len(),
    ensures
        match r {
            Some(q) => scan_quote(s@, i as nat) == Some(q as nat) && i <= q < s@.len(),
            None => scan_quote(s@, i as nat) is None,
        },
{
    let n = s.unicode_len();
    let mut j = i;
    loop
        invariant
            i <= j <= n,
            n == s@.len(),
            scan_quote(s@, i as nat) == scan_quote(s@, j as nat),
        decreases n - j,
    {
        if j >= n {
            return None;
        }
        let c = s.get_char(j);
        let u = c as u32;
        if u == 34 {
            return Some(j);
        }
        if u == 92 {
            if j + 1 < n {
                j += 2;
            } else {
                return None;
            }
        } else {
            j += 1;
        }
    }
}

/// What reading one quoted, escaped string at position `i` yields: its
/// unescaped content and the position of the closing quote.
pub open spec fn sp_string(s: Seq<char>, i: nat) -> Option<(Seq<char>, nat)> {
    match scan_quote(s, i) {
        Some(q) => match unescape(s.subrange(i as int, q as int)) {
            Some(x) => Some((x, q)),
            None => None,
        },
        None => None,
    }
}

/// Read one quoted, escaped string at position `i`, refining [`sp_string`].
pub fn parse_string(s: &str, i: usize) -> (r: Option<(String, usize)>)
    requires
        i <= s@.len(),
    ensures
        match r {
            Some(p) => sp_string(s@, i as nat) == Some((p.0@, p.1 as nat)) && i <= p.1 < s@.len(),
            None => sp_string(s@, i as nat) is None,
        },
{
    match find_quote(s, i) {
        Some(q) => {
            let content = s.substring_char(i, q);
            match unescape_str(content) {
                Some(x) => Some((x, q)),
                None => None,
            }
        },
        None => None,
    }
}

} // verus!
