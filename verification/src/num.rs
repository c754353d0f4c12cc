//! Strict base-10 conversion between attribute text and integers.
//!
//! Decoding accepts the full trimmed text only: every character must be a
//! decimal digit (after an optional leading `-` for signed values), and the
//! value must fit the target width. Anything else fails the decode.
//! Encoding is the exact inverse: minimal decimal digits, `-` for negatives.

use vstd::prelude::*;
use vstd::string::*;

verus! {

/// Whether `c` is an ASCII decimal digit.
pub open spec fn is_dec_digit(c: char) -> bool {
    '0' <= c && c <= '9'
}

/// The numeric value of a decimal digit character; 0 for any other character.
pub open spec fn digit_val(c: char) -> nat {
    if is_dec_digit(c) {
        (c as u32 - 48) as nat
    } else {
        0
    }
}

/// Whether every character of `s` is a decimal digit.
pub open spec fn all_dec_digits(s: Seq<char>) -> bool {
    forall|i: int| 0 <= i < s.len() ==> is_dec_digit(#[trigger] s[i])
}

/// The number denoted by a sequence of decimal digit characters.
pub open spec fn dec_num(s: Seq<char>) -> nat
    decreases s.len(),
{
    if s.len() == 0 {
        0
    } else {
        dec_num(s.drop_last()) * 10 + digit_val(s.last())
    }
}

/// The result of a strict base-10 parse of `s` as a `u64`: defined exactly
/// when `s` is one or more decimal digits denoting a value that fits.
pub open spec fn spec_parse_u64(s: Seq<char>) -> Option<u64> {
    if s.len() > 0 && all_dec_digits(s) && dec_num(s) <= u64::MAX {
        Some(dec_num(s) as u64)
    } else {
        None
    }
}

/// The result of a strict base-10 parse of `s` as an `i64`: an optional
/// leading `-`, then one or more decimal digits, value within range.
pub open spec fn spec_parse_i64(s: Seq<char>) -> Option<i64> {
    if s.len() > 0 && s[0] == '-' {
        let t = s.skip(1);
        if t.len() > 0 && all_dec_digits(t) && dec_num(t) <= 0x8000_0000_0000_0000 {
            Some((-(dec_num(t) as int)) as i64)
        } else {
            None
        }
    } else if s.len() > 0 && all_dec_digits(s) && dec_num(s) <= i64::MAX {
        Some(dec_num(s) as i64)
    } else {
        None
    }
}

/// The decimal digit character for a value below ten.
pub open spec fn spec_digit_char(d: nat) -> char {
    if d == 0 {
        '0'
    } else if d == 1 {
        '1'
    } else if d == 2 {
        '2'
    } else if d == 3 {
        '3'
    } else if d == 4 {
        '4'
    } else if d == 5 {
        '5'
    } else if d == 6 {
        '6'
    } else if d == 7 {
        '7'
    } else if d == 8 {
        '8'
    } else {
        '9'
    }
}

/// The minimal decimal digit string denoting `n`.
pub open spec fn spec_format_u64(n: nat) -> Seq<char>
    decreases n,
{
    if n < 10 {
        seq![spec_digit_char(n)]
    } else {
        spec_format_u64(n / 10).push(spec_digit_char(n % 10))
    }
}

/// The decimal string denoting `v`, with a leading `-` when negative.
pub open spec fn spec_format_i64(v: int) -> Seq<char> {
    if v >= 0 {
        spec_format_u64(v as nat)
    } else {
        seq!['-'] + spec_format_u64((-v) as nat)
    }
}

/// Extending a digit string can only increase the number it denotes.
proof fn lemma_dec_num_take_le(s: Seq<char>, i: int, j: int)
    requires
        0 <= i <= j <= s.len(),
    ensures
        dec_num(s.take(i)) <= dec_num(s.take(j)),
    decreases j - i,
{
    if i < j {
        lemma_dec_num_take_le(s, i, j - 1);
        assert(s.take(j).drop_last() =~= s.take(j - 1));
        assert(dec_num(s.take(j)) == dec_num(s.take(j - 1)) * 10 + digit_val(s.take(j).last()));
    }
}

/// Parses the whole of `s` as an unsigned 64-bit decimal number.
pub fn parse_u64(s: &str) -> (r: Option<u64>)
    ensures
        r == spec_parse_u64(s@),
{
    let len: usize = s.unicode_len();
    if len == 0 {
        return None;
    }
    let mut i: usize = 0;
    let mut acc: u64 = 0;
    while i < len
        invariant
            0 <= i <= len,
            len == s@.len(),
            all_dec_digits(s@.take(i as int)),
            acc == dec_num(s@.take(i as int)),
        decreases len - i,
    {
        let c = s.get_char(i);
        let u = c as u32;
        if u < 48 || u > 57 {
            assert(!is_dec_digit(s@[i as int]));
            return None;
        }
        let d = (u - 48) as u64;
        assert(digit_val(s@[i as int]) == d);
        if acc > (u64::MAX - d) / 10 {
            proof {
                assert(acc * 10 + d > u64::MAX) by (nonlinear_arith)
                    requires
                        acc > (u64::MAX - d) / 10,
                        d <= 9,
                {}
                assert(s@.take(i as int + 1).drop_last() =~= s@.take(i as int));
                assert(dec_num(s@.take(i as int + 1)) == acc * 10 + d);
                lemma_dec_num_take_le(s@, i as int + 1, len as int);
                assert(s@.take(len as int) =~= s@);
                assert(dec_num(s@) > u64::MAX);
            }
            return None;
        }
        proof {
            assert(acc * 10 + d <= u64::MAX) by (nonlinear_arith)
                requires
                    acc <= (u64::MAX - d) / 10,
                    d <= 9,
            {}
            assert(s@.take(i as int + 1).drop_last() =~= s@.take(i as int));
        }
        acc = acc * 10 + d;
        i += 1;
    }
    proof {
        assert(s@.take(len as int) =~= s@);
    }
    Some(acc)
}

/// Parses the whole of `s` as a signed 64-bit decimal number.
pub fn parse_i64(s: &str) -> (r: Option<i64>)
    ensures
        r == spec_parse_i64(s@),
{
    let len: usize = s.unicode_len();
    if len == 0 {
        return None;
    }
    if s.get_char(0) == '-' {
        let t = s.substring_char(1, len);
        assert(t@ =~= s@.skip(1));
        match parse_u64(t) {
            None => None,
            Some(m) => {
                if m <= 9_223_372_036_854_775_807u64 {
                    if m == 0 {
                        Some(0i64)
                    } else {
                        Some(-(m as i64))
                    }
                } else if m == 9_223_372_036_854_775_808u64 {
                    Some(i64::MIN)
                } else {
                    None
                }
            },
        }
    } else {
        match parse_u64(s) {
            None => None,
            Some(v) => {
                if v <= 9_223_372_036_854_775_807u64 {
                    Some(v as i64)
                } else {
                    None
                }
            },
        }
    }
}

/// The one-character string for a decimal digit value.
fn digit_str(d: u64) -> (r: &'static str)
    requires
        d < 10,
    ensures
        r@ == seq![spec_digit_char(d as nat)],
{
    proof {
        reveal_strlit("0");
        reveal_strlit("1");
        reveal_strlit("2");
        reveal_strlit("3");
        reveal_strlit("4");
        reveal_strlit("5");
        reveal_strlit("6");
        reveal_strlit("7");
        reveal_strlit("8");
        reveal_strlit("9");
    }
    let r = if d == 0 {
        "0"
    } else if d == 1 {
        "1"
    } else if d == 2 {
        "2"
    } else if d == 3 {
        "3"
    } else if d == 4 {
        "4"
    } else if d == 5 {
        "5"
    } else if d == 6 {
        "6"
    } else if d == 7 {
        "7"
    } else if d == 8 {
        "8"
    } else {
        "9"
    };
    proof {
        assert(r@ =~= seq![spec_digit_char(d as nat)]);
    }
    r
}

/// Formats `n` as its minimal decimal digit string.
pub fn format_u64(n: u64) -> (r: String)
    ensures
        r@ == spec_format_u64(n as nat),
    decreases n,
{
    if n < 10 {
        digit_str(n).to_owned()
    } else {
        let mut s = format_u64(n / 10);
        s.append(digit_str(n % 10));
        proof {
            assert(s@ =~= spec_format_u64((n / 10) as nat).push(spec_digit_char((n % 10) as nat)));
        }
        s
    }
}

/// Formats `v` as a decimal string, with a leading `-` when negative.
pub fn format_i64(v: i64) -> (r: String)
    ensures
        r@ == spec_format_i64(v as int),
{
    if v >= 0 {
        format_u64(v as u64)
    } else {
        let m: u64 = ((-(v + 1)) as u64) + 1;
        assert(m as int == -(v as int));
        let mut s = String::from_str("-");
        proof {
            reveal_strlit("-");
        }
        s.append(format_u64(m).as_str());
        proof {
            assert(s@ =~= seq!['-'] + spec_format_u64(m as nat));
        }
        s
    }
}

/// A formatted number is one or more decimal digits denoting the number.
pub proof fn lemma_format_u64_wf(n: nat)
    ensures
        spec_format_u64(n).len() >= 1,
        all_dec_digits(spec_format_u64(n)),
        dec_num(spec_format_u64(n)) == n,
    decreases n,
{
    if n < 10 {
        let s = spec_format_u64(n);
        assert(s =~= seq![spec_digit_char(n)]);
        assert(s.drop_last() =~= Seq::<char>::empty());
        assert(digit_val(spec_digit_char(n)) == n);
        assert(dec_num(s) == dec_num(s.drop_last()) * 10 + digit_val(s.last()));
        assert(s.last() == spec_digit_char(n));
        assert(dec_num(s) == n);
    } else {
        lemma_format_u64_wf(n / 10);
        let p = spec_format_u64(n / 10);
        let s = spec_format_u64(n);
        assert(s =~= p.push(spec_digit_char(n % 10)));
        assert(s.drop_last() =~= p);
        assert(digit_val(spec_digit_char(n % 10)) == n % 10);
        assert(dec_num(s) == (n / 10) * 10 + n % 10);
        assert(forall|i: int| 0 <= i < s.len() ==> is_dec_digit(#[trigger] s[i])) by {
            assert(forall|i: int| 0 <= i < p.len() ==> is_dec_digit(#[trigger] p[i]));
            assert(is_dec_digit(s[s.len() - 1]));
            assert(forall|i: int| 0 <= i < p.len() ==> s[i] == #[trigger] p[i]);
        }
    }
}

/// Round trip: parsing a formatted `u64` gives back the value.
pub proof fn lemma_u64_round_trip(n: u64)
    ensures
        spec_parse_u64(spec_format_u64(n as nat)) == Some(n),
{
    lemma_format_u64_wf(n as nat);
}

/// Round trip: parsing a formatted `i64` gives back the value.
pub proof fn lemma_i64_round_trip(v: i64)
    ensures
        spec_parse_i64(spec_format_i64(v as int)) == Some(v),
{
    if v >= 0 {
        lemma_format_u64_wf(v as nat);
        let s = spec_format_u64(v as nat);
        assert(is_dec_digit(s[0]));
        assert(s[0] != '-');
    } else {
        let m = (-(v as int)) as nat;
        lemma_format_u64_wf(m);
        let f = spec_format_u64(m);
        let s = spec_format_i64(v as int);
        assert(s =~= seq!['-'] + f);
        assert(s[0] == '-');
        assert(s.skip(1) =~= f);
    }
}

} // verus!
