//! Pure codecs between trimmed attribute text and typed values.
//!
//! One codec exists per value kind: booleans as the literals `1` and `0`,
//! percentages as whole hundredths between 0 and 100, space-separated
//! lists, and the bracketed current selection of a choice list (such as
//! `a [b] c`). Integer text is handled by [`crate::num`]. Decoding always
//! consumes the full text; failure here means the interface returned
//! content inconsistent with the attribute's declared type.

use vstd::prelude::*;
use vstd::string::*;

use crate::num::{parse_u64, spec_parse_u64};
use crate::text::str_eq;

verus! {

/// The result of decoding `s` as a boolean: `1` is true, `0` is false,
/// anything else fails.
pub open spec fn spec_parse_bool(s: Seq<char>) -> Option<bool> {
    if s == "1"@ {
        Some(true)
    } else if s == "0"@ {
        Some(false)
    } else {
        None
    }
}

/// The boolean encoding: the literal `1` or `0`.
pub open spec fn spec_format_bool(b: bool) -> Seq<char> {
    if b {
        "1"@
    } else {
        "0"@
    }
}

/// Decodes `s` as a boolean attribute value.
pub fn parse_bool(s: &str) -> (r: Option<bool>)
    ensures
        r == spec_parse_bool(s@),
{
    proof {
        reveal_strlit("0");
        reveal_strlit("1");
    }
    if str_eq(s, "1") {
        Some(true)
    } else if str_eq(s, "0") {
        Some(false)
    } else {
        None
    }
}

/// Encodes a boolean attribute value.
pub fn format_bool(b: bool) -> (r: &'static str)
    ensures
        r@ == spec_format_bool(b),
{
    if b {
        "1"
    } else {
        "0"
    }
}

/// The result of decoding `s` as a percentage: a whole number of
/// hundredths between 0 and 100. The logical value is this count divided
/// by one hundred.
pub open spec fn spec_parse_percent(s: Seq<char>) -> Option<u8> {
    match spec_parse_u64(s) {
        Some(v) => if v <= 100 {
            Some(v as u8)
        } else {
            None
        },
        None => None,
    }
}

/// Decodes `s` as a percentage attribute value, in hundredths.
pub fn parse_percent(s: &str) -> (r: Option<u8>)
    ensures
        r == spec_parse_percent(s@),
{
    match parse_u64(s) {
        Some(v) => if v <= 100 {
            Some(v as u8)
        } else {
            None
        },
        None => None,
    }
}

/// The index of the first occurrence of `c` in `s`.
pub open spec fn spec_find(s: Seq<char>, c: char) -> Option<int>
    decreases s.len(),
{
    if s.len() == 0 {
        None
    } else if s[0] == c {
        Some(0)
    } else {
        match spec_find(s.drop_first(), c) {
            Some(i) => Some(i + 1),
            None => None,
        }
    }
}

/// What [`spec_find`] finds is the first occurrence, and a miss means no
/// occurrence at all.
pub proof fn lemma_find_char(s: Seq<char>, c: char)
    ensures
        match spec_find(s, c) {
            Some(i) => 0 <= i < s.len() && s[i] == c && (forall|j: int| 0 <= j < i ==> s[j] != c),
            None => forall|j: int| 0 <= j < s.len() ==> s[j] != c,
        },
    decreases s.len(),
{
    if s.len() > 0 && s[0] != c {
        lemma_find_char(s.drop_first(), c);
        assert(forall|j: int| 0 < j < s.len() ==> s[j] == s.drop_first()[j - 1]);
    }
}

/// Finds the first occurrence of `c` in `s`.
pub fn find_char(s: &str, c: char) -> (r: Option<usize>)
    ensures
        match r {
            Some(i) => spec_find(s@, c) == Some(i as int),
            None => spec_find(s@, c) is None,
        },
{
    let len: usize = s.unicode_len();
    let mut i: usize = 0;
    while i < len
        invariant
            0 <= i <= len,
            len == s@.len(),
            forall|j: int| 0 <= j < i ==> s@[j] != c,
        decreases len - i,
    {
        if s.get_char(i) == c {
            proof {
                lemma_find_char(s@, c);
            }
            return Some(i);
        }
        i += 1;
    }
    proof {
        lemma_find_char(s@, c);
    }
    None
}

/// The bracketed current selection of a choice list: the text between the
/// first `[` and the first `]`, if the first `[` opens before the first
/// `]` closes.
pub open spec fn spec_parse_selected(s: Seq<char>) -> Option<Seq<char>> {
    match (spec_find(s, '['), spec_find(s, ']')) {
        (Some(o), Some(c)) => if o + 1 <= c {
            Some(s.subrange(o + 1, c))
        } else {
            None
        },
        _ => None,
    }
}

/// An optional string slice replaced by its character sequence.
pub open spec fn view_opt_str(r: Option<&str>) -> Option<Seq<char>> {
    match r {
        Some(t) => Some(t@),
        None => None,
    }
}

/// Extracts the bracketed current selection out of a space-separated list
/// of bracket-demarcated choices, such as the `b` of `a [b] c`.
pub fn parse_selected(text: &str) -> (r: Option<&str>)
    ensures
        view_opt_str(r) == spec_parse_selected(text@),
{
    let o = match find_char(text, '[') {
        Some(o) => o,
        None => {
            return None;
        },
    };
    let c = match find_char(text, ']') {
        Some(c) => c,
        None => {
            return None;
        },
    };
    proof {
        lemma_find_char(text@, '[');
        lemma_find_char(text@, ']');
    }
    if o < c {
        Some(text.substring_char(o + 1, c))
    } else {
        None
    }
}

/// The tokens of `s` separated by `c`: adjacent separators and separators
/// at either end delimit empty tokens, and the empty text is the single
/// empty token.
pub open spec fn split_char(s: Seq<char>, c: char) -> Seq<Seq<char>>
    decreases s.len(),
{
    if s.len() == 0 {
        seq![Seq::<char>::empty()]
    } else if s[0] == c {
        seq![Seq::<char>::empty()] + split_char(s.drop_first(), c)
    } else {
        let rest = split_char(s.drop_first(), c);
        seq![seq![s[0]] + rest[0]] + rest.skip(1)
    }
}

/// A split always yields at least one token.
pub proof fn lemma_split_len(s: Seq<char>, c: char)
    ensures
        split_char(s, c).len() >= 1,
    decreases s.len(),
{
    if s.len() > 0 {
        lemma_split_len(s.drop_first(), c);
    }
}

/// How one more character extends a split: a separator opens a new empty
/// token, any other character extends the last token.
pub proof fn lemma_split_push(s: Seq<char>, c: char, x: char)
    ensures
        split_char(s.push(x), c) == (if x == c {
            split_char(s, c).push(Seq::<char>::empty())
        } else {
            split_char(s, c).update(
                split_char(s, c).len() - 1,
                split_char(s, c).last().push(x),
            )
        }),
    decreases s.len(),
{
    reveal_with_fuel(split_char, 3);
    lemma_split_len(s, c);
    if s.len() == 0 {
        assert(s.push(x) =~= seq![x]);
        if x == c {
            assert(seq![x].drop_first() =~= Seq::<char>::empty());
            assert(split_char(s.push(x), c) =~= split_char(s, c).push(Seq::<char>::empty()));
        } else {
            assert(seq![x].drop_first() =~= Seq::<char>::empty());
            assert(seq![x] + Seq::<char>::empty() =~= Seq::<char>::empty().push(x));
            assert(split_char(s.push(x), c) =~= split_char(s, c).update(
                0,
                split_char(s, c).last().push(x),
            ));
        }
    } else {
        let t = s.drop_first();
        lemma_split_len(t, c);
        lemma_split_push(t, c, x);
        assert(s.push(x)[0] == s[0]);
        assert(s.push(x).drop_first() =~= t.push(x));
        let r = split_char(t, c);
        let rx = split_char(t.push(x), c);
        if s[0] == c {
            assert(split_char(s, c) =~= seq![Seq::<char>::empty()] + r);
            assert(split_char(s.push(x), c) =~= seq![Seq::<char>::empty()] + rx);
            if x == c {
                assert(seq![Seq::<char>::empty()] + r.push(Seq::<char>::empty()) =~= (
                seq![Seq::<char>::empty()] + r).push(Seq::<char>::empty()));
            } else {
                assert((seq![Seq::<char>::empty()] + r).last() == r.last());
                assert(seq![Seq::<char>::empty()] + r.update(r.len() - 1, r.last().push(x)) =~= (
                seq![Seq::<char>::empty()] + r).update(r.len() as int, r.last().push(x)));
            }
        } else {
            assert(split_char(s, c) =~= seq![seq![s[0]] + r[0]] + r.skip(1));
            assert(split_char(s.push(x), c) =~= seq![seq![s[0]] + rx[0]] + rx.skip(1));
            if x == c {
                assert(rx =~= r.push(Seq::<char>::empty()));
                assert(rx[0] == r[0]);
                assert(rx.skip(1) =~= r.skip(1).push(Seq::<char>::empty()));
                assert(seq![seq![s[0]] + r[0]] + r.skip(1).push(Seq::<char>::empty()) =~= (
                seq![seq![s[0]] + r[0]] + r.skip(1)).push(Seq::<char>::empty()));
            } else {
                assert(rx =~= r.update(r.len() - 1, r.last().push(x)));
                if r.len() == 1 {
                    assert(rx[0] == r[0].push(x));
                    assert(rx.skip(1) =~= r.skip(1));
                    assert(split_char(s, c).len() == 1);
                    assert(split_char(s, c).last() == seq![s[0]] + r[0]);
                    assert(seq![s[0]] + r[0].push(x) =~= (seq![s[0]] + r[0]).push(x));
                    assert(seq![seq![s[0]] + rx[0]] + rx.skip(1) =~= split_char(s, c).update(
                        0,
                        split_char(s, c).last().push(x),
                    ));
                } else {
                    assert(rx[0] == r[0]);
                    assert(rx.skip(1) =~= r.skip(1).update(r.len() - 2, r.last().push(x)));
                    assert(split_char(s, c).last() == r.last());
                    assert(seq![seq![s[0]] + r[0]] + rx.skip(1) =~= split_char(s, c).update(
                        split_char(s, c).len() - 1,
                        split_char(s, c).last().push(x),
                    ));
                }
            }
        }
    }
}

/// Splits `s` into its tokens separated by `c`.
pub fn split_str(s: &str, c: char) -> (r: Vec<String>)
    ensures
        r.deep_view() == split_char(s@, c),
{
    let len: usize = s.unicode_len();
    let mut done: Vec<String> = Vec::new();
    let mut cur = String::new();
    let mut i: usize = 0;
    while i < len
        invariant
            0 <= i <= len,
            len == s@.len(),
            split_char(s@.take(i as int), c) == done.deep_view().push(cur@),
        decreases len - i,
    {
        let x = s.get_char(i);
        proof {
            assert(s@.take(i as int + 1) =~= s@.take(i as int).push(s@[i as int]));
            lemma_split_push(s@.take(i as int), c, s@[i as int]);
        }
        if x == c {
            done.push(cur);
            cur = String::new();
            proof {
                assert(done.deep_view() =~= done.deep_view().drop_last().push(
                    done.deep_view().last(),
                ));
                assert(split_char(s@.take(i as int + 1), c) =~= done.deep_view().push(cur@));
            }
        } else {
            let ghost prev = cur@;
            cur.append(char_str(x).as_str());
            proof {
                assert(cur@ =~= prev.push(x));
                assert(done.deep_view().push(prev).update(
                    done.deep_view().push(prev).len() - 1,
                    prev.push(x),
                ) =~= done.deep_view().push(cur@));
            }
        }
        i += 1;
    }
    proof {
        assert(s@.take(len as int) =~= s@);
    }
    done.push(cur);
    proof {
        assert(done.deep_view() =~= done.deep_view().drop_last().push(done.deep_view().last()));
    }
    done
}

/// The one-character string holding `x`.
fn char_str(x: char) -> (r: String)
    ensures
        r@ == seq![x],
{
    let mut s = String::new();
    push_char(&mut s, x);
    proof {
        assert(s@ =~= seq![x]);
    }
    s
}

/// Relies on `String::push`: it appends exactly the given character.
#[verifier::external_body]
fn push_char(s: &mut String, x: char)
    ensures
        final(s)@ == old(s)@.push(x),
{
    s.push(x);
}

/// The result of decoding `s` as a space-separated list of unsigned
/// numbers: every token must parse, including the empty token of empty
/// text.
pub open spec fn spec_parse_u64_list(s: Seq<char>) -> Option<Seq<u64>> {
    let toks = split_char(s, ' ');
    if forall|i: int| 0 <= i < toks.len() ==> spec_parse_u64(#[trigger] toks[i]) is Some {
        Some(Seq::new(toks.len(), |i: int| spec_parse_u64(toks[i]).unwrap()))
    } else {
        None
    }
}

/// Decodes `s` as a space-separated list of unsigned numbers.
pub fn parse_u64_list(s: &str) -> (r: Option<Vec<u64>>)
    ensures
        match r {
            Some(v) => spec_parse_u64_list(s@) == Some(v@),
            None => spec_parse_u64_list(s@) is None,
        },
{
    let toks = split_str(s, ' ');
    let ghost tv = split_char(s@, ' ');
    let mut out: Vec<u64> = Vec::new();
    let n: usize = toks.len();
    let mut i: usize = 0;
    while i < n
        invariant
            0 <= i <= n,
            n == toks@.len(),
            toks.deep_view() == tv,
            tv == split_char(s@, ' '),
            out@.len() == i,
            forall|j: int| 0 <= j < i ==> spec_parse_u64(#[trigger] tv[j]) == Some(out@[j]),
        decreases n - i,
    {
        assert(toks@[i as int]@ == tv[i as int]);
        match parse_u64(toks[i].as_str()) {
            Some(v) => {
                out.push(v);
            },
            None => {
                assert(spec_parse_u64(tv[i as int]) is None);
                return None;
            },
        }
        i += 1;
    }
    proof {
        assert(forall|j: int| 0 <= j < tv.len() ==> spec_parse_u64(#[trigger] tv[j]) is Some);
        assert(out@ =~= Seq::new(tv.len(), |j: int| spec_parse_u64(tv[j]).unwrap()));
    }
    Some(out)
}

} // verus!
