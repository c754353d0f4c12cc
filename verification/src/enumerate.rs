//! Discovery of device instances by directory-name pattern.
//!
//! A device class's instances are the immediate subdirectories of a fixed
//! root whose names match the class's pattern: a literal prefix followed
//! by a remainder that is either one or more decimal digits
//! (numeric-indexed classes such as frequency-scaling policies) or any
//! non-empty text (name-indexed classes such as power supplies; there the
//! prefix is empty and every entry qualifies).
//!
//! The caller lists the root directory and hands the entry names over;
//! the filtering, index extraction and ordering happen here. Results keep
//! the caller's listing order, which is not guaranteed to be sorted;
//! callers wanting stable ascending order sort the numeric indices with
//! [`sort_u64`]. A root that does not exist is, by this crate's
//! documented choice, an empty listing — zero instances, not a failure —
//! while an I/O error on an existing root is the caller's to propagate
//! as [`crate::error::SysfsError::Io`].

use vstd::prelude::*;
use vstd::string::*;

use crate::num::{all_dec_digits, parse_u64, spec_parse_u64};

verus! {

/// The directory-name pattern of one device class.
pub struct NamePattern {
    /// The literal prefix an entry name must begin with.
    pub prefix: String,
    /// Whether the remainder after the prefix must be decimal digits.
    pub numeric: bool,
}

/// Whether `name` marks a device instance: it extends `prefix` by a
/// non-empty remainder, and by digits only for a numeric-indexed class.
pub open spec fn pattern_matches(prefix: Seq<char>, numeric: bool, name: Seq<char>) -> bool {
    &&& name.len() > prefix.len()
    &&& name.take(prefix.len() as int) == prefix
    &&& (numeric ==> all_dec_digits(name.skip(prefix.len() as int)))
}

/// The subsequence of `entries` matching the pattern, in listing order.
pub open spec fn spec_matching(entries: Seq<Seq<char>>, prefix: Seq<char>, numeric: bool) -> Seq<
    Seq<char>,
>
    decreases entries.len(),
{
    if entries.len() == 0 {
        Seq::empty()
    } else {
        let rest = spec_matching(entries.drop_last(), prefix, numeric);
        if pattern_matches(prefix, numeric, entries.last()) {
            rest.push(entries.last())
        } else {
            rest
        }
    }
}

/// Whether one entry name matches the pattern.
pub fn name_matches(name: &str, pattern: &NamePattern) -> (r: bool)
    ensures
        r == pattern_matches(pattern.prefix@, pattern.numeric, name@),
{
    let plen: usize = pattern.prefix.as_str().unicode_len();
    let nlen: usize = name.unicode_len();
    if nlen <= plen {
        return false;
    }
    let mut i: usize = 0;
    while i < plen
        invariant
            0 <= i <= plen,
            plen == pattern.prefix@.len(),
            plen < nlen,
            nlen == name@.len(),
            forall|j: int| 0 <= j < i ==> name@[j] == pattern.prefix@[j],
        decreases plen - i,
    {
        if name.get_char(i) != pattern.prefix.as_str().get_char(i) {
            assert(name@.take(plen as int)[i as int] != pattern.prefix@[i as int]);
            return false;
        }
        i += 1;
    }
    assert(name@.take(plen as int) =~= pattern.prefix@);
    if !pattern.numeric {
        return true;
    }
    let mut j: usize = plen;
    while j < nlen
        invariant
            plen <= j <= nlen,
            plen == pattern.prefix@.len(),
            nlen == name@.len(),
            name@.take(plen as int) == pattern.prefix@,
            pattern.numeric,
            forall|k: int| plen <= k < j ==> crate::num::is_dec_digit(#[trigger] name@[k]),
        decreases nlen - j,
    {
        let c = name.get_char(j);
        let u = c as u32;
        if u < 48 || u > 57 {
            proof {
                assert(!crate::num::is_dec_digit(name@[j as int]));
                assert(!all_dec_digits(name@.skip(plen as int))) by {
                    let idx = j as int - plen as int;
                    assert(0 <= idx < name@.skip(plen as int).len());
                    assert(name@.skip(plen as int)[idx] == name@[j as int]);
                    assert(!crate::num::is_dec_digit(name@.skip(plen as int)[idx]));
                }
                assert(!pattern_matches(pattern.prefix@, pattern.numeric, name@));
            }
            return false;
        }
        j += 1;
    }
    assert forall|k: int| 0 <= k < name@.skip(plen as int).len() implies crate::num::is_dec_digit(
        #[trigger] name@.skip(plen as int)[k],
    ) by {
        assert(name@.skip(plen as int)[k] == name@[k + plen]);
    }
    true
}

/// The entries of `entries` that mark device instances of the class, in
/// listing order.
pub fn matching_entries(entries: &Vec<String>, pattern: &NamePattern) -> (r: Vec<String>)
    ensures
        r.deep_view() == spec_matching(entries.deep_view(), pattern.prefix@, pattern.numeric),
{
    let mut r: Vec<String> = Vec::new();
    let n: usize = entries.len();
    let mut i: usize = 0;
    while i < n
        invariant
            0 <= i <= n,
            n == entries@.len(),
            r.deep_view() == spec_matching(
                entries.deep_view().take(i as int),
                pattern.prefix@,
                pattern.numeric,
            ),
        decreases n - i,
    {
        let ghost pre = entries.deep_view().take(i as int);
        proof {
            assert(entries.deep_view().take(i as int + 1) =~= pre.push(entries@[i as int]@));
            assert(entries.deep_view().take(i as int + 1).drop_last() =~= pre);
        }
        if name_matches(entries[i].as_str(), pattern) {
            let ghost old_dv = r.deep_view();
            r.push(entries[i].clone());
            proof {
                assert(r.deep_view() =~= old_dv.push(entries.deep_view()[i as int]));
            }
        }
        i += 1;
    }
    proof {
        assert(entries.deep_view().take(n as int) =~= entries.deep_view());
    }
    r
}

/// How many entries of `entries` mark device instances of the class.
pub fn count_matching(entries: &Vec<String>, pattern: &NamePattern) -> (r: usize)
    ensures
        r == spec_matching(entries.deep_view(), pattern.prefix@, pattern.numeric).len(),
{
    let v = matching_entries(entries, pattern);
    v.len()
}

/// The numeric index an entry name carries for the class with the given
/// prefix, when it carries one.
pub open spec fn spec_entry_index(name: Seq<char>, prefix: Seq<char>) -> Option<u64> {
    if name.len() > prefix.len() && name.take(prefix.len() as int) == prefix {
        spec_parse_u64(name.skip(prefix.len() as int))
    } else {
        None
    }
}

/// Extracts the numeric index of one entry name: the decimal value of
/// what follows the prefix.
pub fn entry_index(name: &str, prefix: &str) -> (r: Option<u64>)
    ensures
        r == spec_entry_index(name@, prefix@),
{
    let plen: usize = prefix.unicode_len();
    let nlen: usize = name.unicode_len();
    if nlen <= plen {
        return None;
    }
    let mut i: usize = 0;
    while i < plen
        invariant
            0 <= i <= plen,
            plen == prefix@.len(),
            plen < nlen,
            nlen == name@.len(),
            forall|j: int| 0 <= j < i ==> name@[j] == prefix@[j],
        decreases plen - i,
    {
        if name.get_char(i) != prefix.get_char(i) {
            assert(name@.take(plen as int)[i as int] != prefix@[i as int]);
            return None;
        }
        i += 1;
    }
    assert(name@.take(plen as int) =~= prefix@);
    let tail = name.substring_char(plen, nlen);
    assert(tail@ =~= name@.skip(plen as int));
    parse_u64(tail)
}

/// Whether `s` is in ascending order.
pub open spec fn sorted_u64(s: Seq<u64>) -> bool {
    forall|i: int, j: int| 0 <= i < j < s.len() ==> s[i] <= s[j]
}

/// Sorts numeric locator indices ascending, keeping every occurrence.
pub fn sort_u64(v: &Vec<u64>) -> (r: Vec<u64>)
    ensures
        sorted_u64(r@),
        r@.to_multiset() == v@.to_multiset(),
{
    broadcast use vstd::seq_lib::group_to_multiset_ensures;

    let mut out: Vec<u64> = Vec::new();
    let n: usize = v.len();
    let mut i: usize = 0;
    while i < n
        invariant
            0 <= i <= n,
            n == v@.len(),
            sorted_u64(out@),
            out@.to_multiset() == v@.take(i as int).to_multiset(),
        decreases n - i,
    {
        let x = v[i];
        let m: usize = out.len();
        let mut p: usize = 0;
        while p < m && out[p] <= x
            invariant
                0 <= p <= m,
                m == out@.len(),
                forall|k: int| 0 <= k < p ==> out@[k] <= x,
            decreases m - p,
        {
            p += 1;
        }
        let ghost before = out@;
        out.insert(p, x);
        proof {
            assert(v@.take(i as int + 1) =~= v@.take(i as int).push(v@[i as int]));
            vstd::seq_lib::to_multiset_build(v@.take(i as int), v@[i as int]);
            vstd::seq_lib::to_multiset_insert(before, p as int, x);
            assert(sorted_u64(out@)) by {
                assert(forall|k: int| 0 <= k < p ==> out@[k] == before[k]);
                assert(forall|k: int| p < k < out@.len() ==> out@[k] == before[k - 1]);
                assert(p < before.len() ==> before[p as int] > x);
            }
        }
        i += 1;
    }
    proof {
        assert(v@.take(n as int) =~= v@);
    }
    out
}

} // verus!
