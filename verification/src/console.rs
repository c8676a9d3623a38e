//! Plain-value helpers for the control surface: choosing a display
//! name for a soundfont and reading the user's port pick.
//!
//! Both are the decision half of interactive glue — the printing and
//! reading around them stay with the host.

use vstd::prelude::*;

verus! {

/// The first non-empty name in a preference-ordered list.
pub open spec fn first_nonempty(names: Seq<Seq<char>>) -> Option<Seq<char>>
    decreases names.len(),
{
    if names.len() == 0 {
        None
    } else if names[0].len() > 0 {
        Some(names[0])
    } else {
        first_nonempty(names.drop_first())
    }
}

/// Picks a display name for a soundfont from its info strings, given in
/// preference order (ROM name, bank name, and so on): the first
/// non-empty one, or a placeholder when all are empty.
pub fn font_display_name(candidates: &Vec<String>) -> (r: String)
    ensures
        r@ == match first_nonempty(candidates@.map_values(|s: String| s@)) {
            Some(name) => name,
            None => "Unknown"@,
        },
{
    let ghost views = candidates@.map_values(|s: String| s@);
    proof {
        assert(views.skip(0) =~= views);
    }
    let n = candidates.len();
    let mut i: usize = 0;
    while i < n
        invariant
            i <= n,
            n == candidates@.len(),
            views == candidates@.map_values(|s: String| s@),
            first_nonempty(views.skip(i as int)) == first_nonempty(views),
        decreases n - i,
    {
        proof {
            assert(views.skip(i as int)[0] == views[i as int]);
            assert(views.skip(i as int).drop_first() =~= views.skip(i + 1));
        }
        if !candidates[i].as_str().is_empty() {
            return candidates[i].clone();
        }
        i = i + 1;
    }
    proof {
        assert(views.skip(n as int) =~= Seq::<Seq<char>>::empty());
    }
    "Unknown".to_owned()
}

/// All bytes are decimal digits.
pub open spec fn all_digits(bytes: Seq<u8>) -> bool {
    forall|i: int| 0 <= i < bytes.len() ==> 0x30 <= #[trigger] bytes[i] <= 0x39
}

/// The number a string of decimal digits denotes.
pub open spec fn dec_value(bytes: Seq<u8>) -> int
    decreases bytes.len(),
{
    if bytes.len() == 0 {
        0
    } else {
        dec_value(bytes.drop_last()) * 10 + (bytes.last() - 0x30)
    }
}

proof fn lemma_dec_value_nonneg(bytes: Seq<u8>)
    requires
        all_digits(bytes),
    ensures
        dec_value(bytes) >= 0,
    decreases bytes.len(),
{
    if bytes.len() > 0 {
        assert(bytes.drop_last() =~= bytes.subrange(0, bytes.len() - 1));
        lemma_dec_value_nonneg(bytes.drop_last());
    }
}

/// A digit string denotes at least what any of its prefixes denotes.
proof fn lemma_dec_value_prefix(bytes: Seq<u8>, k: int)
    requires
        all_digits(bytes),
        0 <= k <= bytes.len(),
    ensures
        dec_value(bytes) >= dec_value(bytes.subrange(0, k)),
    decreases bytes.len() - k,
{
    if k < bytes.len() {
        assert(bytes.drop_last() =~= bytes.subrange(0, bytes.len() - 1));
        lemma_dec_value_nonneg(bytes.drop_last());
        lemma_dec_value_prefix(bytes.drop_last(), k);
        assert(bytes.drop_last().subrange(0, k) =~= bytes.subrange(0, k));
    } else {
        assert(bytes.subrange(0, k) =~= bytes);
    }
}

/// A port pick's digits: one optional leading plus sign (which the
/// usual number parsers accept) is dropped, the rest must be digits.
pub open spec fn digits_part(bytes: Seq<u8>) -> Seq<u8> {
    if bytes.len() > 0 && bytes[0] == 0x2b {
        bytes.drop_first()
    } else {
        bytes
    }
}

/// Reads the user's port pick: decimal digits, after at most one
/// leading plus sign, denoting an index below `port_count`. Anything
/// else — an empty line, a stray character, or an index at or past
/// the count — is no pick.
pub fn parse_port_choice(input: &[u8], port_count: usize) -> (r: Option<usize>)
    ensures
        r == ({
            let d = digits_part(input@);
            if d.len() > 0 && all_digits(d) && dec_value(d) < port_count {
                Some(dec_value(d) as usize)
            } else {
                None::<usize>
            }
        }),
{
    let n = input.len();
    let start: usize = if n > 0 && input[0] == 0x2b { 1 } else { 0 };
    let ghost d = input@.subrange(start as int, n as int);
    proof {
        assert(d =~= digits_part(input@));
    }
    if n == start {
        return None;
    }
    let m = n - start;
    let mut acc: usize = 0;
    let mut j: usize = 0;
    while j < m
        invariant
            j <= m,
            n == input@.len(),
            start + m == n,
            m == d.len(),
            d == input@.subrange(start as int, n as int),
            d == digits_part(input@),
            all_digits(d.subrange(0, j as int)),
            acc == dec_value(d.subrange(0, j as int)),
            j > 0 ==> acc < port_count,
        decreases m - j,
    {
        let b = input[start + j];
        proof {
            assert(b == d[j as int]);
        }
        if b < 0x30 || b > 0x39 {
            return None;
        }
        proof {
            assert(d.subrange(0, j + 1).drop_last() =~= d.subrange(0, j as int));
            assert(d.subrange(0, j + 1).last() == d[j as int]);
        }
        let big: u128 = (acc as u128) * 10 + ((b - 0x30) as u128);
        assert(big == dec_value(d.subrange(0, j + 1)));
        if big >= port_count as u128 {
            proof {
                if all_digits(d) {
                    lemma_dec_value_prefix(d, j + 1);
                    assert(dec_value(d) >= big);
                    assert(!(dec_value(d) < port_count));
                }
                assert(!(d.len() > 0 && all_digits(d) && dec_value(d) < port_count));
            }
            return None;
        }
        acc = big as usize;
        j = j + 1;
    }
    proof {
        assert(d.subrange(0, m as int) =~= d);
    }
    Some(acc)
}

} // verus!
