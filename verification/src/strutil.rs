//! Verified helpers on strings: equality, substring search, and decimal
//! formatting of integers.

use vstd::assert_by_contradiction;
use vstd::prelude::*;

verus! {

/// Character-for-character equality of two string slices.
pub fn str_eq(a: &str, b: &str) -> (r: bool)
    ensures
        r == (a@ == b@),
{
    let alen = a.unicode_len();
    let blen = b.unicode_len();
    if alen != blen {
        return false;
    }
    let mut i: usize = 0;
    while i < alen
        invariant
            alen == a@.len(),
            blen == b@.len(),
            alen == blen,
            i <= alen,
            forall|j: int| 0 <= j < i as int ==> a@[j] == b@[j],
        decreases alen - i,
    {
        if a.get_char(i) != b.get_char(i) {
            return false;
        }
        i += 1;
    }
    proof {
        assert(a@ =~= b@);
    }
    true
}

/// Whether `n` occurs in `h` as a contiguous run of characters.
pub open spec fn seq_contains(h: Seq<char>, n: Seq<char>) -> bool {
    exists|i: int|
        0 <= i && i + n.len() <= h.len() && #[trigger] h.subrange(i, i + n.len()) == n
}

/// Substring search: true iff `n` occurs somewhere in `h`.
pub fn str_contains(h: &str, n: &str) -> (r: bool)
    ensures
        r == seq_contains(h@, n@),
{
    let hlen = h.unicode_len();
    let nlen = n.unicode_len();
    if nlen > hlen {
        proof {
            if seq_contains(h@, n@) {
                let k = choose|k: int|
                    0 <= k && k + n@.len() <= h@.len() && #[trigger] h@.subrange(k, k + n@.len())
                        == n@;
                assert(false);
            }
        }
        return false;
    }
    if nlen == 0 {
        proof {
            assert(h@.subrange(0, 0 + n@.len() as int) =~= n@);
            assert(seq_contains(h@, n@));
        }
        return true;
    }
    let mut i: usize = 0;
    while i <= hlen - nlen
        invariant
            hlen == h@.len(),
            nlen == n@.len(),
            1 <= nlen <= hlen,
            i <= hlen - nlen + 1,
            forall|k: int| 0 <= k < i as int ==> #[trigger] h@.subrange(k, k + n@.len()) != n@,
        decreases hlen - nlen + 1 - i,
    {
        let mut j: usize = 0;
        let mut found = true;
        while found && j < nlen
            invariant
                hlen == h@.len(),
                nlen == n@.len(),
                i + nlen <= hlen,
                j <= nlen,
                found ==> forall|t: int| 0 <= t < j as int ==> h@[i + t] == n@[t],
                !found ==> h@.subrange(i as int, i + nlen as int) != n@,
            decreases nlen - j + (if found { 1int } else { 0int }),
        {
            if h.get_char(i + j) != n.get_char(j) {
                proof {
                    assert(h@.subrange(i as int, i + nlen as int)[j as int] == h@[i + j]);
                }
                found = false;
            } else {
                j += 1;
            }
        }
        if found {
            proof {
                assert(h@.subrange(i as int, i as int + n@.len() as int) =~= n@);
                assert(seq_contains(h@, n@));
            }
            return true;
        }
        i += 1;
    }
    proof {
        if seq_contains(h@, n@) {
            let k = choose|k: int|
                0 <= k && k + n@.len() <= h@.len() && #[trigger] h@.subrange(k, k + n@.len())
                    == n@;
            assert(h@.subrange(k, k + n@.len()) != n@);
            assert(false);
        }
    }
    false
}

/// ASCII-case-insensitive character equality against a lowercase letter
/// (or any other character compared verbatim).
pub open spec fn spec_eq_ci(a: char, b: char) -> bool {
    a == b || (65 <= a as u32 && a as u32 <= 90 && a as u32 + 32 == b as u32)
}

/// `n` matches `h` at position `i`, ASCII-case-insensitively.
pub open spec fn spec_matches_ci_at(h: Seq<char>, n: Seq<char>, i: int) -> bool {
    forall|t: int| 0 <= t < n.len() ==> spec_eq_ci(h[i + t], #[trigger] n[t])
}

/// Whether `n` occurs in `h` as a contiguous run of characters, comparing
/// ASCII letters without regard to case.
pub open spec fn spec_contains_ci(h: Seq<char>, n: Seq<char>) -> bool {
    exists|i: int|
        0 <= i && i + n.len() <= h.len() && #[trigger] spec_matches_ci_at(h, n, i)
}

/// ASCII-case-insensitive character comparison.
pub fn eq_ci(a: char, b: char) -> (r: bool)
    ensures
        r == spec_eq_ci(a, b),
{
    let au = a as u32;
    let bu = b as u32;
    a == b || (65 <= au && au <= 90 && au + 32 == bu)
}

/// Substring search that ignores ASCII letter case: true iff `n` occurs
/// somewhere in `h` up to case.
pub fn str_contains_ci(h: &str, n: &str) -> (r: bool)
    ensures
        r == spec_contains_ci(h@, n@),
{
    let hlen = h.unicode_len();
    let nlen = n.unicode_len();
    if nlen > hlen {
        proof {
            if spec_contains_ci(h@, n@) {
                let k = choose|k: int|
                    0 <= k && k + n@.len() <= h@.len() && #[trigger] spec_matches_ci_at(
                        h@,
                        n@,
                        k,
                    );
                assert(false);
            }
        }
        return false;
    }
    if nlen == 0 {
        proof {
            assert(spec_matches_ci_at(h@, n@, 0));
            assert(spec_contains_ci(h@, n@));
        }
        return true;
    }
    let mut i: usize = 0;
    while i <= hlen - nlen
        invariant
            hlen == h@.len(),
            nlen == n@.len(),
            1 <= nlen <= hlen,
            i <= hlen - nlen + 1,
            forall|k: int| 0 <= k < i as int ==> !#[trigger] spec_matches_ci_at(h@, n@, k),
        decreases hlen - nlen + 1 - i,
    {
        let mut j: usize = 0;
        let mut found = true;
        while found && j < nlen
            invariant
                hlen == h@.len(),
                nlen == n@.len(),
                i + nlen <= hlen,
                j <= nlen,
                found ==> forall|t: int| 0 <= t < j as int ==> spec_eq_ci(h@[i + t], #[trigger] n@[t]),
                !found ==> !spec_matches_ci_at(h@, n@, i as int),
            decreases nlen - j + (if found { 1int } else { 0int }),
        {
            if !eq_ci(h.get_char(i + j), n.get_char(j)) {
                proof {
                    assert_by_contradiction!(!spec_matches_ci_at(h@, n@, i as int), {
                        assert(spec_eq_ci(h@[i as int + j], n@[j as int]));
                    });
                }
                found = false;
            } else {
                j += 1;
            }
        }
        if found {
            proof {
                assert(spec_matches_ci_at(h@, n@, i as int));
                assert(spec_contains_ci(h@, n@));
            }
            return true;
        }
        i += 1;
    }
    proof {
        if spec_contains_ci(h@, n@) {
            let k = choose|k: int|
                0 <= k && k + n@.len() <= h@.len() && #[trigger] spec_matches_ci_at(h@, n@, k);
            assert(!spec_matches_ci_at(h@, n@, k));
            assert(false);
        }
    }
    false
}

/// The character that stands for the decimal digit `d`.
pub open spec fn spec_digit_char(d: nat) -> char {
    if d == 0 {
        '0'
    } else if d == 1 {
        '1'
    } else if d == 2 {
        '2'
    } else if d == 3 {
        '3'
    } else if d == 4 {
        '4'
    } else if d == 5 {
        '5'
    } else if d == 6 {
        '6'
    } else if d == 7 {
        '7'
    } else if d == 8 {
        '8'
    } else {
        '9'
    }
}

/// The decimal representation of `n`, most significant digit first, with
/// no leading zero except for `n == 0` itself.
pub open spec fn spec_dec(n: nat) -> Seq<char>
    decreases n,
{
    if n < 10 {
        seq![spec_digit_char(n)]
    } else {
        spec_dec(n / 10).push(spec_digit_char(n % 10))
    }
}

/// The one-character string of a decimal digit.
fn digit_str(d: u16) -> (r: &'static str)
    requires
        d < 10,
    ensures
        r@ == seq![spec_digit_char(d as nat)],
{
    let r: &'static str = match d {
        0 => "0",
        1 => "1",
        2 => "2",
        3 => "3",
        4 => "4",
        5 => "5",
        6 => "6",
        7 => "7",
        8 => "8",
        _ => "9",
    };
    proof {
        reveal_strlit("0");
        reveal_strlit("1");
        reveal_strlit("2");
        reveal_strlit("3");
        reveal_strlit("4");
        reveal_strlit("5");
        reveal_strlit("6");
        reveal_strlit("7");
        reveal_strlit("8");
        reveal_strlit("9");
        assert(r@ =~= seq![spec_digit_char(d as nat)]);
    }
    r
}

/// Format a number in decimal.
pub fn u16_to_dec(n: u16) -> (s: String)
    ensures
        s@ == spec_dec(n as nat),
    decreases n,
{
    if n < 10 {
        digit_str(n).to_owned()
    } else {
        let mut s = u16_to_dec(n / 10);
        s.append(digit_str(n % 10));
        proof {
            assert(s@ =~= spec_dec((n / 10) as nat).push(spec_digit_char((n % 10) as nat)));
        }
        s
    }
}

} // verus!
