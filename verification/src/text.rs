//! Verified text helpers: character-wise string equality and substring
//! search, decimal rendering of counters, and URL path joining.

use vstd::prelude::*;
use vstd::string::StrSliceExecFns;
use vstd::string::StringExecFns;

verus! {

/// Character-for-character string equality.
pub fn str_eq(a: &str, b: &str) -> (r: bool)
    ensures
        r <==> a@ == b@,
{
    let a_len = a.unicode_len();
    let b_len = b.unicode_len();
    if a_len != b_len {
        return false;
    }
    let mut i: usize = 0;
    while i < a_len
        invariant
            i <= a_len,
            a_len == a@.len(),
            a_len == b@.len(),
            forall|j: int| 0 <= j < i ==> a@[j] == b@[j],
        decreases a_len - i,
    {
        if a.get_char(i) != b.get_char(i) {
            return false;
        }
        i += 1;
    }
    proof {
        assert(a@ =~= b@);
    }
    true
}

/// The needle occurs in the haystack starting at position `i`.
pub open spec fn spec_contains_at(haystack: Seq<char>, needle: Seq<char>, i: int) -> bool {
    0 <= i && i + needle.len() <= haystack.len()
        && haystack.subrange(i, i + needle.len() as int) == needle
}

/// The needle occurs somewhere in the haystack.
pub open spec fn spec_contains(haystack: Seq<char>, needle: Seq<char>) -> bool {
    exists|i: int| spec_contains_at(haystack, needle, i)
}

/// Whether the needle occurs at position `i` of the haystack.
fn matches_at(haystack: &str, needle: &str, i: usize) -> (r: bool)
    requires
        i + needle@.len() <= haystack@.len(),
        haystack@.len() <= usize::MAX,
    ensures
        r == spec_contains_at(haystack@, needle@, i as int),
{
    let n_len = needle.unicode_len();
    let mut k: usize = 0;
    while k < n_len
        invariant
            k <= n_len,
            n_len == needle@.len(),
            i + n_len <= haystack@.len(),
            haystack@.len() <= usize::MAX,
            forall|l: int| 0 <= l < k ==> haystack@[i + l] == needle@[l],
        decreases n_len - k,
    {
        if haystack.get_char(i + k) != needle.get_char(k) {
            proof {
                assert(haystack@.subrange(i as int, i + needle@.len() as int)[k as int]
                    == haystack@[i + k]);
            }
            return false;
        }
        k += 1;
    }
    proof {
        assert(haystack@.subrange(i as int, i + needle@.len() as int) =~= needle@);
    }
    true
}

/// Substring search by scanning every candidate position.
pub fn str_contains(haystack: &str, needle: &str) -> (r: bool)
    ensures
        r == spec_contains(haystack@, needle@),
{
    let h_len = haystack.unicode_len();
    let n_len = needle.unicode_len();
    if n_len > h_len {
        return false;
    }
    if n_len == 0 {
        proof {
            assert(spec_contains_at(haystack@, needle@, 0)) by {
                assert(haystack@.subrange(0, 0) =~= needle@);
            }
        }
        return true;
    }
    let mut i: usize = 0;
    while i <= h_len - n_len
        invariant
            n_len <= h_len,
            h_len == haystack@.len(),
            n_len == needle@.len(),
            1 <= n_len,
            i <= h_len - n_len + 1,
            forall|j: int| 0 <= j < i ==> !spec_contains_at(haystack@, needle@, j),
        decreases h_len - n_len + 1 - i,
    {
        if matches_at(haystack, needle, i) {
            return true;
        }
        i += 1;
    }
    false
}

/// The character for one decimal digit.
pub open spec fn spec_digit_char(d: int) -> char {
    if d == 0 { '0' }
    else if d == 1 { '1' }
    else if d == 2 { '2' }
    else if d == 3 { '3' }
    else if d == 4 { '4' }
    else if d == 5 { '5' }
    else if d == 6 { '6' }
    else if d == 7 { '7' }
    else if d == 8 { '8' }
    else { '9' }
}

/// The decimal rendering of a number, most significant digit first, with no
/// leading zero except for the number zero itself.
pub open spec fn spec_decimal(n: nat) -> Seq<char>
    decreases n,
{
    if n < 10 {
        seq![spec_digit_char(n as int)]
    } else {
        spec_decimal(n / 10).push(spec_digit_char((n % 10) as int))
    }
}

/// The digit characters for a sequence of digit values.
spec fn digit_chars(ds: Seq<u8>) -> Seq<char> {
    ds.map_values(|d: u8| spec_digit_char(d as int))
}

/// Renders a number in decimal.
pub fn u64_to_decimal(n: u64) -> (s: String)
    ensures
        s@ == spec_decimal(n as nat),
{
    let digit_table = "0123456789";
    proof {
        reveal_strlit("0123456789");
    }
    let mut rev: Vec<u8> = Vec::new();
    let mut m: u64 = n;
    while m >= 10
        invariant
            spec_decimal(n as nat) == spec_decimal(m as nat) + digit_chars(rev@).reverse(),
            forall|j: int| 0 <= j < rev@.len() ==> rev@[j] < 10,
        decreases m,
    {
        let d: u8 = (m % 10) as u8;
        proof {
            let prev = rev@;
            assert(digit_chars(prev.push(d)).reverse()
                =~= seq![spec_digit_char(d as int)] + digit_chars(prev).reverse());
        }
        rev.push(d);
        m = m / 10;
    }
    proof {
        let prev = rev@;
        let d: u8 = (m % 10) as u8;
        assert(m % 10 == m as int);
        assert(digit_chars(prev.push(d)).reverse()
            =~= seq![spec_digit_char(d as int)] + digit_chars(prev).reverse());
        assert(spec_decimal(m as nat) == seq![spec_digit_char(m as int)]);
    }
    rev.push((m % 10) as u8);
    proof {
        assert(spec_decimal(n as nat) =~= digit_chars(rev@).reverse());
    }
    let mut out = String::new();
    let mut i: usize = rev.len();
    while i > 0
        invariant
            i <= rev@.len(),
            digit_table@ == "0123456789"@,
            forall|j: int| 0 <= j < rev@.len() ==> rev@[j] < 10,
            out@ =~= digit_chars(rev@).reverse().subrange(0, rev@.len() - i),
        decreases i,
    {
        i = i - 1;
        let d = rev[i] as usize;
        proof {
            reveal_strlit("0123456789");
            assert(digit_table@.len() == 10);
        }
        let piece = digit_table.substring_char(d, d + 1);
        proof {
            assert(piece@ =~= seq![digit_table@[d as int]]);
            assert(digit_table@[d as int] == spec_digit_char(d as int));
            let r = digit_chars(rev@).reverse();
            assert(r[rev@.len() - i - 1] == digit_chars(rev@)[i as int]);
            assert(r.subrange(0, rev@.len() - i)
                =~= r.subrange(0, rev@.len() - i - 1).push(r[rev@.len() - i - 1]));
        }
        out.append(piece);
    }
    proof {
        assert(out@ =~= digit_chars(rev@).reverse());
    }
    out
}

} // verus!
