//! Byte-level text utilities shared by the digest parser and the
//! power-supply readers: whitespace scanning, tokenizing, trimming, and
//! decimal parsing.  Everything is specified over `Seq<u8>`.

use vstd::prelude::*;
use vstd::slice::slice_subrange;

verus! {

/// ASCII whitespace: space, tab, line feed, vertical tab, form feed,
/// carriage return.
pub open spec fn is_ws(b: u8) -> bool {
    b == 32 || b == 9 || b == 10 || b == 11 || b == 12 || b == 13
}

/// Index of the first non-whitespace byte at or after `i`; `s.len()` if the
/// rest is all whitespace.
pub open spec fn scan_nonws(s: Seq<u8>, i: int) -> int
    decreases s.len() - i when 0 <= i <= s.len()
{
    if i < s.len() {
        if is_ws(s[i]) {
            scan_nonws(s, i + 1)
        } else {
            i
        }
    } else {
        i
    }
}

/// Index of the first whitespace byte at or after `i`; `s.len()` if none.
pub open spec fn scan_ws(s: Seq<u8>, i: int) -> int
    decreases s.len() - i when 0 <= i <= s.len()
{
    if i < s.len() {
        if is_ws(s[i]) {
            i
        } else {
            scan_ws(s, i + 1)
        }
    } else {
        i
    }
}

/// End of the trimmed region: the smallest `j <= i` such that everything
/// from `j` to `i` is whitespace.
pub open spec fn scan_end(s: Seq<u8>, i: int) -> int
    decreases i when 0 <= i <= s.len()
{
    if i > 0 && is_ws(s[i - 1]) {
        scan_end(s, i - 1)
    } else {
        i
    }
}

/// The first whitespace-delimited token of `s`, if any.
pub open spec fn spec_first_token(s: Seq<u8>) -> Option<Seq<u8>> {
    let a = scan_nonws(s, 0);
    if a == s.len() {
        None
    } else {
        Some(s.subrange(a, scan_ws(s, a)))
    }
}

/// `s` with leading and trailing whitespace removed.
pub open spec fn spec_trim(s: Seq<u8>) -> Seq<u8> {
    let a = scan_nonws(s, 0);
    if a == s.len() {
        Seq::empty()
    } else {
        s.subrange(a, scan_end(s, s.len() as int))
    }
}

proof fn lemma_scan_nonws_bounds(s: Seq<u8>, i: int)
    requires
        0 <= i <= s.len(),
    ensures
        i <= scan_nonws(s, i) <= s.len(),
    decreases s.len() - i,
{
    if i < s.len() && is_ws(s[i]) {
        lemma_scan_nonws_bounds(s, i + 1);
    }
}

proof fn lemma_scan_ws_bounds(s: Seq<u8>, i: int)
    requires
        0 <= i <= s.len(),
    ensures
        i <= scan_ws(s, i) <= s.len(),
    decreases s.len() - i,
{
    if i < s.len() && !is_ws(s[i]) {
        lemma_scan_ws_bounds(s, i + 1);
    }
}

proof fn lemma_scan_end_bounds(s: Seq<u8>, i: int)
    requires
        0 <= i <= s.len(),
    ensures
        0 <= scan_end(s, i) <= i,
    decreases i,
{
    if i > 0 && is_ws(s[i - 1]) {
        lemma_scan_end_bounds(s, i - 1);
    }
}

/// Whether `b` is an ASCII whitespace byte.
pub fn ws_byte(b: u8) -> (r: bool)
    ensures
        r == is_ws(b),
{
    b == 32 || b == 9 || b == 10 || b == 11 || b == 12 || b == 13
}

/// The first whitespace-delimited token of `s`, if any.
pub fn first_token<'a>(s: &'a [u8]) -> (r: Option<&'a [u8]>)
    ensures
        r is Some <==> spec_first_token(s@) is Some,
        r is Some ==> r->0@ == spec_first_token(s@)->0,
{
    let n = s.len();
    let mut a: usize = 0;
    while a < n && ws_byte(s[a])
        invariant
            0 <= a <= n,
            n == s@.len(),
            scan_nonws(s@, 0) == scan_nonws(s@, a as int),
        decreases n - a,
    {
        a = a + 1;
    }
    proof {
        lemma_scan_nonws_bounds(s@, a as int);
    }
    assert(scan_nonws(s@, 0) == a as int);
    if a == n {
        return None;
    }
    let mut b: usize = a;
    while b < n && !ws_byte(s[b])
        invariant
            a <= b <= n,
            n == s@.len(),
            scan_ws(s@, a as int) == scan_ws(s@, b as int),
        decreases n - b,
    {
        b = b + 1;
    }
    proof {
        lemma_scan_ws_bounds(s@, b as int);
    }
    assert(scan_ws(s@, a as int) == b as int);
    Some(slice_subrange(s, a, b))
}

/// `s` with leading and trailing whitespace removed.
pub fn trim<'a>(s: &'a [u8]) -> (r: &'a [u8])
    ensures
        r@ == spec_trim(s@),
{
    let n = s.len();
    let mut a: usize = 0;
    while a < n && ws_byte(s[a])
        invariant
            0 <= a <= n,
            n == s@.len(),
            scan_nonws(s@, 0) == scan_nonws(s@, a as int),
        decreases n - a,
    {
        a = a + 1;
    }
    proof {
        lemma_scan_nonws_bounds(s@, a as int);
    }
    assert(scan_nonws(s@, 0) == a as int);
    if a == n {
        return slice_subrange(s, n, n);
    }
    let mut e: usize = n;
    while e > 0 && ws_byte(s[e - 1])
        invariant
            0 <= e <= n,
            n == s@.len(),
            scan_end(s@, n as int) == scan_end(s@, e as int),
        decreases e,
    {
        e = e - 1;
    }
    assert(scan_end(s@, n as int) == e as int);
    proof {
        lemma_scan_end_bounds(s@, n as int);
        if (e as int) < a as int {
            lemma_trim_order(s@, a as int, e as int);
        }
    }
    slice_subrange(s, a, e)
}

/// If the first non-whitespace byte sits at `a < s.len()`, the trimmed end
/// cannot lie before it.
proof fn lemma_trim_order(s: Seq<u8>, a: int, e: int)
    requires
        0 <= a < s.len(),
        !is_ws(s[a]),
        0 <= e <= s.len(),
        e == scan_end(s, s.len() as int),
    ensures
        e > a,
{
    lemma_scan_end_keeps_nonws(s, s.len() as int, a);
}

/// `scan_end` never drops below an index holding a non-whitespace byte.
proof fn lemma_scan_end_keeps_nonws(s: Seq<u8>, i: int, a: int)
    requires
        0 <= a < s.len(),
        !is_ws(s[a]),
        a < i <= s.len(),
    ensures
        scan_end(s, i) > a,
    decreases i,
{
    if i > 0 && is_ws(s[i - 1]) {
        lemma_scan_end_keeps_nonws(s, i - 1, a);
    }
}

/// Whether `b` is an ASCII decimal digit.
pub open spec fn is_digit(b: u8) -> bool {
    48 <= b <= 57
}

/// Numeric value of the decimal digit string `s` (most significant first).
pub open spec fn spec_dec_val(s: Seq<u8>) -> nat
    decreases s.len(),
{
    if s.len() == 0 {
        0
    } else {
        (spec_dec_val(s.drop_last()) * 10 + (s.last() - 48)) as nat
    }
}

/// `s` is a well-formed decimal numeral: non-empty, digits only.
pub open spec fn spec_all_digits(s: Seq<u8>) -> bool {
    s.len() > 0 && forall|i: int| 0 <= i < s.len() ==> is_digit(#[trigger] s[i])
}

/// A longer digit string never denotes a smaller value.
proof fn lemma_dec_val_monotone(s: Seq<u8>, i: int, j: int)
    requires
        spec_all_digits(s),
        0 <= i <= j <= s.len(),
    ensures
        spec_dec_val(s.subrange(0, i)) <= spec_dec_val(s.subrange(0, j)),
    decreases j - i,
{
    if i < j {
        lemma_dec_val_monotone(s, i, j - 1);
        let p = s.subrange(0, j);
        assert(p.drop_last() =~= s.subrange(0, j - 1));
        assert(spec_dec_val(p) == spec_dec_val(p.drop_last()) * 10 + (p.last() - 48));
    }
}

/// Parse `s` as an unsigned decimal integer.  Succeeds exactly when `s` is
/// non-empty, all digits, and the value fits in a `u64`.
pub fn parse_u64(s: &[u8]) -> (r: Option<u64>)
    ensures
        r is Some <==> spec_all_digits(s@) && spec_dec_val(s@) <= u64::MAX,
        r is Some ==> r->0 == spec_dec_val(s@),
{
    let n = s.len();
    if n == 0 {
        return None;
    }
    let mut acc: u64 = 0;
    let mut i: usize = 0;
    while i < n
        invariant
            0 <= i <= n,
            n == s@.len(),
            n > 0,
            forall|k: int| 0 <= k < i ==> is_digit(#[trigger] s@[k]),
            acc == spec_dec_val(s@.subrange(0, i as int)),
        decreases n - i,
    {
        let b = s[i];
        if b < 48 || b > 57 {
            return None;
        }
        let d: u64 = (b - 48) as u64;
        if acc > (u64::MAX - d) / 10 {
            proof {
                let p = s@.subrange(0, i as int + 1);
                assert(p.drop_last() =~= s@.subrange(0, i as int));
                assert(spec_dec_val(p) == acc * 10 + d);
                if spec_all_digits(s@) {
                    lemma_dec_val_monotone(s@, i as int + 1, n as int);
                    assert(s@.subrange(0, n as int) =~= s@);
                }
            }
            return None;
        }
        acc = acc * 10 + d;
        proof {
            let p = s@.subrange(0, i as int + 1);
            assert(p.drop_last() =~= s@.subrange(0, i as int));
        }
        i = i + 1;
    }
    assert(s@.subrange(0, n as int) =~= s@);
    Some(acc)
}

/// Byte-for-byte equality of two slices.
pub fn bytes_eq(a: &[u8], b: &[u8]) -> (r: bool)
    ensures
        r == (a@ == b@),
{
    let n = a.len();
    if n != b.len() {
        assert(a@ != b@);
        return false;
    }
    let mut i: usize = 0;
    while i < n
        invariant
            0 <= i <= n,
            n == a@.len() == b@.len(),
            forall|k: int| 0 <= k < i ==> a@[k] == b@[k],
        decreases n - i,
    {
        if a[i] != b[i] {
            return false;
        }
        i = i + 1;
    }
    assert(a@ =~= b@);
    true
}

} // verus!
