//! Scanning of the bytes that the probing tool prints: white space, field
//! separators and decimal integers.

use vstd::prelude::*;

verus! {

/// ASCII white space: space, tab, line feed, vertical tab, form feed and
/// carriage return.
pub open spec fn is_space(b: u8) -> bool {
    b == 32 || 9 <= b <= 13
}

/// Number of white-space bytes at the front of `s`.
pub open spec fn leading_spaces(s: Seq<u8>) -> nat
    decreases s.len(),
{
    if s.len() > 0 && is_space(s[0]) {
        1 + leading_spaces(s.drop_first())
    } else {
        0
    }
}

/// Number of white-space bytes at the back of `s`.
pub open spec fn trailing_spaces(s: Seq<u8>) -> nat
    decreases s.len(),
{
    if s.len() > 0 && is_space(s.last()) {
        1 + trailing_spaces(s.drop_last())
    } else {
        0
    }
}

/// `s` without the white space at its two ends.
pub open spec fn trim(s: Seq<u8>) -> Seq<u8> {
    let rest = s.skip(leading_spaces(s) as int);
    rest.take(rest.len() - trailing_spaces(rest))
}

/// Position of the first `sep` in `s`, or the length of `s` when there is none.
pub open spec fn first_index_of(s: Seq<u8>, sep: u8) -> nat
    decreases s.len(),
{
    if s.len() == 0 || s[0] == sep {
        0
    } else {
        1 + first_index_of(s.drop_first(), sep)
    }
}

/// The bytes `'0'` to `'9'`.
pub open spec fn is_digit(b: u8) -> bool {
    48 <= b <= 57
}

/// Whether `s` holds decimal digits only.
pub open spec fn all_digits(s: Seq<u8>) -> bool {
    forall|i: int| 0 <= i < s.len() ==> is_digit(#[trigger] s[i])
}

/// The number that a run of decimal digits denotes; leading zeros count for
/// nothing.
pub open spec fn digits_value(s: Seq<u8>) -> nat
    decreases s.len(),
{
    if s.len() == 0 {
        0
    } else {
        digits_value(s.drop_last()) * 10 + (if is_digit(s.last()) {
            (s.last() - 48) as nat
        } else {
            0
        })
    }
}

/// The value of `s` read as a signed 32-bit decimal integer: an optional `+`
/// or `-`, then at least one digit and nothing else. `None` when `s` has
/// another shape or the number does not fit in 32 bits.
pub open spec fn parse_i32(s: Seq<u8>) -> Option<int> {
    let signed = s.len() > 0 && (s[0] == 43 || s[0] == 45);
    let body = if signed {
        s.drop_first()
    } else {
        s
    };
    let magnitude = digits_value(body) as int;
    let value = if s.len() > 0 && s[0] == 45 {
        -magnitude
    } else {
        magnitude
    };
    if body.len() > 0 && all_digits(body) && -0x8000_0000 <= value <= 0x7fff_ffff {
        Some(value)
    } else {
        None
    }
}

/// The value of `s` when it reads as a 32-bit integer greater than zero.
pub open spec fn parse_positive(s: Seq<u8>) -> Option<int> {
    match parse_i32(s) {
        Some(v) if v > 0 => Some(v),
        _ => None,
    }
}

proof fn lemma_leading_spaces(s: Seq<u8>, k: int)
    requires
        0 <= k <= s.len(),
        forall|j: int| 0 <= j < k ==> is_space(#[trigger] s[j]),
        k == s.len() || !is_space(s[k]),
    ensures
        leading_spaces(s) == k,
    decreases k,
{
    if k > 0 {
        lemma_leading_spaces(s.drop_first(), k - 1);
    }
}

proof fn lemma_trailing_spaces(s: Seq<u8>, k: int)
    requires
        0 <= k <= s.len(),
        forall|j: int| s.len() - k <= j < s.len() ==> is_space(#[trigger] s[j]),
        k == s.len() || !is_space(s[s.len() - k - 1]),
    ensures
        trailing_spaces(s) == k,
    decreases k,
{
    if k > 0 {
        lemma_trailing_spaces(s.drop_last(), k - 1);
    }
}

proof fn lemma_first_index_of(s: Seq<u8>, sep: u8, k: int)
    requires
        0 <= k <= s.len(),
        forall|j: int| 0 <= j < k ==> #[trigger] s[j] != sep,
        k == s.len() || s[k] == sep,
    ensures
        first_index_of(s, sep) == k,
    decreases k,
{
    if k > 0 {
        lemma_first_index_of(s.drop_first(), sep, k - 1);
    }
}

proof fn lemma_digits_value_grows(s: Seq<u8>, k: int)
    requires
        0 <= k <= s.len(),
    ensures
        digits_value(s.take(k)) <= digits_value(s),
    decreases s.len(),
{
    if k == s.len() {
        assert(s.take(k) =~= s);
    } else {
        lemma_digits_value_grows(s.drop_last(), k);
        assert(s.drop_last().take(k) =~= s.take(k));
    }
}

/// Whether `b` is ASCII white space.
pub fn byte_is_space(b: u8) -> (r: bool)
    ensures
        r == is_space(b),
{
    b == 32 || (9 <= b && b <= 13)
}

/// Bounds of `bytes` without the white space at its two ends.
pub fn trim_bounds(bytes: &[u8]) -> (bounds: (usize, usize))
    ensures
        bounds.0 <= bounds.1 <= bytes@.len(),
        bytes@.subrange(bounds.0 as int, bounds.1 as int) == trim(bytes@),
{
    let n = bytes.len();
    let mut start: usize = 0;
    while start < n && byte_is_space(bytes[start])
        invariant
            start <= n,
            n == bytes@.len(),
            forall|j: int| 0 <= j < start ==> is_space(#[trigger] bytes@[j]),
        decreases n - start,
    {
        start += 1;
    }
    let mut end: usize = n;
    while end > start && byte_is_space(bytes[end - 1])
        invariant
            start <= end <= n,
            n == bytes@.len(),
            forall|j: int| end <= j < n ==> is_space(#[trigger] bytes@[j]),
        decreases end,
    {
        end -= 1;
    }
    proof {
        let rest = bytes@.skip(start as int);
        lemma_leading_spaces(bytes@, start as int);
        lemma_trailing_spaces(rest, n - end);
        assert(bytes@.subrange(start as int, end as int) =~= trim(bytes@));
    }
    (start, end)
}

/// Position of the first `sep` in `bytes[start..end]`, or `end` when there
/// is none.
pub fn find_byte(bytes: &[u8], start: usize, end: usize, sep: u8) -> (at: usize)
    requires
        start <= end <= bytes@.len(),
    ensures
        start <= at <= end,
        at == start + first_index_of(bytes@.subrange(start as int, end as int), sep),
{
    let mut at: usize = start;
    while at < end && bytes[at] != sep
        invariant
            start <= at <= end <= bytes@.len(),
            forall|j: int| start <= j < at ==> #[trigger] bytes@[j] != sep,
        decreases end - at,
    {
        at += 1;
    }
    proof {
        lemma_first_index_of(bytes@.subrange(start as int, end as int), sep, at - start);
    }
    at
}

/// Whether `bytes[start..end]` holds decimal digits only.
pub fn digits_only(bytes: &[u8], start: usize, end: usize) -> (r: bool)
    requires
        start <= end <= bytes@.len(),
    ensures
        r == all_digits(bytes@.subrange(start as int, end as int)),
{
    let ghost text = bytes@.subrange(start as int, end as int);
    let mut i: usize = start;
    while i < end
        invariant
            start <= i <= end <= bytes@.len(),
            text == bytes@.subrange(start as int, end as int),
            forall|j: int| 0 <= j < i - start ==> is_digit(#[trigger] text[j]),
        decreases end - i,
    {
        let b = bytes[i];
        if b < 48 || b > 57 {
            assert(!is_digit(text[i - start]));
            return false;
        }
        i += 1;
    }
    true
}

/// Reads `bytes[start..end]` as a signed 32-bit decimal integer.
#[verifier::loop_isolation(false)]
pub fn read_i32(bytes: &[u8], start: usize, end: usize) -> (value: Option<i32>)
    requires
        start <= end <= bytes@.len(),
    ensures
        match value {
            Some(v) => parse_i32(bytes@.subrange(start as int, end as int)) == Some(v as int),
            None => parse_i32(bytes@.subrange(start as int, end as int)) is None,
        },
{
    let ghost text = bytes@.subrange(start as int, end as int);
    let negative = start < end && bytes[start] == 45;
    let signed = start < end && (bytes[start] == 43 || bytes[start] == 45);
    let first: usize = if signed {
        start + 1
    } else {
        start
    };
    let ghost body = bytes@.subrange(first as int, end as int);
    proof {
        if signed {
            assert(body =~= text.drop_first());
        } else {
            assert(body =~= text);
        }
    }
    if first == end {
        return None;
    }
    let mut magnitude: u64 = 0;
    let mut i: usize = first;
    while i < end
        invariant
            first <= i <= end <= bytes@.len(),
            body == bytes@.subrange(first as int, end as int),
            all_digits(body.take(i - first)),
            magnitude == digits_value(body.take(i - first)),
            magnitude <= 0x8000_0000,
        decreases end - i,
    {
        let b = bytes[i];
        proof {
            assert(body.take(i - first + 1).drop_last() =~= body.take(i - first));
            assert(body.take(i - first + 1).last() == b);
        }
        if b < 48 || b > 57 {
            assert(!is_digit(body[i - first]));
            return None;
        }
        magnitude = magnitude * 10 + (b - 48) as u64;
        if magnitude > 0x8000_0000 {
            proof {
                lemma_digits_value_grows(body, i - first + 1);
            }
            return None;
        }
        i += 1;
    }
    assert(body.take(end - first) =~= body);
    if negative {
        if magnitude == 0x8000_0000 {
            Some(i32::MIN)
        } else {
            Some(-(magnitude as i32))
        }
    } else if magnitude == 0x8000_0000 {
        None
    } else {
        Some(magnitude as i32)
    }
}

/// Reads `bytes[start..end]` as a 32-bit decimal integer greater than zero.
pub fn read_positive(bytes: &[u8], start: usize, end: usize) -> (value: Option<u32>)
    requires
        start <= end <= bytes@.len(),
    ensures
        match value {
            Some(v) => parse_positive(bytes@.subrange(start as int, end as int)) == Some(v as int),
            None => parse_positive(bytes@.subrange(start as int, end as int)) is None,
        },
{
    match read_i32(bytes, start, end) {
        Some(v) => if v > 0 {
            Some(v as u32)
        } else {
            None
        },
        None => None,
    }
}

} // verus!
