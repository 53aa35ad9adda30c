use vstd::prelude::*;

use super::http_responses::decimal;

verus! {

// ---------------------------------------------------------------------------
// Byte-level model
// ---------------------------------------------------------------------------

/// Uppercase image of an ASCII byte: lowercase letters map to their
/// uppercase counterparts, every other byte maps to itself.
pub open spec fn upper(c: u8) -> u8 {
    if 0x61 <= c <= 0x7a {
        (c - 0x20) as u8
    } else {
        c
    }
}

/// The first position of `needle` in `s`, if any.
pub open spec fn is_first_index(s: Seq<u8>, needle: u8, i: int) -> bool {
    &&& 0 <= i < s.len()
    &&& s[i] == needle
    &&& forall|j: int| 0 <= j < i ==> s[j] != needle
}

/// The bytes `s` with one leading space removed, if there is one.
pub open spec fn spec_strip_left_space(s: Seq<u8>) -> Seq<u8> {
    if s.len() > 0 && s[0] == 0x20u8 {
        s.subrange(1, s.len() as int)
    } else {
        s
    }
}

/// The pattern a chunked transfer-encoding token is compared against.
pub open spec fn chunked_comma() -> Seq<u8> {
    seq![0x43u8, 0x48u8, 0x55u8, 0x4eu8, 0x4bu8, 0x45u8, 0x44u8, 0x2cu8]
}

/// `s` starts with `CHUNKED` (any letter case), and if it is longer than that,
/// the next byte is a comma.
pub open spec fn spec_is_chunked_val(s: Seq<u8>) -> bool {
    &&& s.len() >= 7
    &&& forall|i: int|
        0 <= i < s.len() && i < 8 ==> upper(#[trigger] s[i]) == chunked_comma()[i]
}

/// `s[i..j]` is one of the pieces obtained by splitting `s` at every comma.
pub open spec fn is_comma_piece(s: Seq<u8>, i: int, j: int) -> bool {
    &&& 0 <= i <= j <= s.len()
    &&& (i == 0 || s[i - 1] == 0x2cu8)
    &&& (j == s.len() || s[j] == 0x2cu8)
    &&& forall|k: int| i <= k < j ==> s[k] != 0x2cu8
}

/// Some comma-separated piece of `s`, after one leading space is removed,
/// is a chunked token.
pub open spec fn spec_is_chunked_transfer(s: Seq<u8>) -> bool {
    exists|i: int, j: int|
        #[trigger] is_comma_piece(s, i, j) && spec_is_chunked_val(
            spec_strip_left_space(s.subrange(i, j)),
        )
}

pub open spec fn is_dec_digit(c: u8) -> bool {
    0x30 <= c <= 0x39
}

pub open spec fn dec_digit_value(c: u8) -> nat {
    (c - 0x30) as nat
}

/// Every byte of `s` is a decimal digit.
pub open spec fn all_dec_digits(s: Seq<u8>) -> bool {
    forall|i: int| 0 <= i < s.len() ==> is_dec_digit(#[trigger] s[i])
}

/// The number written by the decimal digits `s`, most significant first.
pub open spec fn dec_value(s: Seq<u8>) -> nat
    decreases s.len(),
{
    if s.len() == 0 {
        0
    } else {
        dec_value(s.drop_last()) * 10 + dec_digit_value(s.last())
    }
}

/// The number of leading decimal digits of `s`.
pub open spec fn leading_dec_digits(s: Seq<u8>) -> nat
    decreases s.len(),
{
    if s.len() == 0 {
        0
    } else if is_dec_digit(s[0]) {
        1 + leading_dec_digits(s.drop_first())
    } else {
        0
    }
}

pub open spec fn pow10(e: nat) -> nat
    decreases e,
{
    if e == 0 {
        1
    } else {
        10 * pow10((e - 1) as nat)
    }
}

/// The sum that positional accumulation of `s` reaches before it meets its
/// first non-digit byte (or the end): the value of the leading digits,
/// each weighted by its place in the whole of `s`.
pub open spec fn dec_partial_sum(s: Seq<u8>) -> nat {
    let p = leading_dec_digits(s);
    dec_value(s.take(p as int)) * pow10((s.len() - p) as nat)
}

pub open spec fn is_hex_digit(c: u8) -> bool {
    ||| 0x30 <= c <= 0x39
    ||| 0x41 <= c <= 0x46
    ||| 0x61 <= c <= 0x66
}

pub open spec fn hex_digit_value(c: u8) -> nat {
    if 0x30 <= c <= 0x39 {
        (c - 0x30) as nat
    } else if 0x41 <= c <= 0x46 {
        (c - 0x41 + 10) as nat
    } else {
        (c - 0x61 + 10) as nat
    }
}

/// Every byte of `s` is a hexadecimal digit (either letter case).
pub open spec fn all_hex_digits(s: Seq<u8>) -> bool {
    forall|i: int| 0 <= i < s.len() ==> is_hex_digit(#[trigger] s[i])
}

/// The number written by the hexadecimal digits `s`, most significant first.
pub open spec fn hex_value(s: Seq<u8>) -> nat
    decreases s.len(),
{
    if s.len() == 0 {
        0
    } else {
        hex_value(s.drop_last()) * 16 + hex_digit_value(s.last())
    }
}

pub open spec fn pow16(e: nat) -> nat
    decreases e,
{
    if e == 0 {
        1
    } else {
        16 * pow16((e - 1) as nat)
    }
}

/// What `parse_number` gives for `s`.
pub open spec fn spec_parse_number(s: Seq<u8>) -> Option<u64> {
    if s.len() > 20 || !all_dec_digits(s) {
        None
    } else {
        Some(dec_value(s) as u64)
    }
}

/// What `parse_hex` gives for `s`.
pub open spec fn spec_parse_hex(s: Seq<u8>) -> Option<u32> {
    if s.len() > 8 || !all_hex_digits(s) {
        None
    } else {
        Some(hex_value(s) as u32)
    }
}

// ---------------------------------------------------------------------------
// Search
// ---------------------------------------------------------------------------

/// Calls `memchr::memchr`, which returns the index of the first occurrence
/// of `needle` in `haystack`, or `None` when `needle` does not occur.
/// The contract states exactly that.
#[verifier::external_body]
fn find_byte(needle: u8, haystack: &[u8]) -> (r: Option<usize>)
    ensures
        match r {
            Some(i) => is_first_index(haystack@, needle, i as int),
            None => !haystack@.contains(needle),
        },
{
    memchr::memchr(needle, haystack)
}

// ---------------------------------------------------------------------------
// Functions
// ---------------------------------------------------------------------------

/// Uppercases an ASCII letter; leaves every other byte as it is.
pub fn ascii_upper(c: u8) -> (r: u8)
    ensures
        r == upper(c),
{
    let mask: u8 = if 0x61 <= c && c <= 0x7a {
        0x20
    } else {
        0
    };
    assert(0x61 <= c <= 0x7a ==> c & !0x20u8 == c - 0x20) by (bit_vector);
    assert(c & !0u8 == c) by (bit_vector);
    c & !mask
}

/// Removes one leading space, if there is one.
pub fn strip_left_space(value: &[u8]) -> (r: &[u8])
    ensures
        r@ == spec_strip_left_space(value@),
{
    if value.len() > 0 && value[0] == 0x20 {
        &value[1..value.len()]
    } else {
        value
    }
}

fn chunked_comma_byte(i: usize) -> (b: u8)
    requires
        i < 8,
    ensures
        b == chunked_comma()[i as int],
{
    match i {
        0 => 0x43,
        1 => 0x48,
        2 => 0x55,
        3 => 0x4e,
        4 => 0x4b,
        5 => 0x45,
        6 => 0x44,
        _ => 0x2c,
    }
}

/// Whether `value` is the `chunked` token (any letter case), possibly followed
/// by a comma and more bytes.
pub fn is_chunked_val(value: &[u8]) -> (r: bool)
    ensures
        r == spec_is_chunked_val(value@),
{
    if value.len() >= 7 {
        let limit: usize = if value.len() < 8 {
            value.len()
        } else {
            8
        };
        let mut i: usize = 0;
        while i < limit
            invariant
                limit <= value@.len(),
                limit <= 8,
                limit == value@.len() || limit == 8,
                i <= limit,
                forall|k: int| 0 <= k < i ==> upper(#[trigger] value@[k]) == chunked_comma()[k],
            decreases limit - i,
        {
            if ascii_upper(value[i]) != chunked_comma_byte(i) {
                return false;
            }
            i += 1;
        }
        true
    } else {
        false
    }
}

proof fn lemma_piece_found(s: Seq<u8>, start: int, idx: int)
    requires
        0 <= start <= idx <= s.len(),
        start == 0 || s[start - 1] == 0x2cu8,
        idx == s.len() || s[idx] == 0x2cu8,
        forall|k: int| start <= k < idx ==> s[k] != 0x2cu8,
    ensures
        is_comma_piece(s, start, idx),
        forall|i: int, j: int|
            #![trigger is_comma_piece(s, i, j)]
            is_comma_piece(s, i, j) && start <= i <= idx ==> (i == start && j == idx) || (
            i == idx + 1),
{
    assert forall|i: int, j: int|
        #![trigger is_comma_piece(s, i, j)]
        is_comma_piece(s, i, j) && start <= i <= idx implies (i == start && j == idx) || (i == idx
        + 1) by {
        if i > start {
            assert(s[i - 1] == 0x2cu8);
            assert(false);
        }
        if j < idx {
            assert(s[j] == 0x2cu8);
        } else if j > idx {
            assert(s[idx] == 0x2cu8);
        }
    }
}

/// Whether a `Transfer-Encoding` header value lists the `chunked` coding:
/// the value is split at every comma and each piece, with one leading space
/// removed, is tested by [`is_chunked_val`].
pub fn is_chunked_transfer(value: &[u8]) -> (r: bool)
    ensures
        r == spec_is_chunked_transfer(value@),
{
    let ghost s = value@;
    let len = value.len();
    let mut start: usize = 0;
    let mut idx: usize = 0;
    while idx < len
        invariant
            len == s.len(),
            s == value@,
            start <= idx <= len,
            start == 0 || s[start - 1] == 0x2cu8,
            forall|k: int| start <= k < idx ==> s[k] != 0x2cu8,
            forall|i: int, j: int|
                #[trigger] is_comma_piece(s, i, j) && i < start ==> !spec_is_chunked_val(
                    spec_strip_left_space(s.subrange(i, j)),
                ),
        decreases len - idx,
    {
        if value[idx] == 0x2c {
            let piece = &value[start..idx];
            proof {
                lemma_piece_found(s, start as int, idx as int);
            }
            if is_chunked_val(strip_left_space(piece)) {
                return true;
            }
            start = idx + 1;
        }
        idx += 1;
    }
    let piece = &value[start..len];
    proof {
        lemma_piece_found(s, start as int, len as int);
    }
    let found = is_chunked_val(strip_left_space(piece));
    proof {
        if !found {
            assert forall|i: int, j: int| #[trigger]
                is_comma_piece(s, i, j) implies !spec_is_chunked_val(
                spec_strip_left_space(s.subrange(i, j)),
            ) by {
                if i >= start {
                    assert(i == start && j == len as int);
                }
            }
        }
    }
    found
}

/// Splits a header line at its first colon into the key and the value
/// (the colon itself belongs to neither); `None` when there is no colon.
pub fn split_key_value(line: &[u8]) -> (r: Option<(&[u8], &[u8])>)
    ensures
        match r {
            Some((key, value)) => {
                &&& is_first_index(line@, 0x3au8, key@.len() as int)
                &&& key@ == line@.take(key@.len() as int)
                &&& value@ == line@.skip(key@.len() as int + 1)
            },
            None => !line@.contains(0x3au8),
        },
{
    match find_byte(0x3a, line) {
        Some(colon_pos) => {
            let (key, value) = line.split_at(colon_pos);
            Some((key, &value[1..value.len()]))
        },
        None => None,
    }
}

/// Splits a path at its first slash into the part before it and the part
/// after it (the slash belongs to neither); without a slash the whole path
/// is the first part and the second is empty.
pub fn root_path(path: &[u8]) -> (r: (&[u8], &[u8]))
    ensures
        path@.contains(0x2fu8) ==> {
            &&& is_first_index(path@, 0x2fu8, r.0@.len() as int)
            &&& r.0@ == path@.take(r.0@.len() as int)
            &&& r.1@ == path@.skip(r.0@.len() as int + 1)
        },
        !path@.contains(0x2fu8) ==> r.0@ == path@ && r.1@.len() == 0,
{
    match find_byte(0x2f, path) {
        Some(slash_pos) => {
            let (left, right) = path.split_at(slash_pos);
            (left, &right[1..right.len()])
        },
        None => {
            let empty: &[u8] = &path[0..0];
            (path, empty)
        },
    }
}

/// Compares `left` with `right` after uppercasing `left`. `right` is meant
/// to be all uppercase already; the comparison is exact on its side.
pub fn case_insensitive_eq_left(left: &[u8], right: &[u8]) -> (r: bool)
    ensures
        r == (left@.len() == right@.len() && forall|i: int|
            0 <= i < left@.len() ==> upper(#[trigger] left@[i]) == right@[i]),
{
    let mut left_len = left.len();
    let right_len = right.len();

    if left_len == right_len {
        while left_len != 0
            invariant
                left_len <= left@.len(),
                left@.len() == right@.len(),
                forall|i: int|
                    left_len <= i < left@.len() ==> upper(#[trigger] left@[i]) == right@[i],
            decreases left_len,
        {
            left_len -= 1;
            if ascii_upper(left[left_len]) != right[left_len] {
                return false;
            }
        }
        true
    } else {
        false
    }
}

/// Finds the two spaces of a request line such as `GET /path HTTP/1.1`:
/// returns the length of the first part, the length of the middle part and
/// the length of the rest; `None` when there are fewer than two spaces.
pub fn split3_spaces(src: &[u8]) -> (r: Option<(usize, usize, usize)>)
    ensures
        match r {
            Some((first, mid, rest)) => {
                &&& is_first_index(src@, 0x20u8, first as int)
                &&& is_first_index(src@.skip(first as int + 1), 0x20u8, mid as int)
                &&& rest == src@.len() - first - mid - 2
            },
            None => !src@.contains(0x20u8) || exists|i: int|
                is_first_index(src@, 0x20u8, i) && !#[trigger] src@.skip(i + 1).contains(0x20u8),
        },
{
    let src_len = src.len();
    let space_pos = match find_byte(0x20, src) {
        Some(p) => p,
        None => return None,
    };
    let tail = &src[space_pos + 1..src_len];
    assert(tail@ == src@.skip(space_pos + 1));
    let mid_len = match find_byte(0x20, tail) {
        Some(m) => m,
        None => return None,
    };
    Some((space_pos, mid_len, src_len - space_pos - mid_len - 2))
}

// ---------------------------------------------------------------------------
// Numbers
// ---------------------------------------------------------------------------

proof fn lemma_dec_value_take_step(s: Seq<u8>, k: int)
    requires
        0 <= k < s.len(),
    ensures
        dec_value(s.take(k + 1)) == dec_value(s.take(k)) * 10 + dec_digit_value(s[k]),
{
    assert(s.take(k + 1).drop_last() == s.take(k));
}

proof fn lemma_pow10_positive(e: nat)
    ensures
        pow10(e) >= 1,
    decreases e,
{
    if e > 0 {
        lemma_pow10_positive((e - 1) as nat);
    }
}

proof fn lemma_leading_digits(s: Seq<u8>, m: int)
    requires
        0 <= m <= s.len(),
        forall|k: int| 0 <= k < m ==> is_dec_digit(#[trigger] s[k]),
    ensures
        m <= leading_dec_digits(s) <= s.len(),
        forall|k: int| 0 <= k < leading_dec_digits(s) ==> is_dec_digit(#[trigger] s[k]),
        leading_dec_digits(s) < s.len() ==> !is_dec_digit(s[leading_dec_digits(s) as int]),
    decreases s.len(),
{
    if s.len() > 0 {
        let t = s.drop_first();
        if is_dec_digit(s[0]) {
            let m2 = if m > 0 {
                m - 1
            } else {
                0
            };
            assert forall|k: int| 0 <= k < m2 implies is_dec_digit(#[trigger] t[k]) by {
                assert(t[k] == s[k + 1]);
            }
            lemma_leading_digits(t, m2);
            assert forall|k: int| 0 <= k < leading_dec_digits(s) implies is_dec_digit(
                #[trigger] s[k],
            ) by {
                if k > 0 {
                    assert(s[k] == t[k - 1]);
                }
            }
            if leading_dec_digits(s) < s.len() {
                assert(s[leading_dec_digits(s) as int] == t[leading_dec_digits(t) as int]);
            }
        }
    }
}

proof fn lemma_dec_value_prefix_mono(s: Seq<u8>, a: int, b: int)
    requires
        0 <= a <= b <= s.len(),
    ensures
        dec_value(s.take(a)) <= dec_value(s.take(b)),
    decreases b - a,
{
    if a < b {
        lemma_dec_value_prefix_mono(s, a, b - 1);
        lemma_dec_value_take_step(s, b - 1);
    }
}

/// Parses up to 20 decimal digits. `None` when `buffer` is longer than that or
/// holds a byte that is not a decimal digit; the empty buffer gives `Some(0)`.
///
/// Digits are accumulated in place order; an input whose leading digits,
/// weighted by their places, already exceed `u64::MAX` overflows that
/// accumulation and is left out by the precondition.
pub fn parse_number(buffer: &[u8]) -> (r: Option<u64>)
    requires
        buffer@.len() <= 20 ==> dec_partial_sum(buffer@) <= u64::MAX,
    ensures
        r == spec_parse_number(buffer@),
{
    let buf_len = buffer.len();
    if buf_len > 20 {
        return None;
    }
    let ghost s = buffer@;
    let ghost p = leading_dec_digits(s);
    proof {
        lemma_leading_digits(s, 0);
        lemma_pow10_positive((s.len() - p) as nat);
        assert(dec_value(s.take(p as int)) <= dec_partial_sum(s)) by (nonlinear_arith)
            requires
                dec_partial_sum(s) == dec_value(s.take(p as int)) * pow10((s.len() - p) as nat),
                pow10((s.len() - p) as nat) >= 1,
        ;
    }
    let mut output: u64 = 0;
    let mut idx: usize = 0;
    assert(s.take(0) =~= Seq::<u8>::empty());
    while idx < buf_len
        invariant
            buf_len == s.len(),
            s == buffer@,
            p == leading_dec_digits(s),
            p <= s.len(),
            forall|k: int| 0 <= k < p ==> is_dec_digit(#[trigger] s[k]),
            p < s.len() ==> !is_dec_digit(s[p as int]),
            dec_value(s.take(p as int)) <= u64::MAX,
            idx <= buf_len,
            forall|k: int| 0 <= k < idx ==> is_dec_digit(#[trigger] s[k]),
            output == dec_value(s.take(idx as int)),
        decreases buf_len - idx,
    {
        let c = buffer[idx];
        if !(0x30 <= c && c <= 0x39) {
            return None;
        }
        proof {
            lemma_leading_digits(s, idx + 1);
            lemma_dec_value_take_step(s, idx as int);
            lemma_dec_value_prefix_mono(s, idx + 1, p as int);
        }
        output = output * 10 + (c - 0x30) as u64;
        idx += 1;
    }
    assert(s.take(buf_len as int) =~= s);
    Some(output)
}

proof fn lemma_hex_value_take_step(s: Seq<u8>, k: int)
    requires
        0 <= k < s.len(),
    ensures
        hex_value(s.take(k + 1)) == hex_value(s.take(k)) * 16 + hex_digit_value(s[k]),
{
    assert(s.take(k + 1).drop_last() == s.take(k));
}

proof fn lemma_pow16_step(e: nat)
    ensures
        pow16(e + 1) == 16 * pow16(e),
{
}

/// Parses up to 8 hexadecimal digits (either letter case). `None` when
/// `buffer` is longer than that or holds a byte that is not a hexadecimal
/// digit; the empty buffer gives `Some(0)`.
pub fn parse_hex(buffer: &[u8]) -> (r: Option<u32>)
    ensures
        r == spec_parse_hex(buffer@),
{
    let buf_len = buffer.len();
    if buf_len > 8 {
        return None;
    }
    let ghost s = buffer@;
    let mut output: u32 = 0;
    let mut idx: usize = 0;
    assert(s.take(0) =~= Seq::<u8>::empty());
    proof {
        lemma_pow16_mono(0, 8);
        reveal_with_fuel(pow16, 9);
        assert(pow16(8) == 4294967296);
    }
    while idx < buf_len
        invariant
            buf_len == s.len(),
            buf_len <= 8,
            pow16(8) == 4294967296,
            s == buffer@,
            idx <= buf_len,
            forall|k: int| 0 <= k < idx ==> is_hex_digit(#[trigger] s[k]),
            output == hex_value(s.take(idx as int)),
            hex_value(s.take(idx as int)) < pow16(idx as nat),
            pow16(idx as nat) <= pow16(8),
        decreases buf_len - idx,
    {
        let c = buffer[idx];
        let d: u32 = if 0x30 <= c && c <= 0x39 {
            (c - 0x30) as u32
        } else if 0x41 <= c && c <= 0x46 {
            (c - 0x41 + 10) as u32
        } else if 0x61 <= c && c <= 0x66 {
            (c - 0x61 + 10) as u32
        } else {
            return None;
        };
        proof {
            lemma_hex_value_take_step(s, idx as int);
            lemma_pow16_step(idx as nat);
            let h = hex_value(s.take(idx as int));
            let pw = pow16(idx as nat);
            assert(h * 16 + d < pw * 16) by (nonlinear_arith)
                requires
                    h < pw,
                    d < 16,
            ;
            if idx + 1 <= 8 {
                lemma_pow16_mono((idx + 1) as nat, 8);
            }
        }
        output = output * 16 + d;
        idx += 1;
    }
    assert(s.take(buf_len as int) =~= s);
    Some(output)
}

proof fn lemma_pow16_mono(a: nat, b: nat)
    requires
        a <= b,
    ensures
        pow16(a) <= pow16(b),
    decreases b - a,
{
    if a < b {
        lemma_pow16_mono(a, (b - 1) as nat);
        assert(pow16(b) == 16 * pow16((b - 1) as nat));
    }
}


// ---------------------------------------------------------------------------
// Laws
// ---------------------------------------------------------------------------

/// Uppercasing is idempotent, and what it yields holds no lowercase letter.
pub proof fn lemma_upper_idempotent(c: u8)
    ensures
        upper(upper(c)) == upper(c),
        !(0x61 <= upper(c) <= 0x7a),
{
}

/// The comparison ignores the letter case of its left side: two left sides
/// that uppercase to the same bytes compare alike against any right side.
pub proof fn lemma_case_insensitive_left(l1: Seq<u8>, l2: Seq<u8>, right: Seq<u8>)
    requires
        l1.len() == l2.len(),
        forall|i: int| 0 <= i < l1.len() ==> upper(#[trigger] l1[i]) == upper(l2[i]),
    ensures
        (l1.len() == right.len() && forall|i: int|
            0 <= i < l1.len() ==> upper(#[trigger] l1[i]) == right[i]) == (l2.len() == right.len()
            && forall|i: int| 0 <= i < l2.len() ==> upper(#[trigger] l2[i]) == right[i]),
{
    if l1.len() == right.len() {
        if forall|i: int| 0 <= i < l1.len() ==> upper(#[trigger] l1[i]) == right[i] {
            assert forall|i: int| 0 <= i < l2.len() implies upper(#[trigger] l2[i]) == right[i] by {
                assert(upper(l1[i]) == right[i]);
            }
        }
        if forall|i: int| 0 <= i < l2.len() ==> upper(#[trigger] l2[i]) == right[i] {
            assert forall|i: int| 0 <= i < l1.len() implies upper(#[trigger] l1[i]) == right[i] by {
                assert(upper(l2[i]) == right[i]);
            }
        }
    }
}

/// Recognizing the `chunked` token ignores letter case.
pub proof fn lemma_chunked_val_case_insensitive(v1: Seq<u8>, v2: Seq<u8>)
    requires
        v1.len() == v2.len(),
        forall|i: int| 0 <= i < v1.len() ==> upper(#[trigger] v1[i]) == upper(v2[i]),
    ensures
        spec_is_chunked_val(v1) == spec_is_chunked_val(v2),
{
    if spec_is_chunked_val(v1) {
        assert forall|i: int| 0 <= i < v2.len() && i < 8 implies upper(#[trigger] v2[i])
            == chunked_comma()[i] by {
            assert(upper(v1[i]) == chunked_comma()[i]);
        }
    }
    if spec_is_chunked_val(v2) {
        assert forall|i: int| 0 <= i < v1.len() && i < 8 implies upper(#[trigger] v1[i])
            == chunked_comma()[i] by {
            assert(upper(v2[i]) == chunked_comma()[i]);
        }
    }
}

/// A header line that has a colon is its key, the colon and its value.
pub proof fn lemma_split_key_value_rejoins(line: Seq<u8>, key: Seq<u8>, value: Seq<u8>)
    requires
        is_first_index(line, 0x3au8, key.len() as int),
        key == line.take(key.len() as int),
        value == line.skip(key.len() as int + 1),
    ensures
        key + seq![0x3au8] + value == line,
        !key.contains(0x3au8),
{
    assert(key + seq![0x3au8] + value =~= line);
    if key.contains(0x3au8) {
        let j = choose|j: int| 0 <= j < key.len() && key[j] == 0x3au8;
        assert(line[j] == 0x3au8);
    }
}

/// A path that has a slash is its first part, the slash and the rest.
pub proof fn lemma_root_path_rejoins(path: Seq<u8>, left: Seq<u8>, right: Seq<u8>)
    requires
        is_first_index(path, 0x2fu8, left.len() as int),
        left == path.take(left.len() as int),
        right == path.skip(left.len() as int + 1),
    ensures
        left + seq![0x2fu8] + right == path,
        !left.contains(0x2fu8),
{
    assert(left + seq![0x2fu8] + right =~= path);
    if left.contains(0x2fu8) {
        let j = choose|j: int| 0 <= j < left.len() && left[j] == 0x2fu8;
        assert(path[j] == 0x2fu8);
    }
}

/// The three lengths found by `split3_spaces` and the two spaces make up the
/// whole line.
pub proof fn lemma_split3_spaces_covers(src: Seq<u8>, first: usize, mid: usize, rest: usize)
    requires
        is_first_index(src, 0x20u8, first as int),
        is_first_index(src.skip(first as int + 1), 0x20u8, mid as int),
        rest == src.len() - first - mid - 2,
    ensures
        first + 1 + mid + 1 + rest == src.len(),
        src[first as int] == 0x20u8,
        src[first + 1 + mid] == 0x20u8,
{
    assert(src.skip(first as int + 1)[mid as int] == src[first + 1 + mid]);
}


proof fn lemma_decimal_digits(n: nat)
    ensures
        all_dec_digits(decimal(n)),
        dec_value(decimal(n)) == n,
        decimal(n).len() >= 1,
    decreases n,
{
    if n >= 10 {
        lemma_decimal_digits(n / 10);
        let s = decimal(n);
        assert(s.drop_last() == decimal(n / 10));
        assert(s.last() == (0x30 + n % 10) as u8);
        assert(dec_digit_value(s.last()) == n % 10);
        assert(n == (n / 10) * 10 + n % 10);
        assert(s.len() > 0);
        assert(dec_value(s) == dec_value(s.drop_last()) * 10 + dec_digit_value(s.last()));
        assert forall|i: int| 0 <= i < s.len() implies is_dec_digit(#[trigger] s[i]) by {
            if i < s.len() - 1 {
                assert(s[i] == decimal(n / 10)[i]);
            }
        }
    } else {
        assert(decimal(n).drop_last() =~= Seq::<u8>::empty());
        assert(dec_digit_value(decimal(n).last()) == n);
        assert(dec_value(decimal(n)) == dec_value(decimal(n).drop_last()) * 10 + dec_digit_value(
            decimal(n).last(),
        ));
        assert(dec_value(Seq::<u8>::empty()) == 0);
    }
}

proof fn lemma_decimal_len(n: nat, k: nat)
    requires
        k >= 1,
        n < pow10(k),
    ensures
        decimal(n).len() <= k,
    decreases n,
{
    if n >= 10 {
        assert(pow10(k) == 10 * pow10((k - 1) as nat));
        if k == 1 {
            assert(pow10(0) == 1);
        } else {
            lemma_decimal_len(n / 10, (k - 1) as nat);
        }
    }
}

/// `parse_number` reads back every `u64` that `format_decimal` writes.
pub proof fn lemma_parse_number_reads_decimal(n: u64)
    ensures
        dec_partial_sum(decimal(n as nat)) <= u64::MAX,
        spec_parse_number(decimal(n as nat)) == Some(n),
{
    let s = decimal(n as nat);
    lemma_decimal_digits(n as nat);
    reveal_with_fuel(pow10, 21);
    assert(pow10(20) == 100000000000000000000nat);
    lemma_decimal_len(n as nat, 20);
    lemma_leading_digits(s, s.len() as int);
    let p = leading_dec_digits(s);
    assert(p == s.len());
    assert(s.take(p as int) == s);
    assert(pow10((s.len() - p) as nat) == 1);
    assert(dec_partial_sum(s) == dec_value(s) * 1);
}


/// Listing more codings after a value that has the `chunked` coding keeps
/// it chunked: the pieces of the value remain pieces of the longer list.
pub proof fn lemma_chunked_transfer_extends(a: Seq<u8>, b: Seq<u8>)
    requires
        spec_is_chunked_transfer(a),
    ensures
        spec_is_chunked_transfer(a + seq![0x2cu8] + b),
{
    let s = a + seq![0x2cu8] + b;
    let (i, j) = choose|i: int, j: int|
        #[trigger] is_comma_piece(a, i, j) && spec_is_chunked_val(
            spec_strip_left_space(a.subrange(i, j)),
        );
    assert forall|k: int| 0 <= k < a.len() implies #[trigger] s[k] == a[k] by {}
    assert(s[a.len() as int] == 0x2cu8);
    assert(s.subrange(i, j) =~= a.subrange(i, j));
    assert forall|k: int| i <= k < j implies s[k] != 0x2cu8 by {
        assert(s[k] == a[k]);
    }
    assert(is_comma_piece(s, i, j));
}


proof fn lemma_dec_value_bound(s: Seq<u8>)
    requires
        all_dec_digits(s),
    ensures
        dec_value(s) < pow10(s.len()),
    decreases s.len(),
{
    if s.len() > 0 {
        let t = s.drop_last();
        assert forall|k: int| 0 <= k < t.len() implies is_dec_digit(#[trigger] t[k]) by {
            assert(t[k] == s[k]);
        }
        lemma_dec_value_bound(t);
        assert(is_dec_digit(s[s.len() - 1]));
        assert(pow10(s.len()) == 10 * pow10(t.len()));
    }
}

proof fn lemma_pow10_add(a: nat, b: nat)
    ensures
        pow10(a) * pow10(b) == pow10(a + b),
    decreases a,
{
    if a > 0 {
        let a1 = (a - 1) as nat;
        lemma_pow10_add(a1, b);
        let x = pow10(a1);
        let y = pow10(b);
        assert(pow10(a) == 10 * x);
        assert(pow10(a + b) == 10 * pow10(a1 + b));
        assert((10 * x) * y == 10 * (x * y)) by (nonlinear_arith);
        assert(pow10(a) * y == (10 * x) * y);
    } else {
        assert(pow10(0) == 1);
        assert(1 * pow10(b) == pow10(b));
    }
}

proof fn lemma_pow10_mono(a: nat, b: nat)
    requires
        a <= b,
    ensures
        pow10(a) <= pow10(b),
    decreases b - a,
{
    if a < b {
        lemma_pow10_mono(a, (b - 1) as nat);
        assert(pow10(b) == 10 * pow10((b - 1) as nat));
    }
}

/// Buffers of at most 19 bytes never overflow the accumulation of
/// `parse_number`, whatever they hold.
pub proof fn lemma_short_buffers_fit(s: Seq<u8>)
    requires
        s.len() <= 19,
    ensures
        dec_partial_sum(s) <= u64::MAX,
{
    lemma_leading_digits(s, 0);
    let p = leading_dec_digits(s);
    let prefix = s.take(p as int);
    assert forall|k: int| 0 <= k < prefix.len() implies is_dec_digit(#[trigger] prefix[k]) by {
        assert(prefix[k] == s[k]);
    }
    lemma_dec_value_bound(prefix);
    let rest = (s.len() - p) as nat;
    lemma_pow10_add(p, rest);
    lemma_pow10_mono(p + rest, 19);
    lemma_pow10_positive(rest);
    reveal_with_fuel(pow10, 20);
    assert(pow10(19) == 10000000000000000000nat);
    assert(dec_value(prefix) * pow10(rest) < pow10(p) * pow10(rest)) by (nonlinear_arith)
        requires
            dec_value(prefix) < pow10(p),
            pow10(rest) >= 1,
    ;
}

} // verus!
