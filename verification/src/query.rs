//! Reading the session id out of a query string.
//!
//! A query is a run of fields separated by `&`. The session id is carried by
//! the first field that begins with `sid=`; its text runs from there to the
//! next `=` or to the end of the field, and is a decimal numeral of a 63-bit
//! non-negative integer.

use vstd::prelude::*;

verus! {

/// The byte `&`, which separates the fields of a query.
pub const AMP: u8 = 0x26;

/// The byte `=`, which separates a field's name from its value.
pub const EQ: u8 = 0x3d;

/// The byte `+`, the one sign a session id may carry.
pub const PLUS: u8 = 0x2b;

/// The byte `0`.
pub const ZERO: u8 = 0x30;

/// The byte `9`.
pub const NINE: u8 = 0x39;

/// Whether `b` is an ASCII decimal digit.
pub open spec fn is_digit(b: u8) -> bool {
    ZERO <= b <= NINE
}

/// Whether every byte of `s` is an ASCII decimal digit.
pub open spec fn all_digits(s: Seq<u8>) -> bool {
    forall|i: int| 0 <= i < s.len() ==> is_digit(#[trigger] s[i])
}

/// The number that the digits of `s` write in base ten.
pub open spec fn digits_value(s: Seq<u8>) -> nat
    decreases s.len(),
{
    if s.len() == 0 {
        0
    } else {
        (digits_value(s.drop_last()) * 10 + (s.last() - ZERO)) as nat
    }
}

/// The digits of a numeral: the text without its leading `+`, if it has one.
pub open spec fn unsigned_part(text: Seq<u8>) -> Seq<u8> {
    if text.len() > 0 && text[0] == PLUS {
        text.skip(1)
    } else {
        text
    }
}

/// The session id that `text` writes, if it writes one.
///
/// A session id is written as one or more decimal digits, with or without a
/// `+` before them, and its value is at most `i64::MAX`. A minus sign is never
/// part of it: a session id is not negative.
pub open spec fn decimal_sid(text: Seq<u8>) -> Option<i64> {
    let digits = unsigned_part(text);
    if digits.len() > 0 && all_digits(digits) && digits_value(digits) <= i64::MAX {
        Some(digits_value(digits) as i64)
    } else {
        None
    }
}

/// A numeral is worth at least as much as any of its prefixes.
pub proof fn lemma_digits_value_prefix(s: Seq<u8>, n: int)
    requires
        0 <= n <= s.len(),
        all_digits(s),
    ensures
        digits_value(s.take(n)) <= digits_value(s),
    decreases s.len() - n,
{
    if n == s.len() {
        assert(s.take(n) =~= s);
    } else {
        lemma_digits_value_prefix(s, n + 1);
        assert(s.take(n + 1).drop_last() =~= s.take(n));
        assert(is_digit(s[n]));
        assert(s.take(n + 1).last() == s[n]);
    }
}

/// Reads a session id from its decimal text.
pub fn parse_sid(text: &[u8]) -> (sid: Option<i64>)
    ensures
        sid == decimal_sid(text@),
        sid matches Some(id) ==> id >= 0,
{
    let n: usize = text.len();
    let start: usize = if n > 0 && text[0] == PLUS {
        1
    } else {
        0
    };
    let ghost digits: Seq<u8> = unsigned_part(text@);
    assert(digits =~= text@.skip(start as int));
    if start == n {
        return None;
    }
    let mut value: i64 = 0;
    let mut i: usize = start;
    while i < n
        invariant
            start <= i <= n,
            n == text@.len(),
            digits == text@.skip(start as int),
            digits == unsigned_part(text@),
            all_digits(digits.take(i - start)),
            value == digits_value(digits.take(i - start)),
        decreases n - i,
    {
        let b: u8 = text[i];
        let ghost before: Seq<u8> = digits.take(i - start);
        let ghost after: Seq<u8> = digits.take(i - start + 1);
        assert(after.drop_last() =~= before);
        assert(after.last() == b);
        if b < ZERO || b > NINE {
            assert(!is_digit(digits[i - start]));
            return None;
        }
        assert(all_digits(after)) by {
            assert forall|k: int| 0 <= k < after.len() implies is_digit(#[trigger] after[k]) by {
                if k < before.len() {
                    assert(after[k] == before[k]);
                }
            }
        }
        let d: i64 = (b - ZERO) as i64;
        if value > (i64::MAX - d) / 10 {
            proof {
                assert(digits_value(after) > i64::MAX);
                if all_digits(digits) {
                    lemma_digits_value_prefix(digits, i - start + 1);
                }
            }
            return None;
        }
        value = value * 10 + d;
        i = i + 1;
    }
    assert(digits.take(n - start) =~= digits);
    Some(value)
}

/// How many bytes stand at the front of `s` before its first `stop`: all of
/// them where `s` holds no `stop`.
pub open spec fn span(s: Seq<u8>, stop: u8) -> nat
    decreases s.len(),
{
    if s.len() == 0 || s[0] == stop {
        0
    } else {
        1 + span(s.skip(1), stop)
    }
}

/// Whether `field` begins with `sid=`.
pub open spec fn has_sid_key(field: Seq<u8>) -> bool {
    &&& field.len() >= 4
    &&& field[0] == 0x73
    &&& field[1] == 0x69
    &&& field[2] == 0x64
    &&& field[3] == EQ
}

/// The first of the `&`-separated fields of `query` that begins with `sid=`.
pub open spec fn sid_field(query: Seq<u8>) -> Option<Seq<u8>>
    decreases query.len(),
{
    let end = span(query, AMP);
    if has_sid_key(query.take(end as int)) {
        Some(query.take(end as int))
    } else if end >= query.len() {
        None
    } else {
        sid_field(query.skip(end as int + 1))
    }
}

/// The text of the session id in a field that begins with `sid=`: what stands
/// between the key and the next `=`, or the end of the field.
pub open spec fn sid_text(field: Seq<u8>) -> Seq<u8> {
    let rest = field.skip(4);
    rest.take(span(rest, EQ) as int)
}

/// The session id that `query` carries, if it carries one.
///
/// Only the first field that begins with `sid=` counts: where its text is no
/// session id, the query carries none, whatever a later field holds.
pub open spec fn sid_in_query(query: Seq<u8>) -> Option<i64> {
    match sid_field(query) {
        Some(field) => decimal_sid(sid_text(field)),
        None => None,
    }
}

/// `span` is the place of the first `stop`, or the length where there is none.
pub proof fn lemma_span_found(s: Seq<u8>, stop: u8, k: int)
    requires
        0 <= k <= s.len(),
        forall|j: int| 0 <= j < k ==> s[j] != stop,
        k == s.len() || s[k] == stop,
    ensures
        span(s, stop) == k,
    decreases k,
{
    if k > 0 {
        let rest = s.skip(1);
        assert forall|j: int| 0 <= j < k - 1 implies rest[j] != stop by {
            assert(rest[j] == s[j + 1]);
        }
        lemma_span_found(rest, stop, k - 1);
    }
}

/// Finds the first `stop` in `s[from..to]`, or `to` where there is none.
fn find_stop(s: &[u8], from: usize, to: usize, stop: u8) -> (end: usize)
    requires
        from <= to <= s@.len(),
    ensures
        from <= end <= to,
        end - from == span(s@.subrange(from as int, to as int), stop),
{
    let mut i: usize = from;
    while i < to && s[i] != stop
        invariant
            from <= i <= to <= s@.len(),
            forall|j: int| from <= j < i ==> s@[j] != stop,
        decreases to - i,
    {
        i = i + 1;
    }
    proof {
        lemma_span_found(s@.subrange(from as int, to as int), stop, i - from);
    }
    i
}

/// Reads the session id out of a query string.
///
/// Returns the id exactly when the first field that begins with `sid=` writes
/// one; a query without such a field, or with another text in it, gives `None`.
pub fn sid_from_query(query: &[u8]) -> (sid: Option<i64>)
    ensures
        sid == sid_in_query(query@),
        sid matches Some(id) ==> id >= 0,
{
    let n: usize = query.len();
    let mut start: usize = 0;
    assert(query@.skip(0) =~= query@);
    loop
        invariant
            start <= n,
            n == query@.len(),
            sid_field(query@) == sid_field(query@.skip(start as int)),
        decreases n - start,
    {
        let ghost rest: Seq<u8> = query@.skip(start as int);
        let end: usize = find_stop(query, start, n, AMP);
        assert(query@.subrange(start as int, n as int) =~= rest);
        let ghost field: Seq<u8> = rest.take(end - start);
        assert(field =~= query@.subrange(start as int, end as int));
        if end - start >= 4 && query[start] == 0x73 && query[start + 1] == 0x69 && query[start + 2]
            == 0x64 && query[start + 3] == EQ {
            assert(has_sid_key(field));
            let stop: usize = find_stop(query, start + 4, end, EQ);
            assert(query@.subrange(start + 4, end as int) =~= field.skip(4));
            let text: &[u8] = vstd::slice::slice_subrange(query, start + 4, stop);
            assert(text@ =~= sid_text(field));
            return parse_sid(text);
        }
        assert(!has_sid_key(field));
        if end == n {
            return None;
        }
        assert(rest.skip(end - start + 1) =~= query@.skip(end + 1));
        start = end + 1;
    }
}

} // verus!
