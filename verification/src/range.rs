//! Byte ranges: reading the value of a `Range` header against the length of
//! the file it asks for.
//!
//! The one accepted form is the unit `bytes=`, a start numeral, a dash and an
//! end numeral; the end may be left out and then means the last byte of the
//! file. Lists of ranges, suffix ranges and anything else are no range at all,
//! and the caller serves the whole file.

use crate::numeral::{
    decimal, is_decimal_digit, lemma_decimal_is_decimal, lemma_decimal_round_trip,
    parse_unsigned, unsigned_value,
};
use crate::text::{chars_of, starts_with};
use vstd::prelude::*;

verus! {

/// The unit that a byte range begins with.
pub open spec fn range_unit() -> Seq<char> {
    "bytes="@
}

/// The end that a range text names: the last byte of the file where the text
/// is empty, else what the text denotes as a number.
pub open spec fn range_end(end_text: Seq<char>, file_size: u64) -> Option<u64> {
    if end_text.len() == 0 {
        if file_size > 0 {
            Some((file_size - 1) as u64)
        } else {
            None
        }
    } else {
        unsigned_value(end_text)
    }
}

/// The inclusive span of bytes that the header value `header` asks for in a
/// file of `file_size` bytes.
///
/// The value must be the unit, a start numeral, a dash and an end text, split
/// at the first dash behind the unit; both numbers must be readable, and
/// `start <= end < file_size` must hold.
pub open spec fn spec_parse_range(header: Seq<char>, file_size: u64) -> Option<(u64, u64)> {
    if range_unit().is_prefix_of(header) {
        let span = header.skip(range_unit().len() as int);
        match span.index_of_first('-') {
            Some(dash) => match (
                unsigned_value(span.take(dash)),
                range_end(span.skip(dash + 1), file_size),
            ) {
                (Some(start), Some(end)) => if start <= end && end < file_size {
                    Some((start, end))
                } else {
                    None
                },
                _ => None,
            },
            None => None,
        }
    } else {
        None
    }
}

/// The header value that asks for the bytes `start` to `end`, both included.
pub open spec fn closed_range_text(start: u64, end: u64) -> Seq<char> {
    range_unit() + decimal(start as nat) + seq!['-'] + decimal(end as nat)
}

/// The header value that asks for all bytes from `start` on.
pub open spec fn open_range_text(start: u64) -> Seq<char> {
    range_unit() + decimal(start as nat) + seq!['-']
}

/// Reads the value of a `Range` header for a file of `file_size` bytes.
///
/// Returns the inclusive span that the value asks for, or `None` where the
/// value has another form or the span does not lie within the file.
pub fn parse_range(range_str: &str, file_size: u64) -> (range: Option<(u64, u64)>)
    ensures
        range == spec_parse_range(range_str@, file_size),
        range matches Some((start, end)) ==> start <= end < file_size,
{
    let text = chars_of(range_str);
    if !starts_with(&text, "bytes=") {
        return None;
    }
    proof {
        reveal_strlit("bytes=");
    }
    let ghost span = text@.skip(6);
    let mut dash: usize = 6;
    while dash < text.len() && text[dash] != '-'
        invariant
            6 <= dash <= text.len(),
            span == text@.skip(6),
            forall|j: int| 0 <= j < dash - 6 ==> span[j] != '-',
        decreases text.len() - dash,
    {
        dash = dash + 1;
    }
    proof {
        span.index_of_first_ensures('-');
        if dash < text.len() {
            assert(span[dash - 6] == '-');
            assert(span.index_of_first('-') == Some(dash - 6));
            assert(span.take(dash - 6) == text@.subrange(6, dash as int));
            assert(span.skip(dash - 6 + 1) == text@.subrange(dash + 1, text.len() as int));
        }
    }
    if dash == text.len() {
        return None;
    }
    let start = match parse_unsigned(&text, 6, dash) {
        Some(start) => start,
        None => {
            return None;
        },
    };
    let end = if dash + 1 == text.len() {
        if file_size == 0 {
            return None;
        }
        file_size - 1
    } else {
        match parse_unsigned(&text, dash + 1, text.len()) {
            Some(end) => end,
            None => {
                return None;
            },
        }
    };
    if start <= end && end < file_size {
        Some((start, end))
    } else {
        None
    }
}

/// A decimal numeral followed by a dash splits at that dash: the numeral
/// itself holds none.
proof fn lemma_split_at_dash(n: u64, rest: Seq<char>)
    ensures
        ({
            let span = decimal(n as nat) + seq!['-'] + rest;
            let dash = decimal(n as nat).len() as int;
            &&& span.index_of_first('-') == Some(dash)
            &&& span.take(dash) == decimal(n as nat)
            &&& span.skip(dash + 1) == rest
        }),
{
    let digits = decimal(n as nat);
    let span = digits + seq!['-'] + rest;
    let dash = digits.len() as int;
    lemma_decimal_is_decimal(n as nat);
    span.index_of_first_ensures('-');
    assert(span[dash] == '-');
    assert forall|j: int| 0 <= j < dash implies span[j] != '-' by {
        assert(span[j] == digits[j]);
        assert(is_decimal_digit(digits[j]));
    }
    assert(span.take(dash) == digits);
    assert(span.skip(dash + 1) == rest);
}

/// A header that names a span within the file is read as that span.
pub proof fn lemma_closed_range_parses(start: u64, end: u64, file_size: u64)
    requires
        start <= end < file_size,
    ensures
        spec_parse_range(closed_range_text(start, end), file_size) == Some((start, end)),
{
    reveal_strlit("bytes=");
    let header = closed_range_text(start, end);
    let rest = decimal(end as nat);
    let span = decimal(start as nat) + seq!['-'] + rest;
    assert(header.subrange(0, 6) == range_unit());
    assert(header.skip(6) == span);
    lemma_split_at_dash(start, rest);
    lemma_decimal_round_trip(start);
    lemma_decimal_round_trip(end);
    lemma_decimal_is_decimal(end as nat);
}

/// A header that leaves the end out is read as the span from its start to the
/// last byte of the file.
pub proof fn lemma_open_range_parses(start: u64, file_size: u64)
    requires
        start < file_size,
    ensures
        spec_parse_range(open_range_text(start), file_size) == Some(
            (start, (file_size - 1) as u64),
        ),
{
    reveal_strlit("bytes=");
    let header = open_range_text(start);
    let rest = Seq::<char>::empty();
    let span = decimal(start as nat) + seq!['-'] + rest;
    assert(header.subrange(0, 6) == range_unit());
    assert(header.skip(6) == span);
    lemma_split_at_dash(start, rest);
    lemma_decimal_round_trip(start);
}

/// A header whose span does not lie within the file is no range: neither an
/// end at or behind the length of the file nor a start behind the end is read.
pub proof fn lemma_range_outside_file_is_none(start: u64, end: u64, file_size: u64)
    requires
        end >= file_size || start > end,
    ensures
        spec_parse_range(closed_range_text(start, end), file_size) is None,
{
    reveal_strlit("bytes=");
    let header = closed_range_text(start, end);
    let rest = decimal(end as nat);
    let span = decimal(start as nat) + seq!['-'] + rest;
    assert(header.subrange(0, 6) == range_unit());
    assert(header.skip(6) == span);
    lemma_split_at_dash(start, rest);
    lemma_decimal_round_trip(start);
    lemma_decimal_round_trip(end);
    lemma_decimal_is_decimal(end as nat);
}

/// Whatever the header, a span that is read lies within the file, and an empty
/// file has no span.
pub proof fn lemma_parsed_range_within_file(header: Seq<char>, file_size: u64)
    ensures
        spec_parse_range(header, file_size) matches Some((start, end)) ==> start <= end
            < file_size,
        file_size == 0 ==> spec_parse_range(header, file_size) is None,
{
}

} // verus!
