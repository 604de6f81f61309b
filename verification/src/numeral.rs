//! Numerals: how unsigned numbers are written as text and read back.
//!
//! Identifiers are written in lower-case hexadecimal, header values and ports
//! in decimal. Both directions are stated over sequences of characters, and the
//! laws at the end of the file tie writing and reading together.

use vstd::prelude::*;
use vstd::string::*;

verus! {

broadcast use vstd::string::group_string_axioms;

/// The character that writes the digit `d`: `'0'` to `'9'`, then `'a'` to `'f'`.
pub open spec fn digit_char(d: nat) -> char {
    if d < 10 {
        ('0' as int + d) as char
    } else {
        ('a' as int + d - 10) as char
    }
}

/// The numeral of `n` in the given radix, most significant digit first,
/// without sign and without leading zeros; zero is written `0`.
pub open spec fn radix_digits(n: nat, radix: nat) -> Seq<char>
    decreases n,
{
    if radix < 2 || n < radix {
        seq![digit_char(n)]
    } else {
        proof {
            lemma_quotient_smaller(n, radix);
        }
        radix_digits(n / radix, radix).push(digit_char(n % radix))
    }
}

/// The decimal numeral of `n`.
pub open spec fn decimal(n: nat) -> Seq<char> {
    radix_digits(n, 10)
}

/// The lower-case hexadecimal numeral of `n`.
pub open spec fn lower_hex(n: nat) -> Seq<char> {
    radix_digits(n, 16)
}

/// Whether `c` is one of `'0'` to `'9'`.
pub open spec fn is_decimal_digit(c: char) -> bool {
    '0' <= c <= '9'
}

/// The number that a decimal digit stands for.
pub open spec fn digit_value(c: char) -> nat {
    (c as int - '0' as int) as nat
}

/// Whether `c` is one of `'0'` to `'9'` or `'a'` to `'f'`.
pub open spec fn is_lower_hex_digit(c: char) -> bool {
    '0' <= c <= '9' || 'a' <= c <= 'f'
}

/// Whether `s` is a non-empty run of lower-case hexadecimal digits.
pub open spec fn is_lower_hex(s: Seq<char>) -> bool {
    &&& s.len() > 0
    &&& forall|i: int| 0 <= i < s.len() ==> is_lower_hex_digit(#[trigger] s[i])
}

/// Whether `s` is a non-empty run of decimal digits.
pub open spec fn is_decimal(s: Seq<char>) -> bool {
    &&& s.len() > 0
    &&& forall|i: int| 0 <= i < s.len() ==> is_decimal_digit(#[trigger] s[i])
}

/// The number that a run of decimal digits denotes; leading zeros do not count.
pub open spec fn decimal_value(s: Seq<char>) -> nat
    decreases s.len(),
{
    if s.len() == 0 {
        0
    } else {
        10 * decimal_value(s.drop_last()) + digit_value(s.last())
    }
}

/// The digits of an unsigned numeral: what is left once one leading `+` is taken off.
pub open spec fn unsigned_digits(s: Seq<char>) -> Seq<char> {
    if s.len() > 0 && s[0] == '+' {
        s.drop_first()
    } else {
        s
    }
}

/// What `s` denotes as an unsigned 64-bit number: an optional `+`, then one or
/// more decimal digits whose value fits. Anything else denotes nothing.
pub open spec fn unsigned_value(s: Seq<char>) -> Option<u64> {
    let digits = unsigned_digits(s);
    if is_decimal(digits) && decimal_value(digits) <= u64::MAX {
        Some(decimal_value(digits) as u64)
    } else {
        None
    }
}

/// Dividing by a radix of at least two makes a number that reaches the radix smaller.
pub proof fn lemma_quotient_smaller(n: nat, radix: nat)
    requires
        2 <= radix <= n,
    ensures
        n / radix < n,
{
    assert(n / radix < n) by (nonlinear_arith)
        requires
            2 <= radix <= n,
    ;
}

/// The one-character text of a digit.
fn digit_str(d: u64) -> (s: &'static str)
    requires
        d < 16,
    ensures
        s@ == seq![digit_char(d as nat)],
{
    proof {
        reveal_strlit("0");
        reveal_strlit("1");
        reveal_strlit("2");
        reveal_strlit("3");
        reveal_strlit("4");
        reveal_strlit("5");
        reveal_strlit("6");
        reveal_strlit("7");
        reveal_strlit("8");
        reveal_strlit("9");
        reveal_strlit("a");
        reveal_strlit("b");
        reveal_strlit("c");
        reveal_strlit("d");
        reveal_strlit("e");
        reveal_strlit("f");
    }
    match d {
        0 => "0",
        1 => "1",
        2 => "2",
        3 => "3",
        4 => "4",
        5 => "5",
        6 => "6",
        7 => "7",
        8 => "8",
        9 => "9",
        10 => "a",
        11 => "b",
        12 => "c",
        13 => "d",
        14 => "e",
        _ => "f",
    }
}

/// Appends the numeral of `n` in the given radix to `out`.
pub fn push_radix(out: &mut String, n: u64, radix: u64)
    requires
        2 <= radix <= 16,
    ensures
        final(out)@ == old(out)@ + radix_digits(n as nat, radix as nat),
    decreases n,
{
    if n >= radix {
        proof {
            lemma_quotient_smaller(n as nat, radix as nat);
        }
        push_radix(out, n / radix, radix);
        out.append(digit_str(n % radix));
    } else {
        out.append(digit_str(n));
    }
}

/// Appends the decimal numeral of `n` to `out`.
pub fn push_decimal(out: &mut String, n: u64)
    ensures
        final(out)@ == old(out)@ + decimal(n as nat),
{
    push_radix(out, n, 10);
}

/// The decimal numeral of `n` as a string.
pub fn format_decimal(n: u64) -> (text: String)
    ensures
        text@ == decimal(n as nat),
{
    let mut text = String::new();
    push_radix(&mut text, n, 10);
    text
}

/// The lower-case hexadecimal numeral of `n` as a string.
pub fn format_hex(n: u64) -> (text: String)
    ensures
        text@ == lower_hex(n as nat),
{
    let mut text = String::new();
    push_radix(&mut text, n, 16);
    text
}

/// Reads the span `from..to` of `text` as an unsigned numeral.
pub fn parse_unsigned(text: &Vec<char>, from: usize, to: usize) -> (value: Option<u64>)
    requires
        from <= to <= text.len(),
    ensures
        value == unsigned_value(text@.subrange(from as int, to as int)),
{
    let ghost span = text@.subrange(from as int, to as int);
    let mut i = from;
    if i < to && text[i] == '+' {
        i = i + 1;
    }
    let first = i;
    let ghost digits = text@.subrange(first as int, to as int);
    assert(digits == unsigned_digits(span));
    if i == to {
        return None;
    }
    let mut value: u64 = 0;
    while i < to
        invariant
            from <= first <= i <= to <= text.len(),
            digits == text@.subrange(first as int, to as int),
            digits == unsigned_digits(text@.subrange(from as int, to as int)),
            forall|j: int| 0 <= j < i - first ==> is_decimal_digit(#[trigger] digits[j]),
            value == decimal_value(digits.take(i - first)),
        decreases to - i,
    {
        let c = text[i];
        assert(c == digits[i - first]);
        if c < '0' || c > '9' {
            return None;
        }
        let d: u64 = (c as u64) - ('0' as u64);
        proof {
            let next = digits.take(i - first + 1);
            assert(next.drop_last() == digits.take(i - first));
            assert(next.last() == c);
            assert(decimal_value(next) == 10 * value + d);
            lemma_decimal_value_of_prefix(digits, i - first + 1);
        }
        let tenfold = match value.checked_mul(10) {
            Some(t) => t,
            None => {
                return None;
            },
        };
        value = match tenfold.checked_add(d) {
            Some(v) => v,
            None => {
                return None;
            },
        };
        i = i + 1;
    }
    assert(digits.take(i - first) == digits);
    Some(value)
}

/// Reading more digits never gives a smaller number.
pub proof fn lemma_decimal_value_of_prefix(s: Seq<char>, k: int)
    requires
        0 <= k <= s.len(),
    ensures
        decimal_value(s.take(k)) <= decimal_value(s),
    decreases s.len(),
{
    if k == s.len() {
        assert(s.take(k) == s);
    } else {
        assert(s.drop_last().take(k) == s.take(k));
        lemma_decimal_value_of_prefix(s.drop_last(), k);
    }
}

/// A decimal numeral is a non-empty run of decimal digits, and it denotes the
/// number it was written for.
pub proof fn lemma_decimal_is_decimal(n: nat)
    ensures
        is_decimal(decimal(n)),
        decimal_value(decimal(n)) == n,
    decreases n,
{
    if n < 10 {
        let s = decimal(n);
        assert(s.len() == 1);
        assert(s[0] == digit_char(n));
        assert(s.drop_last().len() == 0);
        assert(decimal_value(s.drop_last()) == 0);
    } else {
        lemma_quotient_smaller(n, 10);
        lemma_decimal_is_decimal(n / 10);
        let head = decimal(n / 10);
        let s = decimal(n);
        assert(s == head.push(digit_char(n % 10)));
        assert(s.drop_last() == head);
        assert(s.last() == digit_char(n % 10));
        assert forall|i: int| 0 <= i < s.len() implies is_decimal_digit(#[trigger] s[i]) by {
            if i < head.len() {
                assert(s[i] == head[i]);
            }
        }
    }
}

/// Writing a number in decimal and reading the text back gives the number.
pub proof fn lemma_decimal_round_trip(n: u64)
    ensures
        unsigned_value(decimal(n as nat)) == Some(n),
{
    lemma_decimal_is_decimal(n as nat);
    let s = decimal(n as nat);
    assert(is_decimal_digit(s[0]));
    assert(unsigned_digits(s) == s);
}

/// A hexadecimal numeral is a non-empty run of lower-case hexadecimal digits.
pub proof fn lemma_lower_hex_is_hex(n: nat)
    ensures
        is_lower_hex(lower_hex(n)),
    decreases n,
{
    if n < 16 {
        assert(lower_hex(n) == seq![digit_char(n)]);
    } else {
        lemma_quotient_smaller(n, 16);
        lemma_lower_hex_is_hex(n / 16);
        let head = lower_hex(n / 16);
        let s = lower_hex(n);
        assert(s == head.push(digit_char(n % 16)));
        assert forall|i: int| 0 <= i < s.len() implies is_lower_hex_digit(#[trigger] s[i]) by {
            if i < head.len() {
                assert(s[i] == head[i]);
            }
        }
    }
}

} // verus!
