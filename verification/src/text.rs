//! Text as sequences of characters: the few operations on strings that the
//! parsers and tables of this library are built from.

use vstd::prelude::*;

verus! {

broadcast use vstd::string::group_string_axioms;

/// The lower-case form of an ASCII capital; any other character is itself.
pub open spec fn ascii_lower(c: char) -> char {
    if 'A' <= c <= 'Z' {
        (c as int + ('a' as int - 'A' as int)) as char
    } else {
        c
    }
}

/// `s` with each ASCII capital in lower case.
pub open spec fn ascii_lowercase(s: Seq<char>) -> Seq<char> {
    Seq::new(s.len(), |i: int| ascii_lower(s[i]))
}

/// The text of an optional string slice.
pub open spec fn text_of(s: Option<&str>) -> Option<Seq<char>> {
    match s {
        Some(s) => Some(s@),
        None => None,
    }
}

/// The text of an optional string.
pub open spec fn owned_text_of(s: Option<String>) -> Option<Seq<char>> {
    match s {
        Some(s) => Some(s@),
        None => None,
    }
}

/// The characters of `s`, one element each.
pub fn chars_of(s: &str) -> (chars: Vec<char>)
    ensures
        chars@ == s@,
{
    let mut chars: Vec<char> = Vec::new();
    for c in it: s.chars()
        invariant
            it.seq() == s@,
            chars@ == s@.take(it.index()),
    {
        chars.push(c);
    }
    chars
}

/// The lower-case form of one character.
pub fn lower_char(c: char) -> (lower: char)
    ensures
        lower == ascii_lower(c),
{
    if c >= 'A' && c <= 'Z' {
        ((c as u8) + ('a' as u8 - 'A' as u8)) as char
    } else {
        c
    }
}

/// The characters of `s`, ASCII capitals in lower case.
pub fn lower_chars_of(s: &str) -> (chars: Vec<char>)
    ensures
        chars@ == ascii_lowercase(s@),
{
    let mut chars: Vec<char> = Vec::new();
    for c in it: s.chars()
        invariant
            it.seq() == s@,
            chars@ == ascii_lowercase(s@.take(it.index())),
    {
        proof {
            let k = it.index();
            assert(ascii_lowercase(s@.take(k)).push(ascii_lower(c)) == ascii_lowercase(
                s@.take(k + 1),
            ));
        }
        chars.push(lower_char(c));
    }
    assert(s@.take(s@.len() as int) == s@);
    chars
}

/// Whether `chars` spells exactly `text`.
pub fn spells(chars: &Vec<char>, text: &str) -> (same: bool)
    ensures
        same == (chars@ == text@),
{
    let mut i: usize = 0;
    for c in it: text.chars()
        invariant
            it.seq() == text@,
            i == it.index(),
            i <= chars.len(),
            chars@.take(i as int) == text@.take(i as int),
    {
        if i >= chars.len() || chars[i] != c {
            proof {
                if chars@ == text@ {
                    assert(chars@[i as int] == text@[i as int]);
                }
            }
            return false;
        }
        assert(chars@.take(i + 1) == chars@.take(i as int).push(chars@[i as int]));
        assert(text@.take(i + 1) == text@.take(i as int).push(text@[i as int]));
        i = i + 1;
    }
    assert(text@.take(i as int) == text@);
    proof {
        if i == chars.len() {
            assert(chars@.take(i as int) == chars@);
        }
    }
    i == chars.len()
}

/// Whether `chars` begins with `text`.
pub fn starts_with(chars: &Vec<char>, text: &str) -> (begins: bool)
    ensures
        begins == text@.is_prefix_of(chars@),
{
    let mut i: usize = 0;
    for c in it: text.chars()
        invariant
            it.seq() == text@,
            i == it.index(),
            i <= chars.len(),
            chars@.take(i as int) == text@.take(i as int),
    {
        if i >= chars.len() || chars[i] != c {
            proof {
                if text@.is_prefix_of(chars@) {
                    assert(chars@.subrange(0, text@.len() as int)[i as int] == text@[i as int]);
                }
            }
            return false;
        }
        assert(chars@.take(i + 1) == chars@.take(i as int).push(chars@[i as int]));
        assert(text@.take(i + 1) == text@.take(i as int).push(text@[i as int]));
        i = i + 1;
    }
    assert(text@.take(i as int) == text@);
    true
}

} // verus!
