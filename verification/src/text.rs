//! Text helpers shared by the views.

use vstd::prelude::*;
use vstd::string::StringSliceAdditionalSpecFns;
use vstd::utf8::{
    decode_utf8, encode_utf8, encode_utf8_decode_utf8, encode_utf8_valid_utf8, is_char_boundary,
    is_char_boundary_iff_not_is_continuation_byte, valid_utf8_split,
};

verus! {

/// The character of a decimal digit.
pub open spec fn digit(d: nat) -> char
    recommends
        d < 10,
{
    if d == 0 {
        '0'
    } else if d == 1 {
        '1'
    } else if d == 2 {
        '2'
    } else if d == 3 {
        '3'
    } else if d == 4 {
        '4'
    } else if d == 5 {
        '5'
    } else if d == 6 {
        '6'
    } else if d == 7 {
        '7'
    } else if d == 8 {
        '8'
    } else {
        '9'
    }
}

/// The decimal numeral of `n`, without leading zeros.
pub open spec fn decimal(n: nat) -> Seq<char>
    decreases n,
{
    if n < 10 {
        seq![digit(n)]
    } else {
        decimal(n / 10).push(digit(n % 10))
    }
}

/// Calls `u64::to_string`, which writes the number in decimal.
#[verifier::external_body]
pub(crate) fn u64_to_string(n: u64) -> (s: String)
    ensures
        s@ == decimal(n as nat),
{
    n.to_string()
}

/// How an optional number is written out: `None`, or the number inside
/// `Some(..)`.
pub open spec fn option_text(value: Option<u64>) -> Seq<char> {
    match value {
        Some(n) => "Some("@ + decimal(n as nat) + ")"@,
        None => "None"@,
    }
}

/// Writes out an optional number; see [`option_text`].
pub fn option_to_string(value: Option<u64>) -> (text: String)
    ensures
        text@ == option_text(value),
{
    match value {
        Some(n) => String::from_str("Some(").concat(u64_to_string(n).as_str()).concat(")"),
        None => String::from_str("None"),
    }
}

/// The texts `parts`, with `separator` between each two of them.
pub open spec fn joined(parts: Seq<Seq<char>>, separator: Seq<char>) -> Seq<char>
    decreases parts.len(),
{
    if parts.len() == 0 {
        Seq::empty()
    } else if parts.len() == 1 {
        parts[0]
    } else {
        joined(parts.drop_last(), separator) + separator + parts.last()
    }
}

/// Tests whether `text` starts with `prefix`.
pub fn starts_with(text: &str, prefix: &str) -> (found: bool)
    ensures
        found == prefix@.is_prefix_of(text@),
{
    let wanted = prefix.unicode_len();
    if text.unicode_len() < wanted {
        return false;
    }
    let mut i: usize = 0;
    while i < wanted
        invariant
            i <= wanted,
            wanted == prefix@.len(),
            wanted <= text@.len(),
            forall|j: int| 0 <= j < i ==> text@[j] == prefix@[j],
        decreases wanted - i,
    {
        if text.get_char(i) != prefix.get_char(i) {
            assert(text@.subrange(0, wanted as int)[i as int] != prefix@[i as int]);
            return false;
        }
        i += 1;
    }
    assert(prefix@ =~= text@.subrange(0, wanted as int));
    true
}

/// The characters that the bytes `from..to` of the UTF-8 encoding of `text`
/// spell.
pub open spec fn byte_range(text: Seq<char>, from: int, to: int) -> Seq<char>
    recommends
        can_cut(text, from, to),
{
    decode_utf8(encode_utf8(text).subrange(from, to))
}

/// Whether the bytes `from..to` of the UTF-8 encoding of `text` can be cut
/// out: the range lies within the encoding, and it neither starts nor ends
/// in the middle of a character.
pub open spec fn can_cut(text: Seq<char>, from: int, to: int) -> bool {
    &&& 0 <= from <= to <= encode_utf8(text).len()
    &&& is_char_boundary(encode_utf8(text), from)
    &&& is_char_boundary(encode_utf8(text), to)
}

/// Tests [`can_cut`].
pub fn is_cut(text: &str, from: usize, to: usize) -> (possible: bool)
    ensures
        possible == can_cut(text@, from as int, to as int),
{
    proof {
        encode_utf8_valid_utf8(text@);
    }
    from <= to && text.is_char_boundary(from) && text.is_char_boundary(to)
}

/// Cuts the bytes `from..to` out of `text`; see [`byte_range`].
pub fn cut(text: &str, from: usize, to: usize) -> (part: &str)
    requires
        can_cut(text@, from as int, to as int),
    ensures
        part@ == byte_range(text@, from as int, to as int),
{
    let ghost bytes = encode_utf8(text@);
    proof {
        encode_utf8_valid_utf8(text@);
    }
    let (head, _tail) = text.split_at(to);
    proof {
        valid_utf8_split(bytes, to as int);
        assert(head.spec_bytes() == bytes.subrange(0, to as int));
        if from < to {
            is_char_boundary_iff_not_is_continuation_byte(bytes, from as int);
            is_char_boundary_iff_not_is_continuation_byte(head.spec_bytes(), from as int);
        } else {
            vstd::utf8::is_char_boundary_start_end_of_seq(head.spec_bytes());
        }
    }
    let (_skipped, part) = head.split_at(from);
    proof {
        assert(part.spec_bytes() =~= bytes.subrange(from as int, to as int));
        encode_utf8_decode_utf8(part@);
    }
    part
}

} // verus!
