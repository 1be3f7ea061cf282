//! The calls into `nom` and into parts of the standard library that carry
//! no specification of their own. Each contract here is taken on trust.

use vstd::prelude::*;
use vstd::utf8::{decode_utf8, valid_utf8};
use nom::types::CompleteByteSlice;

verus! {

/// The length of the longest prefix of `s` whose bytes all satisfy `p`.
pub open spec fn span(s: Seq<u8>, p: spec_fn(u8) -> bool) -> nat
    decreases s.len(),
{
    if s.len() > 0 && p(s[0]) {
        1 + span(s.drop_first(), p)
    } else {
        0
    }
}

/// An ASCII decimal digit.
pub open spec fn is_dec_digit(b: u8) -> bool {
    0x30 <= b <= 0x39
}

/// A space or a tab.
pub open spec fn is_blank(b: u8) -> bool {
    b == 0x20 || b == 0x09
}

/// A space, a tab, a carriage return or a line feed.
pub open spec fn is_white(b: u8) -> bool {
    b == 0x20 || b == 0x09 || b == 0x0d || b == 0x0a
}

/// The length of the run of decimal digits that `s` starts with.
pub open spec fn digit_run(s: Seq<u8>) -> nat {
    span(s, |b: u8| is_dec_digit(b))
}

/// The length of the run of spaces and tabs that `s` starts with.
pub open spec fn blank_run(s: Seq<u8>) -> nat {
    span(s, |b: u8| is_blank(b))
}

/// The length of the run of white space that `s` starts with.
pub open spec fn white_run(s: Seq<u8>) -> nat {
    span(s, |b: u8| is_white(b))
}

/// The length of the line ending that `s` starts with: 1 for a line feed,
/// 2 for a carriage return and a line feed, 0 where there is neither.
pub open spec fn eol_len(s: Seq<u8>) -> nat {
    if s.len() >= 1 && s[0] == 0x0a {
        1
    } else if s.len() >= 2 && s[0] == 0x0d && s[1] == 0x0a {
        2
    } else {
        0
    }
}

/// What `nom::double` makes of a complete input: the input that remains
/// after the floating point literal and the bit pattern of the number it
/// denotes, or nothing where the input starts with no such literal.
pub uninterp spec fn float_literal(input: Seq<u8>) -> Option<(Seq<u8>, u64)>;

/// Whether `char::is_alphabetic` holds of a character.
pub uninterp spec fn alphabetic(c: char) -> bool;

/// The text that `String::from_utf8_lossy` makes of a byte sequence.
pub uninterp spec fn lossy_text(bytes: Seq<u8>) -> Seq<char>;

/// `nom::digit` on complete input: splits off the longest prefix of ASCII
/// decimal digits and fails when that prefix is empty. Returns the rest and
/// the digits.
#[verifier::external_body]
pub(crate) fn nom_digit<'a>(input: &'a [u8]) -> (r: Option<(&'a [u8], &'a [u8])>)
    ensures
        match r {
            Some((rest, digits)) => digit_run(input@) > 0
                && digits@ == input@.subrange(0, digit_run(input@) as int)
                && rest@ == input@.subrange(digit_run(input@) as int, input@.len() as int),
            None => digit_run(input@) == 0,
        },
{
    match nom::digit(CompleteByteSlice(input)) {
        Ok((rest, digits)) => Some((rest.0, digits.0)),
        Err(_) => None,
    }
}

/// `nom::double` on complete input. The contract names the result: the same
/// input always gives the same rest and the same number. Of the rest it
/// says that it is what follows the literal in the input, and that the
/// literal is not empty.
#[verifier::external_body]
pub(crate) fn nom_double<'a>(input: &'a [u8]) -> (r: Option<(&'a [u8], u64)>)
    ensures
        match r {
            Some((rest, bits)) => float_literal(input@) == Some((rest@, bits))
                && rest@.len() < input@.len()
                && rest@ == input@.subrange(input@.len() - rest@.len(), input@.len() as int),
            None => float_literal(input@) is None,
        },
{
    match nom::double(CompleteByteSlice(input)) {
        Ok((rest, value)) => Some((rest.0, value.to_bits())),
        Err(_) => None,
    }
}

/// `nom::multispace0` on complete input: skips the longest prefix of
/// spaces, tabs, carriage returns and line feeds, which may be empty, and
/// never fails. Returns the rest.
#[verifier::external_body]
pub(crate) fn nom_multispace0<'a>(input: &'a [u8]) -> (r: Option<&'a [u8]>)
    ensures
        match r {
            Some(rest) => rest@ == input@.subrange(white_run(input@) as int, input@.len() as int),
            None => false,
        },
{
    match nom::multispace0(CompleteByteSlice(input)) {
        Ok((rest, _)) => Some(rest.0),
        Err(_) => None,
    }
}

/// `nom::space0` on complete input: skips the longest prefix of spaces and
/// tabs, which may be empty, and never fails. Returns the rest.
#[verifier::external_body]
pub(crate) fn nom_space0<'a>(input: &'a [u8]) -> (r: Option<&'a [u8]>)
    ensures
        match r {
            Some(rest) => rest@ == input@.subrange(blank_run(input@) as int, input@.len() as int),
            None => false,
        },
{
    match nom::space0(CompleteByteSlice(input)) {
        Ok((rest, _)) => Some(rest.0),
        Err(_) => None,
    }
}

/// `nom::space1` on complete input: skips the longest prefix of spaces and
/// tabs and fails when that prefix is empty. Returns the rest.
#[verifier::external_body]
pub(crate) fn nom_space1<'a>(input: &'a [u8]) -> (r: Option<&'a [u8]>)
    ensures
        match r {
            Some(rest) => blank_run(input@) > 0
                && rest@ == input@.subrange(blank_run(input@) as int, input@.len() as int),
            None => blank_run(input@) == 0,
        },
{
    match nom::space1(CompleteByteSlice(input)) {
        Ok((rest, _)) => Some(rest.0),
        Err(_) => None,
    }
}

/// `nom::space` on complete input, which is `nom::space1` under its older
/// name: skips the longest prefix of spaces and tabs and fails when that
/// prefix is empty. Returns the rest.
#[verifier::external_body]
pub(crate) fn nom_space<'a>(input: &'a [u8]) -> (r: Option<&'a [u8]>)
    ensures
        match r {
            Some(rest) => blank_run(input@) > 0
                && rest@ == input@.subrange(blank_run(input@) as int, input@.len() as int),
            None => blank_run(input@) == 0,
        },
{
    match nom::space(CompleteByteSlice(input)) {
        Ok((rest, _)) => Some(rest.0),
        Err(_) => None,
    }
}

/// `nom::eol` on complete input: skips one line feed, or one carriage
/// return followed by a line feed, and fails on anything else. Returns the
/// rest.
#[verifier::external_body]
pub(crate) fn nom_eol<'a>(input: &'a [u8]) -> (r: Option<&'a [u8]>)
    ensures
        match r {
            Some(rest) => eol_len(input@) > 0
                && rest@ == input@.subrange(eol_len(input@) as int, input@.len() as int),
            None => eol_len(input@) == 0,
        },
{
    match nom::eol(CompleteByteSlice(input)) {
        Ok((rest, _)) => Some(rest.0),
        Err(_) => None,
    }
}

/// `char::is_alphabetic`. The contract only names the result.
#[verifier::external_body]
pub(crate) fn char_is_alphabetic(c: char) -> (r: bool)
    ensures
        r == alphabetic(c),
{
    c.is_alphabetic()
}

/// `String::from_utf8`: succeeds exactly on well-formed UTF-8 and then
/// gives the text that the bytes encode.
#[verifier::external_body]
pub(crate) fn string_from_utf8(bytes: Vec<u8>) -> (r: Option<String>)
    ensures
        match r {
            Some(text) => valid_utf8(bytes@) && text@ == decode_utf8(bytes@),
            None => !valid_utf8(bytes@),
        },
{
    match String::from_utf8(bytes) {
        Ok(text) => Some(text),
        Err(_) => None,
    }
}

/// `String::from_utf8_lossy`: gives the text that the bytes encode where
/// they are well-formed UTF-8. For other bytes the contract only names the
/// result.
#[verifier::external_body]
pub(crate) fn string_from_utf8_lossy(bytes: &[u8]) -> (r: String)
    ensures
        r@ == lossy_text(bytes@),
        valid_utf8(bytes@) ==> r@ == decode_utf8(bytes@),
{
    String::from_utf8_lossy(bytes).into_owned()
}

} // verus!
