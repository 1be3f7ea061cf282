//! The lexical core: delimiters, keywords, white space, identifiers, quoted
//! strings and numeric literals. Each recogniser takes the input that is
//! left and returns what it leaves and the token's value; none skips white
//! space of its own accord.

use vstd::prelude::*;
use vstd::slice::{slice_subrange, slice_to_vec};
use vstd::string::StringSliceAdditionalSpecFns;
use vstd::utf8::{decode_utf8, valid_utf8};
use crate::error::{
    fail, lemma_tail_from, lemma_tail_of_tail, lemma_tail_whole, outcome, tail_of, within,
    ErrorKind, ParseError, Parsed,
};
use crate::rule::{
    lemma_separated_nonempty_list_within, separated_nonempty_list, separated_nonempty_list_of, then,
    Rule,
};
use crate::trusted::{
    alphabetic, blank_run, char_is_alphabetic, digit_run, eol_len, float_literal, is_dec_digit,
    lossy_text, nom_digit, nom_double, nom_eol, nom_multispace0, nom_space, nom_space0, nom_space1,
    span, string_from_utf8, string_from_utf8_lossy, white_run,
};

verus! {

/// The space that separates the fields of a line.
pub const SPACE: u8 = 0x20;

/// `:`
pub const COLON: u8 = 0x3a;

/// `,`
pub const COMMA: u8 = 0x2c;

/// `;`
pub const SEMI_COLON: u8 = 0x3b;

/// `"`
pub const QUOTE: u8 = 0x22;

/// `|`
pub const PIPE: u8 = 0x7c;

/// `@`
pub const AT: u8 = 0x40;

/// `(`
pub const BRC_OPEN: u8 = 0x28;

/// `)`
pub const BRC_CLOSE: u8 = 0x29;

/// `[`
pub const BRK_OPEN: u8 = 0x5b;

/// `]`
pub const BRK_CLOSE: u8 = 0x5d;

/// `+`
pub const PLUS: u8 = 0x2b;

/// `-`
pub const MINUS: u8 = 0x2d;

/// A double-precision floating point number, held as its IEEE 754 bit
/// pattern.
#[derive(Copy, Clone, Debug, PartialEq)]
pub struct Double(pub u64);

impl DeepView for Double {
    type V = Double;

    open spec fn deep_view(&self) -> Double {
        *self
    }
}

impl Double {
    /// The bit pattern of the number.
    pub fn to_bits(&self) -> (r: u64)
        ensures
            r == self.0,
    {
        self.0
    }
}

/// The part of `s` from index `n` on.
pub open spec fn after(s: Seq<u8>, n: nat) -> Seq<u8> {
    s.subrange(n as int, s.len() as int)
}

/// A keyword: `word` must stand at the start of `s`. Input that ends inside
/// the keyword fails as `Eof`, any other mismatch as `Tag`.
pub open spec fn tag_of(s: Seq<u8>, word: &str) -> Parsed<()> {
    let w = word.spec_bytes();
    if w.is_prefix_of(s) {
        Ok((after(s, w.len()), ()))
    } else if s.is_prefix_of(w) {
        fail(s, ErrorKind::Eof)
    } else {
        fail(s, ErrorKind::Tag)
    }
}

/// The bytes of a keyword written in ASCII are the codes of its characters.
pub proof fn lemma_tag_bytes(word: &str)
    requires
        vstd::string::is_ascii(word),
    ensures
        word.spec_bytes().len() == word@.len(),
        forall|k: int| 0 <= k < word@.len() ==> #[trigger] word.spec_bytes()[k] == word@[k] as u8,
{
    vstd::string::is_ascii_spec_bytes(word);
}

/// Recognises the keyword `word`.
pub fn tag<'a>(input: &'a [u8], word: &str) -> (r: Result<(&'a [u8], ()), ParseError<'a>>)
    ensures
        outcome(r) == tag_of(input@, word),
{
    let w = word.as_bytes();
    let mut i: usize = 0;
    while i < w.len() && i < input.len()
        invariant
            i <= w@.len(),
            i <= input@.len(),
            w@ == word.spec_bytes(),
            forall|k: int| 0 <= k < i ==> input@[k] == w@[k],
        decreases w@.len() - i,
    {
        if input[i] != w[i] {
            return Err(ParseError { input, kind: ErrorKind::Tag });
        }
        i += 1;
    }
    if i == w.len() {
        assert(w@ =~= input@.subrange(0, w@.len() as int));
        Ok((slice_subrange(input, i, input.len()), ()))
    } else {
        assert(input@ =~= w@.subrange(0, input@.len() as int));
        Err(ParseError { input, kind: ErrorKind::Eof })
    }
}

/// A single delimiter: the byte `c` must stand at the start of `s`. Empty
/// input fails as `Eof`, another byte as `Char`.
pub open spec fn char_of(s: Seq<u8>, c: u8) -> Parsed<char> {
    if s.len() == 0 {
        fail(s, ErrorKind::Eof)
    } else if s[0] == c {
        Ok((after(s, 1), c as char))
    } else {
        fail(s, ErrorKind::Char)
    }
}

/// Recognises the delimiter `c`.
pub fn delimiter<'a>(input: &'a [u8], c: u8) -> (r: Result<(&'a [u8], char), ParseError<'a>>)
    ensures
        outcome(r) == char_of(input@, c),
{
    if input.len() == 0 {
        Err(ParseError { input, kind: ErrorKind::Eof })
    } else if input[0] == c {
        Ok((slice_subrange(input, 1, input.len()), c as char))
    } else {
        Err(ParseError { input, kind: ErrorKind::Char })
    }
}

/// The delimiter `c` after what `prev` matched.
pub open spec fn skip<A>(prev: Parsed<A>, c: u8) -> Parsed<char> {
    then(prev, |i: Seq<u8>| char_of(i, c))
}

/// The keyword `word` after what `prev` matched.
pub open spec fn word<A>(prev: Parsed<A>, word: &str) -> Parsed<()> {
    then(prev, |i: Seq<u8>| tag_of(i, word))
}

/// Every byte inside a run satisfies the predicate, and the byte after the
/// run, if there is one, does not.
pub proof fn lemma_span(s: Seq<u8>, p: spec_fn(u8) -> bool)
    ensures
        span(s, p) <= s.len(),
        forall|k: int| 0 <= k < span(s, p) ==> p(#[trigger] s[k]),
        span(s, p) < s.len() ==> !p(s[span(s, p) as int]),
    decreases s.len(),
{
    if s.len() > 0 && p(s[0]) {
        lemma_span(s.drop_first(), p);
        assert forall|k: int| 0 <= k < span(s, p) implies p(#[trigger] s[k]) by {
            if k > 0 {
                assert(s[k] == s.drop_first()[k - 1]);
            }
        }
    }
}

/// A prefix of `n` bytes that satisfy the predicate, followed by the end of
/// the input or by a byte that does not, is the run.
pub proof fn lemma_span_is(s: Seq<u8>, p: spec_fn(u8) -> bool, n: nat)
    requires
        n <= s.len(),
        forall|k: int| 0 <= k < n ==> p(#[trigger] s[k]),
        n < s.len() ==> !p(s[n as int]),
    ensures
        span(s, p) == n,
    decreases n,
{
    if n > 0 {
        assert(p(s[0]));
        assert forall|k: int| 0 <= k < n - 1 implies p(#[trigger] s.drop_first()[k]) by {
            assert(s.drop_first()[k] == s[k + 1]);
        }
        lemma_span_is(s.drop_first(), p, (n - 1) as nat);
    }
}

/// A single space.
pub fn ss<'a>(input: &'a [u8]) -> (r: Result<(&'a [u8], char), ParseError<'a>>)
    ensures
        outcome(r) == char_of(input@, SPACE),
{
    delimiter(input, SPACE)
}

/// A colon.
pub fn colon<'a>(input: &'a [u8]) -> (r: Result<(&'a [u8], char), ParseError<'a>>)
    ensures
        outcome(r) == char_of(input@, COLON),
{
    delimiter(input, COLON)
}

/// A comma.
pub fn comma<'a>(input: &'a [u8]) -> (r: Result<(&'a [u8], char), ParseError<'a>>)
    ensures
        outcome(r) == char_of(input@, COMMA),
{
    delimiter(input, COMMA)
}

/// A semicolon.
pub fn semi_colon<'a>(input: &'a [u8]) -> (r: Result<(&'a [u8], char), ParseError<'a>>)
    ensures
        outcome(r) == char_of(input@, SEMI_COLON),
{
    delimiter(input, SEMI_COLON)
}

/// A double quote.
pub fn quote<'a>(input: &'a [u8]) -> (r: Result<(&'a [u8], char), ParseError<'a>>)
    ensures
        outcome(r) == char_of(input@, QUOTE),
{
    delimiter(input, QUOTE)
}

/// A vertical bar.
pub fn pipe<'a>(input: &'a [u8]) -> (r: Result<(&'a [u8], char), ParseError<'a>>)
    ensures
        outcome(r) == char_of(input@, PIPE),
{
    delimiter(input, PIPE)
}

/// An at sign.
pub fn at<'a>(input: &'a [u8]) -> (r: Result<(&'a [u8], char), ParseError<'a>>)
    ensures
        outcome(r) == char_of(input@, AT),
{
    delimiter(input, AT)
}

/// An opening parenthesis.
pub fn brc_open<'a>(input: &'a [u8]) -> (r: Result<(&'a [u8], char), ParseError<'a>>)
    ensures
        outcome(r) == char_of(input@, BRC_OPEN),
{
    delimiter(input, BRC_OPEN)
}

/// A closing parenthesis.
pub fn brc_close<'a>(input: &'a [u8]) -> (r: Result<(&'a [u8], char), ParseError<'a>>)
    ensures
        outcome(r) == char_of(input@, BRC_CLOSE),
{
    delimiter(input, BRC_CLOSE)
}

/// An opening square bracket.
pub fn brk_open<'a>(input: &'a [u8]) -> (r: Result<(&'a [u8], char), ParseError<'a>>)
    ensures
        outcome(r) == char_of(input@, BRK_OPEN),
{
    delimiter(input, BRK_OPEN)
}

/// A closing square bracket.
pub fn brk_close<'a>(input: &'a [u8]) -> (r: Result<(&'a [u8], char), ParseError<'a>>)
    ensures
        outcome(r) == char_of(input@, BRK_CLOSE),
{
    delimiter(input, BRK_CLOSE)
}

/// White space that may be absent: the spaces, tabs, carriage returns and
/// line feeds at the start of `s` are skipped. Never fails.
pub open spec fn multispace0_of(s: Seq<u8>) -> Parsed<()> {
    Ok((after(s, white_run(s)), ()))
}

/// Skips white space, if there is any.
pub fn multispace0<'a>(input: &'a [u8]) -> (r: Result<(&'a [u8], ()), ParseError<'a>>)
    ensures
        outcome(r) == multispace0_of(input@),
{
    match nom_multispace0(input) {
        Some(rest) => Ok((rest, ())),
        None => Ok((input, ())),
    }
}

/// Blank space that may be absent: the spaces and tabs at the start of `s`
/// are skipped. Never fails.
pub open spec fn space0_of(s: Seq<u8>) -> Parsed<()> {
    Ok((after(s, blank_run(s)), ()))
}

/// Skips spaces and tabs, if there are any.
pub fn space0<'a>(input: &'a [u8]) -> (r: Result<(&'a [u8], ()), ParseError<'a>>)
    ensures
        outcome(r) == space0_of(input@),
{
    match nom_space0(input) {
        Some(rest) => Ok((rest, ())),
        None => Ok((input, ())),
    }
}

/// Blank space: the spaces and tabs at the start of `s` are skipped, and
/// there must be at least one.
pub open spec fn space1_of(s: Seq<u8>) -> Parsed<()> {
    if blank_run(s) > 0 {
        Ok((after(s, blank_run(s)), ()))
    } else {
        fail(s, ErrorKind::Space)
    }
}

/// Skips one or more spaces and tabs.
pub fn space1<'a>(input: &'a [u8]) -> (r: Result<(&'a [u8], ()), ParseError<'a>>)
    ensures
        outcome(r) == space1_of(input@),
{
    match nom_space1(input) {
        Some(rest) => Ok((rest, ())),
        None => Err(ParseError { input, kind: ErrorKind::Space }),
    }
}

/// Skips one or more spaces and tabs.
pub fn space<'a>(input: &'a [u8]) -> (r: Result<(&'a [u8], ()), ParseError<'a>>)
    ensures
        outcome(r) == space1_of(input@),
{
    match nom_space(input) {
        Some(rest) => Ok((rest, ())),
        None => Err(ParseError { input, kind: ErrorKind::Space }),
    }
}

/// A line ending: a line feed, or a carriage return and a line feed.
pub open spec fn eol_of(s: Seq<u8>) -> Parsed<()> {
    if eol_len(s) > 0 {
        Ok((after(s, eol_len(s)), ()))
    } else {
        fail(s, ErrorKind::CrLf)
    }
}

/// Skips one line ending.
pub fn eol<'a>(input: &'a [u8]) -> (r: Result<(&'a [u8], ()), ParseError<'a>>)
    ensures
        outcome(r) == eol_of(input@),
{
    match nom_eol(input) {
        Some(rest) => Ok((rest, ())),
        None => Err(ParseError { input, kind: ErrorKind::CrLf }),
    }
}

/// Whether `chr` is a semicolon.
pub fn is_semi_colon(chr: char) -> (r: bool)
    ensures
        r == (chr == ';'),
{
    chr == ';'
}

/// Whether `chr` is a double quote.
pub fn is_quote(chr: char) -> (r: bool)
    ensures
        r == (chr == '"'),
{
    chr == '"'
}

/// The characters an identifier may start with: a letter or an underscore,
/// and never a decimal digit.
pub open spec fn ident_head(chr: char) -> bool {
    !('0' <= chr <= '9') && (alphabetic(chr) || chr == '_')
}

/// The characters an identifier may go on with: a decimal digit, a letter
/// or an underscore.
pub open spec fn ident_char(chr: char) -> bool {
    ('0' <= chr <= '9') || alphabetic(chr) || chr == '_'
}

/// Whether an identifier may start with `chr`, given whether `chr` is a
/// letter.
pub fn c_ident_head_given(chr: char, letter: bool) -> (r: bool)
    ensures
        r == (!('0' <= chr <= '9') && (letter || chr == '_')),
{
    let code: u32 = chr as u32;
    !(0x30 <= code && code <= 0x39) && (letter || chr == '_')
}

/// Whether an identifier may go on with `chr`, given whether `chr` is a
/// letter.
pub fn c_string_char_given(chr: char, letter: bool) -> (r: bool)
    ensures
        r == (('0' <= chr <= '9') || letter || chr == '_'),
{
    let code: u32 = chr as u32;
    (0x30 <= code && code <= 0x39) || letter || chr == '_'
}

/// Whether an identifier may start with `chr`.
pub fn is_c_ident_head(chr: char) -> (r: bool)
    ensures
        r == ident_head(chr),
{
    c_ident_head_given(chr, char_is_alphabetic(chr))
}

/// Whether an identifier may go on with `chr`.
pub fn is_c_string_char(chr: char) -> (r: bool)
    ensures
        r == ident_char(chr),
{
    c_string_char_given(chr, char_is_alphabetic(chr))
}

/// The length of the run of identifier characters that `s` starts with,
/// each byte read as the character of that code.
pub open spec fn ident_run(s: Seq<u8>) -> nat {
    span(s, |b: u8| ident_char(b as char))
}

/// An identifier: a letter or an underscore, then letters, digits and
/// underscores as far as they go. Fails as `TakeWhile1` where the first byte
/// cannot start an identifier, and as `MapRes` where the bytes found are not
/// UTF-8.
pub open spec fn c_ident_of(s: Seq<u8>) -> Parsed<Seq<char>> {
    let name = s.subrange(0, ident_run(s) as int);
    if s.len() == 0 || !ident_head(s[0] as char) {
        fail(s, ErrorKind::TakeWhile1)
    } else if valid_utf8(name) {
        Ok((after(s, ident_run(s)), decode_utf8(name)))
    } else {
        fail(s, ErrorKind::MapRes)
    }
}

/// Recognises an identifier.
pub fn c_ident<'a>(input: &'a [u8]) -> (r: Result<(&'a [u8], String), ParseError<'a>>)
    ensures
        outcome(r) == c_ident_of(input@),
{
    if input.len() == 0 || !is_c_ident_head(input[0] as char) {
        return Err(ParseError { input, kind: ErrorKind::TakeWhile1 });
    }
    let mut n: usize = 0;
    while n < input.len() && is_c_string_char(input[n] as char)
        invariant
            n <= input@.len(),
            forall|k: int| 0 <= k < n ==> ident_char(#[trigger] input@[k] as char),
        decreases input@.len() - n,
    {
        n += 1;
    }
    proof {
        lemma_span_is(input@, |b: u8| ident_char(b as char), n as nat);
    }
    let name = slice_to_vec(slice_subrange(input, 0, n));
    match string_from_utf8(name) {
        Some(text) => Ok((slice_subrange(input, n, input.len()), text)),
        None => Err(ParseError { input, kind: ErrorKind::MapRes }),
    }
}

/// No identifier starts with a decimal digit: input that does is rejected
/// at its first byte.
pub proof fn lemma_c_ident_rejects_leading_digit(s: Seq<u8>)
    requires
        s.len() > 0,
        is_dec_digit(s[0]),
    ensures
        c_ident_of(s) == fail::<Seq<char>>(s, ErrorKind::TakeWhile1),
{
}

/// An identifier is the longest run of identifier characters at the start
/// of the input: it starts with a byte that may start one, it is not empty,
/// and the byte that follows it, if there is one, cannot go on with it.
pub proof fn lemma_c_ident_longest(s: Seq<u8>)
    requires
        c_ident_of(s) is Ok,
    ensures
        ({
            let (rest, name) = c_ident_of(s)->Ok_0;
            let n = s.len() - rest.len();
            &&& 0 < n <= s.len()
            &&& rest == s.subrange(n, s.len() as int)
            &&& name == decode_utf8(s.subrange(0, n))
            &&& ident_head(s[0] as char)
            &&& forall|k: int| 0 <= k < n ==> ident_char(#[trigger] s[k] as char)
            &&& rest.len() > 0 ==> !ident_char(rest[0] as char)
        }),
{
    let p = |b: u8| ident_char(b as char);
    lemma_span(s, p);
    assert(p(s[0]));
    assert(span(s, p) > 0);
    let n = span(s, p);
    assert forall|k: int| 0 <= k < n implies ident_char(#[trigger] s[k] as char) by {
        assert(p(s[k]));
    }
}

/// The number that a string of decimal digits denotes.
pub open spec fn decimal(digits: Seq<u8>) -> nat
    decreases digits.len(),
{
    if digits.len() == 0 {
        0
    } else {
        10 * decimal(digits.drop_last()) + (digits.last() - 0x30) as nat
    }
}

/// A string of digits denotes at least what any of its prefixes denotes.
pub proof fn lemma_decimal_prefix(digits: Seq<u8>, n: int)
    requires
        0 <= n <= digits.len(),
        forall|k: int| 0 <= k < digits.len() ==> is_dec_digit(#[trigger] digits[k]),
    ensures
        decimal(digits.subrange(0, n)) <= decimal(digits),
    decreases digits.len(),
{
    if n == digits.len() {
        assert(digits.subrange(0, n) =~= digits);
    } else {
        assert(is_dec_digit(digits.last()));
        lemma_decimal_prefix(digits.drop_last(), n);
        assert(digits.drop_last().subrange(0, n) =~= digits.subrange(0, n));
    }
}

/// Evaluates a string of decimal digits, unless the number is too large for
/// 64 bits.
fn decimal_value(digits: &[u8]) -> (r: Option<u64>)
    requires
        forall|k: int| 0 <= k < digits@.len() ==> is_dec_digit(#[trigger] digits@[k]),
    ensures
        match r {
            Some(v) => v == decimal(digits@),
            None => decimal(digits@) > u64::MAX,
        },
{
    let mut acc: u64 = 0;
    let mut i: usize = 0;
    while i < digits.len()
        invariant
            i <= digits@.len(),
            acc == decimal(digits@.subrange(0, i as int)),
            forall|k: int| 0 <= k < digits@.len() ==> is_dec_digit(#[trigger] digits@[k]),
        decreases digits@.len() - i,
    {
        assert(is_dec_digit(digits@[i as int]));
        let d: u64 = (digits[i] - 0x30) as u64;
        proof {
            assert(digits@.subrange(0, i + 1).drop_last() =~= digits@.subrange(0, i as int));
            assert(decimal(digits@.subrange(0, i + 1)) == 10 * acc + d);
        }
        if acc > (u64::MAX - d) / 10 {
            proof {
                lemma_decimal_prefix(digits@, i + 1);
            }
            return None;
        }
        acc = acc * 10 + d;
        i += 1;
    }
    assert(digits@.subrange(0, i as int) =~= digits@);
    Some(acc)
}

/// An unsigned decimal number: one or more digits. Fails as `Digit` where
/// there is none, and as `MapRes` where the number does not fit in 64 bits.
pub open spec fn u64_s_of(s: Seq<u8>) -> Parsed<u64> {
    let number = decimal(s.subrange(0, digit_run(s) as int));
    if digit_run(s) == 0 {
        fail(s, ErrorKind::Digit)
    } else if number <= u64::MAX {
        Ok((after(s, digit_run(s)), number as u64))
    } else {
        fail(s, ErrorKind::MapRes)
    }
}

/// Recognises an unsigned decimal number.
pub fn u64_s<'a>(input: &'a [u8]) -> (r: Result<(&'a [u8], u64), ParseError<'a>>)
    ensures
        outcome(r) == u64_s_of(input@),
{
    match nom_digit(input) {
        None => Err(ParseError { input, kind: ErrorKind::Digit }),
        Some((rest, digits)) => {
            proof {
                lemma_span(input@, |b: u8| is_dec_digit(b));
            }
            match decimal_value(digits) {
                Some(number) => Ok((rest, number)),
                None => Err(ParseError { input, kind: ErrorKind::MapRes }),
            }
        },
    }
}

/// Whether `s` starts with a minus sign.
pub open spec fn negative(s: Seq<u8>) -> bool {
    s.len() > 0 && s[0] == MINUS
}

/// `s` without the sign that it starts with, if it starts with one.
pub open spec fn unsigned_part(s: Seq<u8>) -> Seq<u8> {
    if s.len() > 0 && (s[0] == MINUS || s[0] == PLUS) {
        after(s, 1)
    } else {
        s
    }
}

/// A signed decimal number: an optional `+` or `-`, then one or more digits.
/// Fails as `Digit`, at the place where the digits should start, where there
/// is none, and as `ParseTo` where the number does not fit in 64 bits.
pub open spec fn i64_digit_of(s: Seq<u8>) -> Parsed<i64> {
    let body = unsigned_part(s);
    let magnitude = decimal(body.subrange(0, digit_run(body) as int));
    let number: int = if negative(s) { -magnitude } else { magnitude as int };
    if digit_run(body) == 0 {
        fail(body, ErrorKind::Digit)
    } else if i64::MIN <= number <= i64::MAX {
        Ok((after(body, digit_run(body)), number as i64))
    } else {
        fail(s, ErrorKind::ParseTo)
    }
}

/// Recognises a signed decimal number.
pub fn i64_digit<'a>(input: &'a [u8]) -> (r: Result<(&'a [u8], i64), ParseError<'a>>)
    ensures
        outcome(r) == i64_digit_of(input@),
{
    let minus = input.len() > 0 && input[0] == MINUS;
    let plus = input.len() > 0 && input[0] == PLUS;
    let body = if minus || plus { slice_subrange(input, 1, input.len()) } else { input };
    match nom_digit(body) {
        None => Err(ParseError { input: body, kind: ErrorKind::Digit }),
        Some((rest, digits)) => {
            proof {
                lemma_span(body@, |b: u8| is_dec_digit(b));
            }
            match decimal_value(digits) {
                None => Err(ParseError { input, kind: ErrorKind::ParseTo }),
                Some(magnitude) => {
                    if minus {
                        if magnitude < 0x8000_0000_0000_0000 {
                            Ok((rest, -(magnitude as i64)))
                        } else if magnitude == 0x8000_0000_0000_0000 {
                            Ok((rest, i64::MIN))
                        } else {
                            Err(ParseError { input, kind: ErrorKind::ParseTo })
                        }
                    } else if magnitude < 0x8000_0000_0000_0000 {
                        Ok((rest, magnitude as i64))
                    } else {
                        Err(ParseError { input, kind: ErrorKind::ParseTo })
                    }
                },
            }
        },
    }
}

/// The length of the text that `s` starts with, up to the first double
/// quote or to the end.
pub open spec fn unquoted_run(s: Seq<u8>) -> nat {
    span(s, |b: u8| b != QUOTE)
}

/// A quoted string: a double quote, any bytes but a double quote, and a
/// double quote. There is no escape. The bytes are read as UTF-8, with a
/// replacement character where they are not. Input that ends before the
/// closing quote fails as `Eof` at its end.
pub open spec fn char_string_of(s: Seq<u8>) -> Parsed<Seq<char>> {
    match char_of(s, QUOTE) {
        Err(e) => Err(e),
        Ok((body, _)) => {
            let n = unquoted_run(body);
            if n < body.len() {
                Ok((after(body, n + 1), lossy_text(body.subrange(0, n as int))))
            } else {
                fail(after(body, n), ErrorKind::Eof)
            }
        },
    }
}

/// Recognises a quoted string.
pub fn char_string<'a>(input: &'a [u8]) -> (r: Result<(&'a [u8], String), ParseError<'a>>)
    ensures
        outcome(r) == char_string_of(input@),
{
    match quote(input) {
        Err(e) => Err(e),
        Ok((body, _)) => {
            let mut n: usize = 0;
            while n < body.len() && !is_quote(body[n] as char)
                invariant
                    n <= body@.len(),
                    forall|k: int| 0 <= k < n ==> #[trigger] body@[k] != QUOTE,
                decreases body@.len() - n,
            {
                n += 1;
            }
            proof {
                lemma_span_is(body@, |b: u8| b != QUOTE, n as nat);
            }
            if n < body.len() {
                let text = string_from_utf8_lossy(slice_subrange(body, 0, n));
                Ok((slice_subrange(body, n + 1, body.len()), text))
            } else {
                Err(ParseError { input: slice_subrange(body, n, body.len()), kind: ErrorKind::Eof })
            }
        },
    }
}

/// A floating point literal at the start of `s`: what `nom` reads as one,
/// where that leaves a shorter final part of `s`.
pub open spec fn double_of(s: Seq<u8>) -> Parsed<Double> {
    match float_literal(s) {
        Some((rest, bits)) => if rest.len() < s.len() && tail_of(rest, s) {
            Ok((rest, Double(bits)))
        } else {
            fail(s, ErrorKind::Float)
        },
        None => fail(s, ErrorKind::Float),
    }
}

/// The outcome of reading a floating point literal at `input`, given what
/// was found there: the rest and the bit pattern of the number, or nothing.
pub fn double_given<'a>(input: &'a [u8], found: Option<(&'a [u8], u64)>) -> (r: Result<
    (&'a [u8], Double),
    ParseError<'a>,
>)
    ensures
        r == match found {
            Some((rest, bits)) => Ok::<_, ParseError<'a>>((rest, Double(bits))),
            None => Err(ParseError { input, kind: ErrorKind::Float }),
        },
{
    match found {
        Some((rest, bits)) => Ok((rest, Double(bits))),
        None => Err(ParseError { input, kind: ErrorKind::Float }),
    }
}

/// Recognises a floating point literal.
pub fn double<'a>(input: &'a [u8]) -> (r: Result<(&'a [u8], Double), ParseError<'a>>)
    ensures
        outcome(r) == double_of(input@),
{
    double_given(input, nom_double(input))
}

/// A comma as a grammar rule, for use as a separator.
pub struct Comma;

impl Rule for Comma {
    type Output = char;

    open spec fn parsed(s: Seq<u8>) -> Parsed<char> {
        char_of(s, COMMA)
    }

    proof fn lemma_within(s: Seq<u8>) {
        lemma_char_within(s, COMMA);
    }

    fn parse<'a>(input: &'a [u8]) -> (r: Result<(&'a [u8], char), ParseError<'a>>) {
        comma(input)
    }
}

/// A single space as a grammar rule, for use as a separator.
pub struct Space;

impl Rule for Space {
    type Output = char;

    open spec fn parsed(s: Seq<u8>) -> Parsed<char> {
        char_of(s, SPACE)
    }

    proof fn lemma_within(s: Seq<u8>) {
        lemma_char_within(s, SPACE);
    }

    fn parse<'a>(input: &'a [u8]) -> (r: Result<(&'a [u8], char), ParseError<'a>>) {
        ss(input)
    }
}

/// An identifier as a grammar rule, for use as a list element.
pub struct Identifier;

impl Rule for Identifier {
    type Output = String;

    open spec fn parsed(s: Seq<u8>) -> Parsed<Seq<char>> {
        c_ident_of(s)
    }

    proof fn lemma_within(s: Seq<u8>) {
        lemma_c_ident_within(s);
    }

    fn parse<'a>(input: &'a [u8]) -> (r: Result<(&'a [u8], String), ParseError<'a>>) {
        c_ident(input)
    }
}

/// One or more identifiers with a comma between them.
pub open spec fn c_ident_vec_of(s: Seq<u8>) -> Parsed<Seq<Seq<char>>> {
    separated_nonempty_list_of::<Comma, Identifier>(s)
}

/// Reads a list of identifiers separated by commas.
pub fn c_ident_vec<'a>(input: &'a [u8]) -> (r: Result<(&'a [u8], Vec<String>), ParseError<'a>>)
    ensures
        outcome(r) == c_ident_vec_of(input@),
{
    separated_nonempty_list::<Comma, Identifier>(input)
}

/// A run is no longer than the input.
pub broadcast proof fn lemma_span_bound(s: Seq<u8>, p: spec_fn(u8) -> bool)
    ensures
        #[trigger] span(s, p) <= s.len(),
{
    lemma_span(s, p);
}

/// A keyword leaves a final part of its input, and fails at its start.
pub broadcast proof fn lemma_tag_within(s: Seq<u8>, word: &str)
    ensures
        within(#[trigger] tag_of(s, word), s),
{
    broadcast use {lemma_tail_from, lemma_tail_whole};
}

/// A delimiter leaves a final part of its input, and fails at its start.
pub broadcast proof fn lemma_char_within(s: Seq<u8>, c: u8)
    ensures
        within(#[trigger] char_of(s, c), s),
{
    broadcast use {lemma_tail_from, lemma_tail_whole};
}

/// White space leaves a final part of its input.
pub broadcast proof fn lemma_multispace0_within(s: Seq<u8>)
    ensures
        within(#[trigger] multispace0_of(s), s),
{
    broadcast use {lemma_tail_from, lemma_span_bound};
}

/// Blank space leaves a final part of its input.
pub broadcast proof fn lemma_space0_within(s: Seq<u8>)
    ensures
        within(#[trigger] space0_of(s), s),
{
    broadcast use {lemma_tail_from, lemma_span_bound};
}

/// Blank space leaves a final part of its input, and fails at its start.
pub broadcast proof fn lemma_space1_within(s: Seq<u8>)
    ensures
        within(#[trigger] space1_of(s), s),
{
    broadcast use {lemma_tail_from, lemma_tail_whole, lemma_span_bound};
}

/// A line ending leaves a final part of its input, and fails at its start.
pub broadcast proof fn lemma_eol_within(s: Seq<u8>)
    ensures
        within(#[trigger] eol_of(s), s),
{
    broadcast use {lemma_tail_from, lemma_tail_whole};
}

/// An identifier leaves a final part of its input, and fails at its start.
pub broadcast proof fn lemma_c_ident_within(s: Seq<u8>)
    ensures
        within(#[trigger] c_ident_of(s), s),
{
    broadcast use {lemma_tail_from, lemma_tail_whole, lemma_span_bound};
}

/// An unsigned number leaves a final part of its input, and fails at its
/// start.
pub broadcast proof fn lemma_u64_s_within(s: Seq<u8>)
    ensures
        within(#[trigger] u64_s_of(s), s),
{
    broadcast use {lemma_tail_from, lemma_tail_whole, lemma_span_bound};
}

/// A signed number leaves a final part of its input, and fails inside it.
pub broadcast proof fn lemma_i64_digit_within(s: Seq<u8>)
    ensures
        within(#[trigger] i64_digit_of(s), s),
{
    broadcast use {lemma_tail_from, lemma_tail_whole, lemma_tail_of_tail, lemma_span_bound};

    let body = unsigned_part(s);
    assert(tail_of(body, s));
    assert(within(i64_digit_of(s), body) || within(i64_digit_of(s), s));
}

/// A quoted string leaves a final part of its input, and fails inside it.
pub broadcast proof fn lemma_char_string_within(s: Seq<u8>)
    ensures
        within(#[trigger] char_string_of(s), s),
{
    broadcast use {lemma_tail_from, lemma_tail_whole, lemma_tail_of_tail, lemma_span_bound};

    if let Ok((body, _)) = char_of(s, QUOTE) {
        assert(tail_of(body, s));
        assert(within(char_string_of(s), body));
    }
}

/// A floating point literal leaves a final part of its input, and fails at
/// its start.
pub broadcast proof fn lemma_double_within(s: Seq<u8>)
    ensures
        within(#[trigger] double_of(s), s),
{
    broadcast use lemma_tail_whole;
}

/// A list of identifiers leaves a final part of its input, and fails at its
/// start.
pub broadcast proof fn lemma_c_ident_vec_within(s: Seq<u8>)
    ensures
        within(#[trigger] c_ident_vec_of(s), s),
{
    lemma_separated_nonempty_list_within::<Comma, Identifier>(s);
}

/// The lexical rules stay inside their input.
pub broadcast group group_lexical_within {
    lemma_tail_of_tail,
    lemma_tail_whole,
    lemma_tag_within,
    lemma_char_within,
    lemma_multispace0_within,
    lemma_space0_within,
    lemma_space1_within,
    lemma_eol_within,
    lemma_c_ident_within,
    lemma_u64_s_within,
    lemma_i64_digit_within,
    lemma_char_string_within,
    lemma_double_within,
    lemma_c_ident_vec_within,
}

} // verus!
