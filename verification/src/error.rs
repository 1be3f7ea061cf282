//! Parse outcomes: what a parser reports on failure, and the mathematical
//! shape of a parse result that every contract in this crate speaks of.

use vstd::prelude::*;

verus! {

/// The grammar rule that could not match.
#[derive(Copy, Clone, Debug, PartialEq, Eq)]
pub enum ErrorKind {
    /// The input ended where a fixed token was expected.
    Eof,
    /// A keyword was expected.
    Tag,
    /// A single delimiter character was expected.
    Char,
    /// An identifier was expected.
    TakeWhile1,
    /// A decimal digit was expected.
    Digit,
    /// A space or a tab was expected.
    Space,
    /// A line ending was expected.
    CrLf,
    /// A recognised token could not be converted: an unsigned number too
    /// large for 64 bits, or text that is not UTF-8.
    MapRes,
    /// A recognised signed number does not fit in 64 bits.
    ParseTo,
    /// A floating point literal was expected.
    Float,
    /// None of a fixed set of alternatives matched.
    Alt,
    /// A repetition that needs one element found none.
    Many1,
    /// The first element of a separated list consumed nothing.
    SeparatedNonEmptyList,
    /// A terminated repetition found neither an element nor its terminator.
    ManyTill,
}

/// A failed parse: the input that was left when the rule gave up, and the rule.
#[derive(Copy, Clone, Debug, PartialEq, Eq)]
pub struct ParseError<'a> {
    pub input: &'a [u8],
    pub kind: ErrorKind,
}

/// The mathematical value of a [`ParseError`].
pub ghost struct Failure {
    pub input: Seq<u8>,
    pub kind: ErrorKind,
}

impl<'a> View for ParseError<'a> {
    type V = Failure;

    open spec fn view(&self) -> Failure {
        Failure { input: self.input@, kind: self.kind }
    }
}

/// The mathematical result of running a grammar rule: on success the input
/// that remains and the value, on failure where and why.
pub type Parsed<T> = Result<(Seq<u8>, T), Failure>;

/// What an executable parser returned, as a value of [`Parsed`].
pub open spec fn outcome<'a, T: DeepView>(r: Result<(&'a [u8], T), ParseError<'a>>) -> Parsed<
    T::V,
> {
    match r {
        Ok((rest, value)) => Ok((rest@, value.deep_view())),
        Err(e) => Err(e@),
    }
}

/// The failure of `kind` at `input`.
pub open spec fn fail<T>(input: Seq<u8>, kind: ErrorKind) -> Parsed<T> {
    Err(Failure { input, kind })
}

/// Whether `tail` is a final part of `whole`.
pub open spec fn tail_of(tail: Seq<u8>, whole: Seq<u8>) -> bool {
    tail.len() <= whole.len() && tail == whole.subrange(
        whole.len() - tail.len(),
        whole.len() as int,
    )
}

/// Whether `r` stays inside `s`: what it left, or the place where it gave
/// up, is a final part of `s`.
pub open spec fn within<A>(r: Parsed<A>, s: Seq<u8>) -> bool {
    match r {
        Ok((rest, _)) => tail_of(rest, s),
        Err(e) => tail_of(e.input, s),
    }
}

/// A final part of a final part is a final part.
pub broadcast proof fn lemma_tail_of_tail(a: Seq<u8>, b: Seq<u8>, c: Seq<u8>)
    requires
        #[trigger] tail_of(a, b),
        #[trigger] tail_of(b, c),
    ensures
        tail_of(a, c),
{
    assert(a =~= c.subrange(c.len() - a.len(), c.len() as int));
}

/// What is left of a sequence from some index on is a final part of it.
pub broadcast proof fn lemma_tail_from(s: Seq<u8>, n: int)
    requires
        0 <= n <= s.len(),
    ensures
        tail_of(#[trigger] s.subrange(n, s.len() as int), s),
{
}

/// Every sequence is a final part of itself.
pub broadcast proof fn lemma_tail_whole(s: Seq<u8>)
    ensures
        #[trigger] tail_of(s, s),
{
    assert(s =~= s.subrange(0, s.len() as int));
}

} // verus!
