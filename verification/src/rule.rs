//! Grammar rules as types, and the repetitions that are built from them.

use vstd::prelude::*;
use crate::error::{
    fail, lemma_tail_of_tail, lemma_tail_whole, outcome, tail_of, within, ErrorKind, Failure,
    ParseError, Parsed,
};

verus! {

/// A grammar rule: a specification of what it makes of a byte sequence and
/// an executable parser that does exactly that.
pub trait Rule {
    /// The value that the rule produces.
    type Output: DeepView;

    /// What the rule makes of `s`.
    spec fn parsed(s: Seq<u8>) -> Parsed<<Self::Output as DeepView>::V>;

    /// The rule stays inside its input: what it leaves, or the place where
    /// it gives up, is a final part of `s`.
    proof fn lemma_within(s: Seq<u8>)
        ensures
            within(Self::parsed(s), s),
    ;

    /// Runs the rule on `input`.
    fn parse<'a>(input: &'a [u8]) -> (r: Result<(&'a [u8], Self::Output), ParseError<'a>>)
        ensures
            outcome(r) == Self::parsed(input@),
    ;
}

/// Runs `next` on what `prev` left, where `prev` succeeded; the failure of
/// `prev` otherwise.
pub open spec fn then<A, B>(prev: Parsed<A>, next: spec_fn(Seq<u8>) -> Parsed<B>) -> Parsed<B> {
    match prev {
        Ok((rest, _)) => next(rest),
        Err(e) => Err(e),
    }
}

/// The success of `r` with `v` as its value; the failure of `r` otherwise.
pub open spec fn give<A, B>(r: Parsed<A>, v: B) -> Parsed<B> {
    match r {
        Ok((rest, _)) => Ok((rest, v)),
        Err(e) => Err(e),
    }
}

/// `first` where it succeeded, `second` otherwise.
pub open spec fn or<A>(first: Parsed<A>, second: Parsed<A>) -> Parsed<A> {
    match first {
        Ok(done) => Ok(done),
        Err(_) => second,
    }
}

/// The value that `r` holds, where it is a success.
pub open spec fn value<A>(r: Parsed<A>) -> A
    recommends
        r is Ok,
{
    r->Ok_0.1
}

/// Pushing onto a vector pushes the element's value onto the vector's value.
pub proof fn lemma_deep_view_push<T: DeepView>(before: Vec<T>, after: Vec<T>, item: T)
    requires
        after@ == before@.push(item),
    ensures
        after.deep_view() == before.deep_view().push(item.deep_view()),
{
    assert(after.deep_view() =~= before.deep_view().push(item.deep_view()));
}

/// The value of an empty vector is the empty sequence.
pub proof fn lemma_deep_view_empty<T: DeepView>(v: Vec<T>)
    requires
        v@.len() == 0,
    ensures
        v.deep_view() == Seq::<T::V>::empty(),
{
    assert(v.deep_view() =~= Seq::<T::V>::empty());
}

/// `R` applied as often as it matches: the input that is left and the
/// values in order. The repetition ends at the first application that fails
/// or that consumes nothing.
pub open spec fn repeat<R: Rule>(s: Seq<u8>) -> (Seq<u8>, Seq<<R::Output as DeepView>::V>)
    decreases s.len(),
{
    match R::parsed(s) {
        Ok((rest, item)) => if rest.len() < s.len() {
            (repeat::<R>(rest).0, seq![item] + repeat::<R>(rest).1)
        } else {
            (s, seq![])
        },
        Err(_) => (s, seq![]),
    }
}

/// Zero or more applications of `R`. Never fails.
pub open spec fn many0_of<R: Rule>(s: Seq<u8>) -> Parsed<Seq<<R::Output as DeepView>::V>> {
    Ok(repeat::<R>(s))
}

/// One or more applications of `R`. Fails as `Many1` where the first
/// application fails.
pub open spec fn many1_of<R: Rule>(s: Seq<u8>) -> Parsed<Seq<<R::Output as DeepView>::V>> {
    match R::parsed(s) {
        Ok((rest, first)) => Ok((repeat::<R>(rest).0, seq![first] + repeat::<R>(rest).1)),
        Err(_) => fail(s, ErrorKind::Many1),
    }
}

/// `R` where it matches, and nothing where it does not. Never fails.
pub open spec fn opt_of<R: Rule>(s: Seq<u8>) -> Parsed<Option<<R::Output as DeepView>::V>> {
    match R::parsed(s) {
        Ok((rest, item)) => Ok((rest, Some(item))),
        Err(_) => Ok((s, None)),
    }
}

/// The further elements of a separated list: a separator `S` and an element
/// `R`, as often as both match and each consumes something. A separator
/// that no element follows is not consumed.
pub open spec fn separated_tail<S: Rule, R: Rule>(s: Seq<u8>) -> (
    Seq<u8>,
    Seq<<R::Output as DeepView>::V>,
)
    decreases s.len(),
{
    match S::parsed(s) {
        Ok((rest, _)) => if rest.len() < s.len() {
            match R::parsed(rest) {
                Ok((end, item)) => if end.len() < rest.len() {
                    (separated_tail::<S, R>(end).0, seq![item] + separated_tail::<S, R>(end).1)
                } else {
                    (s, seq![])
                },
                Err(_) => (s, seq![]),
            }
        } else {
            (s, seq![])
        },
        Err(_) => (s, seq![]),
    }
}

/// One or more elements `R` with a separator `S` between them. Fails as the
/// first element fails, and as `SeparatedNonEmptyList` where the first
/// element consumes nothing.
pub open spec fn separated_nonempty_list_of<S: Rule, R: Rule>(s: Seq<u8>) -> Parsed<
    Seq<<R::Output as DeepView>::V>,
> {
    match R::parsed(s) {
        Ok((rest, first)) => if rest.len() < s.len() {
            Ok((separated_tail::<S, R>(rest).0, seq![first] + separated_tail::<S, R>(rest).1))
        } else {
            fail(s, ErrorKind::SeparatedNonEmptyList)
        },
        Err(e) => Err(e),
    }
}

/// A repetition is greedy: where it ends, a further application of the rule
/// fails or consumes nothing.
pub proof fn lemma_repeat_maximal<R: Rule>(s: Seq<u8>)
    ensures
        match R::parsed(repeat::<R>(s).0) {
            Ok((rest, _)) => rest.len() >= repeat::<R>(s).0.len(),
            Err(_) => true,
        },
    decreases s.len(),
{
    if let Ok((rest, _)) = R::parsed(s) {
        if rest.len() < s.len() {
            lemma_repeat_maximal::<R>(rest);
        }
    }
}

/// A repetition that finds nothing leaves its input as it is, and one that
/// finds something starts with what the rule makes of the input and goes on
/// from what that leaves: the values stand in the order of the text.
pub proof fn lemma_repeat_unfolds<R: Rule>(s: Seq<u8>)
    ensures
        repeat::<R>(s).1.len() == 0 ==> repeat::<R>(s).0 == s,
        repeat::<R>(s).1.len() > 0 ==> R::parsed(s) is Ok && repeat::<R>(s).1[0] == R::parsed(
            s,
        )->Ok_0.1 && repeat::<R>(s).0 == repeat::<R>(R::parsed(s)->Ok_0.0).0 && repeat::<R>(
            s,
        ).1.drop_first() == repeat::<R>(R::parsed(s)->Ok_0.0).1,
{
    if let Ok((rest, item)) = R::parsed(s) {
        if rest.len() < s.len() {
            assert((seq![item] + repeat::<R>(rest).1).drop_first() =~= repeat::<R>(rest).1);
        }
    }
}

/// A repetition leaves a final part of its input.
pub proof fn lemma_repeat_within<R: Rule>(s: Seq<u8>)
    ensures
        tail_of(repeat::<R>(s).0, s),
    decreases s.len(),
{
    broadcast use {lemma_tail_of_tail, lemma_tail_whole};

    R::lemma_within(s);
    if let Ok((rest, _)) = R::parsed(s) {
        if rest.len() < s.len() {
            lemma_repeat_within::<R>(rest);
        }
    }
}

/// Zero or more applications leave a final part of the input.
pub broadcast proof fn lemma_many0_within<R: Rule>(s: Seq<u8>)
    ensures
        within(#[trigger] many0_of::<R>(s), s),
{
    lemma_repeat_within::<R>(s);
}

/// One or more applications leave a final part of the input, and fail at
/// its start.
pub broadcast proof fn lemma_many1_within<R: Rule>(s: Seq<u8>)
    ensures
        within(#[trigger] many1_of::<R>(s), s),
{
    broadcast use {lemma_tail_of_tail, lemma_tail_whole};

    R::lemma_within(s);
    if let Ok((rest, _)) = R::parsed(s) {
        lemma_repeat_within::<R>(rest);
    }
}

/// An optional rule leaves a final part of the input.
pub broadcast proof fn lemma_opt_within<R: Rule>(s: Seq<u8>)
    ensures
        within(#[trigger] opt_of::<R>(s), s),
{
    broadcast use lemma_tail_whole;

    R::lemma_within(s);
}

/// The further elements of a separated list leave a final part of the
/// input.
pub proof fn lemma_separated_tail_within<S: Rule, R: Rule>(s: Seq<u8>)
    ensures
        tail_of(separated_tail::<S, R>(s).0, s),
    decreases s.len(),
{
    broadcast use {lemma_tail_of_tail, lemma_tail_whole};

    S::lemma_within(s);
    if let Ok((rest, _)) = S::parsed(s) {
        if rest.len() < s.len() {
            R::lemma_within(rest);
            if let Ok((end, _)) = R::parsed(rest) {
                if end.len() < rest.len() {
                    lemma_separated_tail_within::<S, R>(end);
                }
            }
        }
    }
}

/// A separated list leaves a final part of the input, and fails inside it.
pub broadcast proof fn lemma_separated_nonempty_list_within<S: Rule, R: Rule>(s: Seq<u8>)
    ensures
        within(#[trigger] separated_nonempty_list_of::<S, R>(s), s),
{
    broadcast use {lemma_tail_of_tail, lemma_tail_whole};

    R::lemma_within(s);
    if let Ok((rest, _)) = R::parsed(s) {
        if rest.len() < s.len() {
            lemma_separated_tail_within::<S, R>(rest);
        }
    }
}

/// Applies `R` as often as it matches, after the items already found.
fn repeat_onto<'a, R: Rule>(input: &'a [u8], found: Vec<R::Output>) -> (r: (
    &'a [u8],
    Vec<R::Output>,
))
    ensures
        r.0@ == repeat::<R>(input@).0,
        r.1.deep_view() == found.deep_view() + repeat::<R>(input@).1,
{
    let mut items = found;
    let mut cur: &'a [u8] = input;
    loop
        invariant
            repeat::<R>(input@).0 == repeat::<R>(cur@).0,
            found.deep_view() + repeat::<R>(input@).1 == items.deep_view() + repeat::<R>(cur@).1,
        decreases cur@.len(),
    {
        match R::parse(cur) {
            Ok((rest, item)) => {
                if rest.len() < cur.len() {
                    let ghost before = items;
                    items.push(item);
                    proof {
                        lemma_deep_view_push(before, items, item);
                        assert(before.deep_view() + (seq![item.deep_view()] + repeat::<R>(rest@).1)
                            =~= items.deep_view() + repeat::<R>(rest@).1);
                    }
                    cur = rest;
                } else {
                    assert(items.deep_view() + Seq::empty() =~= items.deep_view());
                    return (cur, items);
                }
            },
            Err(_) => {
                assert(items.deep_view() + Seq::empty() =~= items.deep_view());
                return (cur, items);
            },
        }
    }
}

/// Applies `R` as often as it matches.
pub fn many0<'a, R: Rule>(input: &'a [u8]) -> (r: Result<
    (&'a [u8], Vec<R::Output>),
    ParseError<'a>,
>)
    ensures
        outcome(r) == many0_of::<R>(input@),
{
    let found: Vec<R::Output> = Vec::new();
    proof {
        lemma_deep_view_empty(found);
    }
    let (rest, items) = repeat_onto::<R>(input, found);
    assert(Seq::empty() + repeat::<R>(input@).1 =~= repeat::<R>(input@).1);
    Ok((rest, items))
}

/// Applies `R` as often as it matches, which must be at least once.
pub fn many1<'a, R: Rule>(input: &'a [u8]) -> (r: Result<
    (&'a [u8], Vec<R::Output>),
    ParseError<'a>,
>)
    ensures
        outcome(r) == many1_of::<R>(input@),
{
    match R::parse(input) {
        Err(_) => Err(ParseError { input, kind: ErrorKind::Many1 }),
        Ok((rest, first)) => {
            let mut found: Vec<R::Output> = Vec::new();
            let ghost before = found;
            found.push(first);
            proof {
                lemma_deep_view_empty(before);
                lemma_deep_view_push(before, found, first);
                assert(found.deep_view() =~= seq![first.deep_view()]);
            }
            let (end, items) = repeat_onto::<R>(rest, found);
            Ok((end, items))
        },
    }
}

/// Applies `R` if it matches.
pub fn opt<'a, R: Rule>(input: &'a [u8]) -> (r: Result<
    (&'a [u8], Option<R::Output>),
    ParseError<'a>,
>)
    ensures
        outcome(r) == opt_of::<R>(input@),
{
    match R::parse(input) {
        Ok((rest, item)) => Ok((rest, Some(item))),
        Err(_) => Ok((input, None)),
    }
}

/// Reads a list of one or more `R`, separated by `S`.
pub fn separated_nonempty_list<'a, S: Rule, R: Rule>(input: &'a [u8]) -> (r: Result<
    (&'a [u8], Vec<R::Output>),
    ParseError<'a>,
>)
    ensures
        outcome(r) == separated_nonempty_list_of::<S, R>(input@),
{
    match R::parse(input) {
        Err(e) => Err(e),
        Ok((rest, first)) => {
            if rest.len() >= input.len() {
                return Err(ParseError { input, kind: ErrorKind::SeparatedNonEmptyList });
            }
            let mut items: Vec<R::Output> = Vec::new();
            let ghost empty = items;
            items.push(first);
            proof {
                lemma_deep_view_empty(empty);
                lemma_deep_view_push(empty, items, first);
                assert(items.deep_view() =~= seq![first.deep_view()]);
            }
            let mut cur: &'a [u8] = rest;
            loop
                invariant
                    R::parsed(input@) == Ok::<_, Failure>((rest@, first.deep_view())),
                    rest@.len() < input@.len(),
                    separated_tail::<S, R>(rest@).0 == separated_tail::<S, R>(cur@).0,
                    seq![first.deep_view()] + separated_tail::<S, R>(rest@).1 == items.deep_view()
                        + separated_tail::<S, R>(cur@).1,
                decreases cur@.len(),
            {
                let ghost tail_end = items.deep_view() + Seq::empty();
                assert(tail_end =~= items.deep_view());
                match S::parse(cur) {
                    Err(_) => {
                        return Ok((cur, items));
                    },
                    Ok((after_sep, _)) => {
                        if after_sep.len() >= cur.len() {
                            return Ok((cur, items));
                        }
                        match R::parse(after_sep) {
                            Err(_) => {
                                return Ok((cur, items));
                            },
                            Ok((next, item)) => {
                                if next.len() >= after_sep.len() {
                                    return Ok((cur, items));
                                }
                                let ghost before = items;
                                items.push(item);
                                proof {
                                    lemma_deep_view_push(before, items, item);
                                    assert(before.deep_view() + (seq![item.deep_view()]
                                        + separated_tail::<S, R>(next@).1) =~= items.deep_view()
                                        + separated_tail::<S, R>(next@).1);
                                }
                                cur = next;
                            },
                        }
                    },
                }
            }
        },
    }
}

} // verus!
