//! The head of a document: its version, the new-symbols block, the bit
//! timing and the node list.

use vstd::prelude::*;
use crate::error::{outcome, within, ParseError, Parsed};
use crate::lexical::{
    c_ident, c_ident_of, char_string, char_string_of, eol, eol_of, group_lexical_within,
    multispace0, multispace0_of, skip, space, space0, space0_of, space1_of, ss, tag, u64_s,
    u64_s_of, word, Comma, Identifier, Space, SPACE,
};
use crate::rule::{
    give, lemma_many0_within, lemma_separated_nonempty_list_within, many0, many0_of, or,
    separated_nonempty_list, separated_nonempty_list_of, then, value, Rule,
};

verus! {

/// A label.
#[derive(Clone, Debug, PartialEq)]
pub struct Label(pub String);

impl DeepView for Label {
    type V = Seq<char>;

    open spec fn deep_view(&self) -> Seq<char> {
        self.0.deep_view()
    }
}

/// A bit timing rate in kbit/s.
#[derive(Copy, Clone, Debug, PartialEq)]
pub struct Baudrate(pub u64);

impl DeepView for Baudrate {
    type V = Baudrate;

    open spec fn deep_view(&self) -> Baudrate {
        *self
    }
}

/// The version string of a document.
#[derive(Clone, Debug, PartialEq)]
pub struct Version(pub String);

impl DeepView for Version {
    type V = Seq<char>;

    open spec fn deep_view(&self) -> Seq<char> {
        self.0.deep_view()
    }
}

/// A keyword that the document declares in its new-symbols block.
#[derive(Clone, Debug, PartialEq)]
pub struct Symbol(pub String);

impl DeepView for Symbol {
    type V = Seq<char>;

    open spec fn deep_view(&self) -> Seq<char> {
        self.0.deep_view()
    }
}

/// The names of the nodes on the network, in the order of their line.
#[derive(Clone, Debug, PartialEq)]
pub struct Node(pub Vec<String>);

impl DeepView for Node {
    type V = Seq<Seq<char>>;

    open spec fn deep_view(&self) -> Seq<Seq<char>> {
        self.0.deep_view()
    }
}
/// The version line: `VERSION "text"`, after optional white space and up to
/// the end of the line.
pub open spec fn version_of(s: Seq<u8>) -> Parsed<Seq<char>> {
    let text = then(
        skip(word(multispace0_of(s), "VERSION"), SPACE),
        |i: Seq<u8>| char_string_of(i),
    );
    let end = then(text, |i: Seq<u8>| eol_of(i));
    give(end, value(text))
}

/// Reads the version line.
pub fn version<'a>(input: &'a [u8]) -> (r: Result<(&'a [u8], Version), ParseError<'a>>)
    ensures
        outcome(r) == version_of(input@),
{
    let (i, _) = multispace0(input)?;
    let (i, _) = tag(i, "VERSION")?;
    let (i, _) = ss(i)?;
    let (i, text) = char_string(i)?;
    let (i, _) = eol(i)?;
    Ok((i, Version(text)))
}

/// One line of the new-symbols block: spaces or tabs, an identifier, the
/// end of the line.
pub open spec fn symbol_of(s: Seq<u8>) -> Parsed<Seq<char>> {
    let name = then(space1_of(s), |i: Seq<u8>| c_ident_of(i));
    let end = then(name, |i: Seq<u8>| eol_of(i));
    give(end, value(name))
}

/// Reads one line of the new-symbols block.
pub fn symbol<'a>(input: &'a [u8]) -> (r: Result<(&'a [u8], Symbol), ParseError<'a>>)
    ensures
        outcome(r) == symbol_of(input@),
{
    let (i, _) = space(input)?;
    let (i, name) = c_ident(i)?;
    let (i, _) = eol(i)?;
    Ok((i, Symbol(name)))
}

impl Rule for Symbol {
    type Output = Symbol;

    open spec fn parsed(s: Seq<u8>) -> Parsed<Seq<char>> {
        symbol_of(s)
    }

    proof fn lemma_within(s: Seq<u8>) {
        lemma_symbol_within(s);
    }

    fn parse<'a>(input: &'a [u8]) -> (r: Result<(&'a [u8], Symbol), ParseError<'a>>) {
        symbol(input)
    }
}

/// The new-symbols block: the line `NS_ :`, after optional white space, and
/// then the symbol lines, of which there may be none.
pub open spec fn new_symbols_of(s: Seq<u8>) -> Parsed<Seq<Seq<char>>> {
    let head = then(word(multispace0_of(s), "NS_ :"), |i: Seq<u8>| space0_of(i));
    let line = then(head, |i: Seq<u8>| eol_of(i));
    then(line, |i: Seq<u8>| many0_of::<Symbol>(i))
}

/// Reads the new-symbols block.
pub fn new_symbols<'a>(input: &'a [u8]) -> (r: Result<(&'a [u8], Vec<Symbol>), ParseError<'a>>)
    ensures
        outcome(r) == new_symbols_of(input@),
{
    let (i, _) = multispace0(input)?;
    let (i, _) = tag(i, "NS_ :")?;
    let (i, _) = space0(i)?;
    let (i, _) = eol(i)?;
    many0::<Symbol>(i)
}

/// A rate: an unsigned decimal number.
pub open spec fn baudrate_of(s: Seq<u8>) -> Parsed<Baudrate> {
    give(u64_s_of(s), Baudrate(value(u64_s_of(s))))
}

impl Rule for Baudrate {
    type Output = Baudrate;

    open spec fn parsed(s: Seq<u8>) -> Parsed<Baudrate> {
        baudrate_of(s)
    }

    proof fn lemma_within(s: Seq<u8>) {
        lemma_baudrate_within(s);
    }

    fn parse<'a>(input: &'a [u8]) -> (r: Result<(&'a [u8], Baudrate), ParseError<'a>>) {
        let (rest, rate) = u64_s(input)?;
        Ok((rest, Baudrate(rate)))
    }
}

/// The bit timing: `BS_:`, after optional white space, and then, if a space
/// and a list of rates separated by commas follow, that list. Where they do
/// not follow, nothing after the keyword is consumed and there are no rates.
/// The line's end is not part of the rule.
pub open spec fn bit_timing_of(s: Seq<u8>) -> Parsed<Seq<Baudrate>> {
    let head = word(multispace0_of(s), "BS_:");
    let rates = then(
        skip(head, SPACE),
        |i: Seq<u8>| separated_nonempty_list_of::<Comma, Baudrate>(i),
    );
    or(rates, give(head, Seq::empty()))
}

/// Reads the bit timing.
pub fn bit_timing<'a>(input: &'a [u8]) -> (r: Result<(&'a [u8], Vec<Baudrate>), ParseError<'a>>)
    ensures
        outcome(r) == bit_timing_of(input@),
{
    let (i, _) = multispace0(input)?;
    let (i, _) = tag(i, "BS_:")?;
    if let Ok((j, _)) = ss(i) {
        if let Ok(done) = separated_nonempty_list::<Comma, Baudrate>(j) {
            return Ok(done);
        }
    }
    let none: Vec<Baudrate> = Vec::new();
    proof {
        crate::rule::lemma_deep_view_empty(none);
    }
    Ok((i, none))
}

/// The bit timing as a grammar rule, for use where it is optional.
pub struct BitTiming;

impl Rule for BitTiming {
    type Output = Vec<Baudrate>;

    open spec fn parsed(s: Seq<u8>) -> Parsed<Seq<Baudrate>> {
        bit_timing_of(s)
    }

    proof fn lemma_within(s: Seq<u8>) {
        lemma_bit_timing_within(s);
    }

    fn parse<'a>(input: &'a [u8]) -> (r: Result<(&'a [u8], Vec<Baudrate>), ParseError<'a>>) {
        bit_timing(input)
    }
}

/// The node list: `BU_: name name ...`, after optional white space and up
/// to the end of the line, with at least one name and single spaces
/// between the names.
pub open spec fn node_of(s: Seq<u8>) -> Parsed<Seq<Seq<char>>> {
    let names = then(
        skip(word(multispace0_of(s), "BU_:"), SPACE),
        |i: Seq<u8>| separated_nonempty_list_of::<Space, Identifier>(i),
    );
    let end = then(names, |i: Seq<u8>| eol_of(i));
    give(end, value(names))
}

/// Reads the node list.
pub fn node<'a>(input: &'a [u8]) -> (r: Result<(&'a [u8], Node), ParseError<'a>>)
    ensures
        outcome(r) == node_of(input@),
{
    let (i, _) = multispace0(input)?;
    let (i, _) = tag(i, "BU_:")?;
    let (i, _) = ss(i)?;
    let (i, names) = separated_nonempty_list::<Space, Identifier>(i)?;
    let (i, _) = eol(i)?;
    Ok((i, Node(names)))
}

impl Rule for Node {
    type Output = Node;

    open spec fn parsed(s: Seq<u8>) -> Parsed<Seq<Seq<char>>> {
        node_of(s)
    }

    proof fn lemma_within(s: Seq<u8>) {
        lemma_node_within(s);
    }

    fn parse<'a>(input: &'a [u8]) -> (r: Result<(&'a [u8], Node), ParseError<'a>>) {
        node(input)
    }
}

/// The version line leaves a final part of its input, and fails inside it.
pub broadcast proof fn lemma_version_within(s: Seq<u8>)
    ensures
        within(#[trigger] version_of(s), s),
{
    broadcast use {
        group_lexical_within,
        lemma_many0_within,
        lemma_separated_nonempty_list_within,
    };
}

/// A symbol line leaves a final part of its input, and fails inside it.
pub broadcast proof fn lemma_symbol_within(s: Seq<u8>)
    ensures
        within(#[trigger] symbol_of(s), s),
{
    broadcast use {
        group_lexical_within,
        lemma_many0_within,
        lemma_separated_nonempty_list_within,
        lemma_version_within,
    };
}

/// The new-symbols block leaves a final part of its input, and fails inside
/// it.
pub broadcast proof fn lemma_new_symbols_within(s: Seq<u8>)
    ensures
        within(#[trigger] new_symbols_of(s), s),
{
    broadcast use {
        group_lexical_within,
        lemma_many0_within,
        lemma_separated_nonempty_list_within,
        lemma_version_within,
        lemma_symbol_within,
    };
}

/// A rate leaves a final part of its input, and fails at its start.
pub broadcast proof fn lemma_baudrate_within(s: Seq<u8>)
    ensures
        within(#[trigger] baudrate_of(s), s),
{
    broadcast use {
        group_lexical_within,
        lemma_many0_within,
        lemma_separated_nonempty_list_within,
        lemma_version_within,
        lemma_symbol_within,
        lemma_new_symbols_within,
    };
}

/// The bit timing leaves a final part of its input, and fails inside it.
pub broadcast proof fn lemma_bit_timing_within(s: Seq<u8>)
    ensures
        within(#[trigger] bit_timing_of(s), s),
{
    broadcast use {
        group_lexical_within,
        lemma_many0_within,
        lemma_separated_nonempty_list_within,
        lemma_version_within,
        lemma_symbol_within,
        lemma_new_symbols_within,
        lemma_baudrate_within,
    };
}

/// The node list leaves a final part of its input, and fails inside it.
pub broadcast proof fn lemma_node_within(s: Seq<u8>)
    ensures
        within(#[trigger] node_of(s), s),
{
    broadcast use {
        group_lexical_within,
        lemma_many0_within,
        lemma_separated_nonempty_list_within,
        lemma_version_within,
        lemma_symbol_within,
        lemma_new_symbols_within,
        lemma_baudrate_within,
        lemma_bit_timing_within,
    };
}

/// The rules of the head of a document stay inside their input.
pub broadcast group group_header_within {
    lemma_version_within,
    lemma_symbol_within,
    lemma_new_symbols_within,
    lemma_baudrate_within,
    lemma_bit_timing_within,
    lemma_node_within,
}

} // verus!
