//! The whole document: the sections in their fixed order, and the verdict
//! on a buffer.

use vstd::prelude::*;
use vstd::slice::slice_to_vec;
use crate::attribute::{
    AttributeDefault, AttributeDefaultView, AttributeDefinition, AttributeDefinitionView,
    AttributeValueForObject, AttributeValueForObjectView,
};
use crate::comment::{Comment, CommentView};
use crate::environment::{
    EnvironmentVariable, EnvironmentVariableData, EnvironmentVariableDataView,
    EnvironmentVariableView,
};
use crate::error::{lemma_tail_of_tail, outcome, tail_of, within, Failure, ParseError, Parsed};
use crate::header::{
    lemma_new_symbols_within, lemma_version_within, new_symbols, new_symbols_of, version,
    version_of, Baudrate, BitTiming, Node, Symbol, Version,
};
use crate::message::{Message, MessageTransmitter, MessageTransmitterView, MessageView};
use crate::rule::{
    give, lemma_many0_within, lemma_opt_within, many0, many0_of, opt, opt_of, then, value,
};
use crate::signal_type::{
    SignalExtendedValueTypeList, SignalExtendedValueTypeListView, SignalGroups, SignalGroupsView,
    SignalType, SignalTypeRef, SignalTypeRefView, SignalTypeView,
};
use crate::value::{ValueDescription, ValueDescriptionView, ValueTable, ValueTableView};

verus! {

/// A whole document: every section in the order of the format, each with
/// its entries in the order of the text.
#[derive(Clone, Debug, PartialEq)]
pub struct DBC {
    /// The version of the document.
    pub version: Version,
    /// The keywords that the document declares.
    pub new_symbols: Vec<Symbol>,
    /// The bit timing, where the document has the section.
    pub bit_timing: Option<Vec<Baudrate>>,
    /// The node lists.
    pub nodes: Vec<Node>,
    /// The value tables.
    pub value_tables: Vec<ValueTable>,
    /// The messages with their signals.
    pub messages: Vec<Message>,
    /// The further senders of messages.
    pub message_transmitters: Vec<MessageTransmitter>,
    /// The environment variables.
    pub environment_variables: Vec<EnvironmentVariable>,
    /// The sizes of the data of environment variables.
    pub environment_variable_data: Vec<EnvironmentVariableData>,
    /// The signal types.
    pub signal_types: Vec<SignalType>,
    /// The comments on objects.
    pub comments: Vec<Comment>,
    /// The definitions of attributes.
    pub attribute_definitions: Vec<AttributeDefinition>,
    /// The defaults of attributes.
    pub attribute_defaults: Vec<AttributeDefault>,
    /// The values of attributes for single objects.
    pub attribute_values: Vec<AttributeValueForObject>,
    /// The descriptions of the raw values of signals and environment variables.
    pub value_descriptions: Vec<ValueDescription>,
    /// The signal types of single signals.
    pub signal_type_refs: Vec<SignalTypeRef>,
    /// The signal group, where the document has one.
    pub signal_groups: Option<SignalGroups>,
    /// The numeric encoding of a signal, where the document gives one.
    pub signal_extended_value_type_list: Option<SignalExtendedValueTypeList>,
}

/// The mathematical value of a [`DBC`].
pub ghost struct DBCView {
    pub version: Seq<char>,
    pub new_symbols: Seq<Seq<char>>,
    pub bit_timing: Option<Seq<Baudrate>>,
    pub nodes: Seq<Seq<Seq<char>>>,
    pub value_tables: Seq<ValueTableView>,
    pub messages: Seq<MessageView>,
    pub message_transmitters: Seq<MessageTransmitterView>,
    pub environment_variables: Seq<EnvironmentVariableView>,
    pub environment_variable_data: Seq<EnvironmentVariableDataView>,
    pub signal_types: Seq<SignalTypeView>,
    pub comments: Seq<CommentView>,
    pub attribute_definitions: Seq<AttributeDefinitionView>,
    pub attribute_defaults: Seq<AttributeDefaultView>,
    pub attribute_values: Seq<AttributeValueForObjectView>,
    pub value_descriptions: Seq<ValueDescriptionView>,
    pub signal_type_refs: Seq<SignalTypeRefView>,
    pub signal_groups: Option<SignalGroupsView>,
    pub signal_extended_value_type_list: Option<SignalExtendedValueTypeListView>,
}

impl DeepView for DBC {
    type V = DBCView;

    open spec fn deep_view(&self) -> DBCView {
        DBCView {
            version: self.version.deep_view(),
            new_symbols: self.new_symbols.deep_view(),
            bit_timing: self.bit_timing.deep_view(),
            nodes: self.nodes.deep_view(),
            value_tables: self.value_tables.deep_view(),
            messages: self.messages.deep_view(),
            message_transmitters: self.message_transmitters.deep_view(),
            environment_variables: self.environment_variables.deep_view(),
            environment_variable_data: self.environment_variable_data.deep_view(),
            signal_types: self.signal_types.deep_view(),
            comments: self.comments.deep_view(),
            attribute_definitions: self.attribute_definitions.deep_view(),
            attribute_defaults: self.attribute_defaults.deep_view(),
            attribute_values: self.attribute_values.deep_view(),
            value_descriptions: self.value_descriptions.deep_view(),
            signal_type_refs: self.signal_type_refs.deep_view(),
            signal_groups: self.signal_groups.deep_view(),
            signal_extended_value_type_list: self.signal_extended_value_type_list.deep_view(),
        }
    }
}

impl DBC {
    /// The version of the document.
    pub fn version(&self) -> (r: &Version)
        ensures
            *r == self.version,
    {
        &self.version
    }

    /// The keywords that the document declares.
    pub fn new_symbols(&self) -> (r: &Vec<Symbol>)
        ensures
            *r == self.new_symbols,
    {
        &self.new_symbols
    }

    /// The bit timing, where the document has the section.
    pub fn bit_timing(&self) -> (r: &Option<Vec<Baudrate>>)
        ensures
            *r == self.bit_timing,
    {
        &self.bit_timing
    }

    /// The node lists.
    pub fn nodes(&self) -> (r: &Vec<Node>)
        ensures
            *r == self.nodes,
    {
        &self.nodes
    }

    /// The value tables.
    pub fn value_tables(&self) -> (r: &Vec<ValueTable>)
        ensures
            *r == self.value_tables,
    {
        &self.value_tables
    }

    /// The messages with their signals.
    pub fn messages(&self) -> (r: &Vec<Message>)
        ensures
            *r == self.messages,
    {
        &self.messages
    }

    /// The further senders of messages.
    pub fn message_transmitters(&self) -> (r: &Vec<MessageTransmitter>)
        ensures
            *r == self.message_transmitters,
    {
        &self.message_transmitters
    }

    /// The environment variables.
    pub fn environment_variables(&self) -> (r: &Vec<EnvironmentVariable>)
        ensures
            *r == self.environment_variables,
    {
        &self.environment_variables
    }

    /// The sizes of the data of environment variables.
    pub fn environment_variable_data(&self) -> (r: &Vec<EnvironmentVariableData>)
        ensures
            *r == self.environment_variable_data,
    {
        &self.environment_variable_data
    }

    /// The signal types.
    pub fn signal_types(&self) -> (r: &Vec<SignalType>)
        ensures
            *r == self.signal_types,
    {
        &self.signal_types
    }

    /// The comments on objects.
    pub fn comments(&self) -> (r: &Vec<Comment>)
        ensures
            *r == self.comments,
    {
        &self.comments
    }

    /// The definitions of attributes.
    pub fn attribute_definitions(&self) -> (r: &Vec<AttributeDefinition>)
        ensures
            *r == self.attribute_definitions,
    {
        &self.attribute_definitions
    }

    /// The defaults of attributes.
    pub fn attribute_defaults(&self) -> (r: &Vec<AttributeDefault>)
        ensures
            *r == self.attribute_defaults,
    {
        &self.attribute_defaults
    }

    /// The values of attributes for single objects.
    pub fn attribute_values(&self) -> (r: &Vec<AttributeValueForObject>)
        ensures
            *r == self.attribute_values,
    {
        &self.attribute_values
    }

    /// The descriptions of the raw values of signals and environment variables.
    pub fn value_descriptions(&self) -> (r: &Vec<ValueDescription>)
        ensures
            *r == self.value_descriptions,
    {
        &self.value_descriptions
    }

    /// The signal types of single signals.
    pub fn signal_type_refs(&self) -> (r: &Vec<SignalTypeRef>)
        ensures
            *r == self.signal_type_refs,
    {
        &self.signal_type_refs
    }

    /// The signal group, where the document has one.
    pub fn signal_groups(&self) -> (r: &Option<SignalGroups>)
        ensures
            *r == self.signal_groups,
    {
        &self.signal_groups
    }

    /// The numeric encoding of a signal, where the document gives one.
    pub fn signal_extended_value_type_list(&self) -> (r: &Option<SignalExtendedValueTypeList>)
        ensures
            *r == self.signal_extended_value_type_list,
    {
        &self.signal_extended_value_type_list
    }
}
/// Why a buffer is not a document.
#[derive(Debug)]
pub enum Error<'a> {
    /// The sections were read to their end, but input is left over: the
    /// document as far as it was read, and the bytes that remain.
    Incomplete(DBC, Vec<u8>),
    /// A rule of the grammar that had to match did not.
    NomError(ParseError<'a>),
}

/// The mathematical value of an [`Error`].
pub ghost enum ErrorView {
    Incomplete(DBCView, Seq<u8>),
    NomError(Failure),
}

impl<'a> View for Error<'a> {
    type V = ErrorView;

    open spec fn view(&self) -> ErrorView {
        match self {
            Error::Incomplete(document, remaining) => ErrorView::Incomplete(
                document.deep_view(),
                remaining@,
            ),
            Error::NomError(e) => ErrorView::NomError(e@),
        }
    }
}

/// The sections of a document in their fixed order: the version and the
/// new-symbols block, which must be there; the bit timing, if it is there;
/// then of each further kind of entry as many as follow one another; and at
/// the end at most one signal group and at most one numeric encoding of a
/// signal. A section ends where its rule no longer matches, and the next
/// begins there. Only the version and the new-symbols block can make the
/// whole fail.
pub open spec fn dbc_of(s: Seq<u8>) -> Parsed<DBCView> {
    let version = version_of(s);
    let new_symbols = then(version, |i: Seq<u8>| new_symbols_of(i));
    let bit_timing = then(new_symbols, |i: Seq<u8>| opt_of::<BitTiming>(i));
    let nodes = then(bit_timing, |i: Seq<u8>| many0_of::<Node>(i));
    let value_tables = then(nodes, |i: Seq<u8>| many0_of::<ValueTable>(i));
    let messages = then(value_tables, |i: Seq<u8>| many0_of::<Message>(i));
    let message_transmitters = then(messages, |i: Seq<u8>| many0_of::<MessageTransmitter>(i));
    let environment_variables = then(
        message_transmitters,
        |i: Seq<u8>| many0_of::<EnvironmentVariable>(i),
    );
    let environment_variable_data = then(
        environment_variables,
        |i: Seq<u8>| many0_of::<EnvironmentVariableData>(i),
    );
    let signal_types = then(environment_variable_data, |i: Seq<u8>| many0_of::<SignalType>(i));
    let comments = then(signal_types, |i: Seq<u8>| many0_of::<Comment>(i));
    let attribute_definitions = then(comments, |i: Seq<u8>| many0_of::<AttributeDefinition>(i));
    let attribute_defaults = then(
        attribute_definitions,
        |i: Seq<u8>| many0_of::<AttributeDefault>(i),
    );
    let attribute_values = then(
        attribute_defaults,
        |i: Seq<u8>| many0_of::<AttributeValueForObject>(i),
    );
    let value_descriptions = then(attribute_values, |i: Seq<u8>| many0_of::<ValueDescription>(i));
    let signal_type_refs = then(value_descriptions, |i: Seq<u8>| many0_of::<SignalTypeRef>(i));
    let signal_groups = then(signal_type_refs, |i: Seq<u8>| opt_of::<SignalGroups>(i));
    let signal_extended_value_type_list = then(
        signal_groups,
        |i: Seq<u8>| opt_of::<SignalExtendedValueTypeList>(i),
    );
    give(
        signal_extended_value_type_list,
        DBCView {
            version: value(version),
            new_symbols: value(new_symbols),
            bit_timing: value(bit_timing),
            nodes: value(nodes),
            value_tables: value(value_tables),
            messages: value(messages),
            message_transmitters: value(message_transmitters),
            environment_variables: value(environment_variables),
            environment_variable_data: value(environment_variable_data),
            signal_types: value(signal_types),
            comments: value(comments),
            attribute_definitions: value(attribute_definitions),
            attribute_defaults: value(attribute_defaults),
            attribute_values: value(attribute_values),
            value_descriptions: value(value_descriptions),
            signal_type_refs: value(signal_type_refs),
            signal_groups: value(signal_groups),
            signal_extended_value_type_list: value(signal_extended_value_type_list),
        },
    )
}

/// Only the two sections that must be there can make a document fail: the
/// sections fail exactly where the version line or, after it, the
/// new-symbols block fails, and with the same failure.
pub proof fn lemma_dbc_fails_only_in_head(s: Seq<u8>)
    ensures
        dbc_of(s) is Err <==> then(version_of(s), |i: Seq<u8>| new_symbols_of(i)) is Err,
        dbc_of(s) matches Err(e) ==> then(version_of(s), |i: Seq<u8>| new_symbols_of(i))
            == Err::<(Seq<u8>, Seq<Seq<char>>), Failure>(e),
{
}

/// The sections leave a final part of the buffer, and fail inside it.
pub proof fn lemma_dbc_within(s: Seq<u8>)
    ensures
        within(dbc_of(s), s),
{
    broadcast use {
        lemma_tail_of_tail,
        lemma_version_within,
        lemma_new_symbols_within,
        lemma_many0_within,
        lemma_opt_within,
    };
}

/// Reads the sections of a document and returns it with the input that is
/// left.
pub fn dbc<'a>(input: &'a [u8]) -> (r: Result<(&'a [u8], DBC), ParseError<'a>>)
    ensures
        outcome(r) == dbc_of(input@),
{
    let (i, version) = version(input)?;
    let (i, new_symbols) = new_symbols(i)?;
    let (i, bit_timing) = opt::<BitTiming>(i)?;
    let (i, nodes) = many0::<Node>(i)?;
    let (i, value_tables) = many0::<ValueTable>(i)?;
    let (i, messages) = many0::<Message>(i)?;
    let (i, message_transmitters) = many0::<MessageTransmitter>(i)?;
    let (i, environment_variables) = many0::<EnvironmentVariable>(i)?;
    let (i, environment_variable_data) = many0::<EnvironmentVariableData>(i)?;
    let (i, signal_types) = many0::<SignalType>(i)?;
    let (i, comments) = many0::<Comment>(i)?;
    let (i, attribute_definitions) = many0::<AttributeDefinition>(i)?;
    let (i, attribute_defaults) = many0::<AttributeDefault>(i)?;
    let (i, attribute_values) = many0::<AttributeValueForObject>(i)?;
    let (i, value_descriptions) = many0::<ValueDescription>(i)?;
    let (i, signal_type_refs) = many0::<SignalTypeRef>(i)?;
    let (i, signal_groups) = opt::<SignalGroups>(i)?;
    let (i, signal_extended_value_type_list) = opt::<SignalExtendedValueTypeList>(i)?;
    Ok(
        (
            i,
            DBC {
                version,
                new_symbols,
                bit_timing,
                nodes,
                value_tables,
                messages,
                message_transmitters,
                environment_variables,
                environment_variable_data,
                signal_types,
                comments,
                attribute_definitions,
                attribute_defaults,
                attribute_values,
                value_descriptions,
                signal_type_refs,
                signal_groups,
                signal_extended_value_type_list,
            },
        ),
    )
}

/// The verdict on a buffer: the document, where the sections take up the
/// whole buffer; `Incomplete` with the document read so far and the bytes
/// that remain, where they take up only a part; the failure of the grammar
/// otherwise.
pub open spec fn from_slice_of(buffer: Seq<u8>) -> Result<DBCView, ErrorView> {
    match dbc_of(buffer) {
        Ok((remaining, document)) => if remaining.len() == 0 {
            Ok(document)
        } else {
            Err(ErrorView::Incomplete(document, remaining))
        },
        Err(e) => Err(ErrorView::NomError(e)),
    }
}

/// What `DBC::from_slice` returned, as a mathematical value.
pub open spec fn verdict<'a>(r: Result<DBC, Error<'a>>) -> Result<DBCView, ErrorView> {
    match r {
        Ok(document) => Ok(document.deep_view()),
        Err(e) => Err(e@),
    }
}

impl DBC {
    /// Reads a document from a buffer that holds the whole of its text.
    pub fn from_slice<'a>(buffer: &'a [u8]) -> (r: Result<DBC, Error<'a>>)
        ensures
            verdict(r) == from_slice_of(buffer@),
            r matches Err(Error::Incomplete(_, remaining)) ==> remaining@.len() > 0 && tail_of(
                remaining@,
                buffer@,
            ),
            r matches Err(Error::NomError(e)) ==> tail_of(e.input@, buffer@),
    {
        proof {
            lemma_verdict_within(buffer@);
        }
        match dbc(buffer) {
            Ok((remaining, document)) => {
                if remaining.len() != 0 {
                    return Err(Error::Incomplete(document, slice_to_vec(remaining)));
                }
                Ok(document)
            },
            Err(e) => Err(Error::NomError(e)),
        }
    }
}

/// Every buffer gets exactly one of the three verdicts: a document, where
/// the sections succeed and leave nothing; trailing data, where they succeed
/// and leave something, which is then reported as it stands; a failure of
/// the grammar, where they fail, and then no document is returned.
pub proof fn lemma_verdicts(buffer: Seq<u8>)
    ensures
        from_slice_of(buffer) is Ok <==> (dbc_of(buffer) matches Ok((remaining, _))
            && remaining.len() == 0),
        from_slice_of(buffer) matches Err(ErrorView::Incomplete(document, remaining)) ==> {
            &&& remaining.len() > 0
            &&& dbc_of(buffer) == Ok::<_, Failure>((remaining, document))
        },
        from_slice_of(buffer) matches Err(ErrorView::NomError(e)) ==> dbc_of(buffer) == Err::<
            (Seq<u8>, DBCView),
            Failure,
        >(e),
{
}

/// The bytes that a verdict reports are bytes of the buffer: trailing data
/// is a final part of the buffer and not empty, and a failure of the
/// grammar lies at a place inside the buffer, so that the length of the
/// buffer less the length of what the failure holds is the offset of that
/// place.
pub proof fn lemma_verdict_within(buffer: Seq<u8>)
    ensures
        from_slice_of(buffer) matches Err(ErrorView::Incomplete(_, remaining)) ==> {
            &&& 0 < remaining.len() <= buffer.len()
            &&& tail_of(remaining, buffer)
        },
        from_slice_of(buffer) matches Err(ErrorView::NomError(e)) ==> {
            &&& e.input.len() <= buffer.len()
            &&& tail_of(e.input, buffer)
        },
{
    lemma_dbc_within(buffer);
}

/// Reading is a function of the buffer: two readings of the same bytes give
/// the same verdict, document for document and failure for failure.
pub proof fn lemma_from_slice_deterministic<'a, 'b>(
    first: Seq<u8>,
    second: Seq<u8>,
    r1: Result<DBC, Error<'a>>,
    r2: Result<DBC, Error<'b>>,
)
    requires
        first == second,
        verdict(r1) == from_slice_of(first),
        verdict(r2) == from_slice_of(second),
    ensures
        verdict(r1) == verdict(r2),
{
}

} // verus!
