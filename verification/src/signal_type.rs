//! Signal types, their use by signals, signal groups and the numeric
//! encoding of signals.

use vstd::prelude::*;
use crate::error::{outcome, within, ParseError, Parsed};
use crate::lexical::{
    at, brc_close, brc_open, brk_close, brk_open, c_ident, c_ident_of, c_ident_vec, c_ident_vec_of,
    char_string, char_string_of, colon, comma, double, double_of, eol, eol_of, group_lexical_within,
    multispace0, multispace0_of, pipe, semi_colon, skip, ss, tag, u64_s, u64_s_of, word, Double, AT,
    BRC_CLOSE, BRC_OPEN, BRK_CLOSE, BRK_OPEN, COLON, COMMA, PIPE, SEMI_COLON, SPACE,
};
use crate::rule::{give, then, value, Rule};
use crate::scalar::{
    byte_order, byte_order_of, group_scalar_within, message_id, message_id_of,
    signal_extended_value_type, signal_extended_value_type_of, value_type, value_type_of, ByteOrder,
    MessageId, SignalExtendedValueType, ValueType,
};

verus! {

/// A template for the encoding of signals.
#[derive(Clone, Debug, PartialEq)]
pub struct SignalType {
    /// The name of the signal type.
    pub signal_type_name: String,
    /// The width in bits.
    pub signal_size: u64,
    /// The order of the bytes.
    pub byte_order: ByteOrder,
    /// Whether the raw value is signed.
    pub value_type: ValueType,
    /// The factor that scales the raw value.
    pub factor: Double,
    /// The offset that is added to the scaled value.
    pub offset: Double,
    /// The least physical value.
    pub min: Double,
    /// The greatest physical value.
    pub max: Double,
    /// The unit of the physical value.
    pub unit: String,
    /// The value a signal of this type starts with.
    pub default_value: Double,
    /// The name of the value table that describes the values.
    pub value_table: String,
}

/// The mathematical value of a [`SignalType`].
pub ghost struct SignalTypeView {
    pub signal_type_name: Seq<char>,
    pub signal_size: u64,
    pub byte_order: ByteOrder,
    pub value_type: ValueType,
    pub factor: Double,
    pub offset: Double,
    pub min: Double,
    pub max: Double,
    pub unit: Seq<char>,
    pub default_value: Double,
    pub value_table: Seq<char>,
}

impl DeepView for SignalType {
    type V = SignalTypeView;

    open spec fn deep_view(&self) -> SignalTypeView {
        SignalTypeView {
            signal_type_name: self.signal_type_name.deep_view(),
            signal_size: self.signal_size.deep_view(),
            byte_order: self.byte_order.deep_view(),
            value_type: self.value_type.deep_view(),
            factor: self.factor.deep_view(),
            offset: self.offset.deep_view(),
            min: self.min.deep_view(),
            max: self.max.deep_view(),
            unit: self.unit.deep_view(),
            default_value: self.default_value.deep_view(),
            value_table: self.value_table.deep_view(),
        }
    }
}

impl SignalType {
    /// The name of the signal type.
    pub fn signal_type_name(&self) -> (r: &String)
        ensures
            *r == self.signal_type_name,
    {
        &self.signal_type_name
    }

    /// The width in bits.
    pub fn signal_size(&self) -> (r: &u64)
        ensures
            *r == self.signal_size,
    {
        &self.signal_size
    }

    /// The order of the bytes.
    pub fn byte_order(&self) -> (r: &ByteOrder)
        ensures
            *r == self.byte_order,
    {
        &self.byte_order
    }

    /// Whether the raw value is signed.
    pub fn value_type(&self) -> (r: &ValueType)
        ensures
            *r == self.value_type,
    {
        &self.value_type
    }

    /// The factor that scales the raw value.
    pub fn factor(&self) -> (r: &Double)
        ensures
            *r == self.factor,
    {
        &self.factor
    }

    /// The offset that is added to the scaled value.
    pub fn offset(&self) -> (r: &Double)
        ensures
            *r == self.offset,
    {
        &self.offset
    }

    /// The least physical value.
    pub fn min(&self) -> (r: &Double)
        ensures
            *r == self.min,
    {
        &self.min
    }

    /// The greatest physical value.
    pub fn max(&self) -> (r: &Double)
        ensures
            *r == self.max,
    {
        &self.max
    }

    /// The unit of the physical value.
    pub fn unit(&self) -> (r: &String)
        ensures
            *r == self.unit,
    {
        &self.unit
    }

    /// The value a signal of this type starts with.
    pub fn default_value(&self) -> (r: &Double)
        ensures
            *r == self.default_value,
    {
        &self.default_value
    }

    /// The name of the value table that describes the values.
    pub fn value_table(&self) -> (r: &String)
        ensures
            *r == self.value_table,
    {
        &self.value_table
    }
}

/// The signal type of one signal.
#[derive(Clone, Debug, PartialEq)]
pub struct SignalTypeRef {
    /// The identifier of the message that holds the signal.
    pub message_id: MessageId,
    /// The name of the signal.
    pub signal_name: String,
    /// The name of the signal type.
    pub signal_type_name: String,
}

/// The mathematical value of a [`SignalTypeRef`].
pub ghost struct SignalTypeRefView {
    pub message_id: MessageId,
    pub signal_name: Seq<char>,
    pub signal_type_name: Seq<char>,
}

impl DeepView for SignalTypeRef {
    type V = SignalTypeRefView;

    open spec fn deep_view(&self) -> SignalTypeRefView {
        SignalTypeRefView {
            message_id: self.message_id.deep_view(),
            signal_name: self.signal_name.deep_view(),
            signal_type_name: self.signal_type_name.deep_view(),
        }
    }
}

/// A named group of signals within one message.
#[derive(Clone, Debug, PartialEq)]
pub struct SignalGroups {
    /// The identifier of the message.
    pub message_id: MessageId,
    /// The name of the group.
    pub signal_group_name: String,
    /// The number of repetitions.
    pub repetitions: u64,
    /// The names of the signals in the group.
    pub signal_names: Vec<String>,
}

/// The mathematical value of a [`SignalGroups`].
pub ghost struct SignalGroupsView {
    pub message_id: MessageId,
    pub signal_group_name: Seq<char>,
    pub repetitions: u64,
    pub signal_names: Seq<Seq<char>>,
}

impl DeepView for SignalGroups {
    type V = SignalGroupsView;

    open spec fn deep_view(&self) -> SignalGroupsView {
        SignalGroupsView {
            message_id: self.message_id.deep_view(),
            signal_group_name: self.signal_group_name.deep_view(),
            repetitions: self.repetitions.deep_view(),
            signal_names: self.signal_names.deep_view(),
        }
    }
}

/// The numeric encoding of one signal.
#[derive(Clone, Debug, PartialEq)]
pub struct SignalExtendedValueTypeList {
    /// The identifier of the message that holds the signal.
    pub message_id: MessageId,
    /// The name of the signal.
    pub signal_name: String,
    /// The encoding of the raw value.
    pub signal_extended_value_type: SignalExtendedValueType,
}

/// The mathematical value of a [`SignalExtendedValueTypeList`].
pub ghost struct SignalExtendedValueTypeListView {
    pub message_id: MessageId,
    pub signal_name: Seq<char>,
    pub signal_extended_value_type: SignalExtendedValueType,
}

impl DeepView for SignalExtendedValueTypeList {
    type V = SignalExtendedValueTypeListView;

    open spec fn deep_view(&self) -> SignalExtendedValueTypeListView {
        SignalExtendedValueTypeListView {
            message_id: self.message_id.deep_view(),
            signal_name: self.signal_name.deep_view(),
            signal_extended_value_type: self.signal_extended_value_type.deep_view(),
        }
    }
}

impl SignalExtendedValueTypeList {
    /// The identifier of the message that holds the signal.
    pub fn message_id(&self) -> (r: &MessageId)
        ensures
            *r == self.message_id,
    {
        &self.message_id
    }

    /// The name of the signal.
    pub fn signal_name(&self) -> (r: &String)
        ensures
            *r == self.signal_name,
    {
        &self.signal_name
    }

    /// The encoding of the raw value.
    pub fn signal_extended_value_type(&self) -> (r: &SignalExtendedValueType)
        ensures
            *r == self.signal_extended_value_type,
    {
        &self.signal_extended_value_type
    }
}
/// A signal type:
/// `SGTYPE_ name: size@order sign (factor,offset) [min|max] "unit" default table;`,
/// after optional white space and up to the end of the line.
pub open spec fn signal_type_of(s: Seq<u8>) -> Parsed<SignalTypeView> {
    let signal_type_name = then(
        skip(word(multispace0_of(s), "SGTYPE_"), SPACE),
        |i: Seq<u8>| c_ident_of(i),
    );
    let signal_size = then(skip(skip(signal_type_name, COLON), SPACE), |i: Seq<u8>| u64_s_of(i));
    let byte_order = then(skip(signal_size, AT), |i: Seq<u8>| byte_order_of(i));
    let value_type = then(byte_order, |i: Seq<u8>| value_type_of(i));
    let factor = then(skip(skip(value_type, SPACE), BRC_OPEN), |i: Seq<u8>| double_of(i));
    let offset = then(skip(factor, COMMA), |i: Seq<u8>| double_of(i));
    let min = then(
        skip(skip(skip(offset, BRC_CLOSE), SPACE), BRK_OPEN),
        |i: Seq<u8>| double_of(i),
    );
    let max = then(skip(min, PIPE), |i: Seq<u8>| double_of(i));
    let unit = then(skip(skip(max, BRK_CLOSE), SPACE), |i: Seq<u8>| char_string_of(i));
    let default_value = then(skip(unit, SPACE), |i: Seq<u8>| double_of(i));
    let value_table = then(skip(default_value, SPACE), |i: Seq<u8>| c_ident_of(i));
    let end = then(skip(value_table, SEMI_COLON), |i: Seq<u8>| eol_of(i));
    give(
        end,
        SignalTypeView {
            signal_type_name: value(signal_type_name),
            signal_size: value(signal_size),
            byte_order: value(byte_order),
            value_type: value(value_type),
            factor: value(factor),
            offset: value(offset),
            min: value(min),
            max: value(max),
            unit: value(unit),
            default_value: value(default_value),
            value_table: value(value_table),
        },
    )
}

/// Reads one signal type.
pub fn signal_type<'a>(input: &'a [u8]) -> (r: Result<(&'a [u8], SignalType), ParseError<'a>>)
    ensures
        outcome(r) == signal_type_of(input@),
{
    let (i, _) = multispace0(input)?;
    let (i, _) = tag(i, "SGTYPE_")?;
    let (i, _) = ss(i)?;
    let (i, signal_type_name) = c_ident(i)?;
    let (i, _) = colon(i)?;
    let (i, _) = ss(i)?;
    let (i, signal_size) = u64_s(i)?;
    let (i, _) = at(i)?;
    let (i, byte_order) = byte_order(i)?;
    let (i, value_type) = value_type(i)?;
    let (i, _) = ss(i)?;
    let (i, _) = brc_open(i)?;
    let (i, factor) = double(i)?;
    let (i, _) = comma(i)?;
    let (i, offset) = double(i)?;
    let (i, _) = brc_close(i)?;
    let (i, _) = ss(i)?;
    let (i, _) = brk_open(i)?;
    let (i, min) = double(i)?;
    let (i, _) = pipe(i)?;
    let (i, max) = double(i)?;
    let (i, _) = brk_close(i)?;
    let (i, _) = ss(i)?;
    let (i, unit) = char_string(i)?;
    let (i, _) = ss(i)?;
    let (i, default_value) = double(i)?;
    let (i, _) = ss(i)?;
    let (i, value_table) = c_ident(i)?;
    let (i, _) = semi_colon(i)?;
    let (i, _) = eol(i)?;
    Ok(
        (
            i,
            SignalType {
                signal_type_name,
                signal_size,
                byte_order,
                value_type,
                factor,
                offset,
                min,
                max,
                unit,
                default_value,
                value_table,
            },
        ),
    )
}

impl Rule for SignalType {
    type Output = SignalType;

    open spec fn parsed(s: Seq<u8>) -> Parsed<SignalTypeView> {
        signal_type_of(s)
    }

    proof fn lemma_within(s: Seq<u8>) {
        lemma_signal_type_within(s);
    }

    fn parse<'a>(input: &'a [u8]) -> (r: Result<(&'a [u8], SignalType), ParseError<'a>>) {
        signal_type(input)
    }
}

/// The signal type of a signal: `SGTYPE_ id name : type;`, after optional
/// white space and up to the end of the line.
pub open spec fn signal_type_ref_of(s: Seq<u8>) -> Parsed<SignalTypeRefView> {
    let message_id = then(
        skip(word(multispace0_of(s), "SGTYPE_"), SPACE),
        |i: Seq<u8>| message_id_of(i),
    );
    let signal_name = then(skip(message_id, SPACE), |i: Seq<u8>| c_ident_of(i));
    let signal_type_name = then(
        skip(skip(skip(signal_name, SPACE), COLON), SPACE),
        |i: Seq<u8>| c_ident_of(i),
    );
    let end = then(skip(signal_type_name, SEMI_COLON), |i: Seq<u8>| eol_of(i));
    give(
        end,
        SignalTypeRefView {
            message_id: value(message_id),
            signal_name: value(signal_name),
            signal_type_name: value(signal_type_name),
        },
    )
}

/// Reads the signal type of one signal.
pub fn signal_type_ref<'a>(input: &'a [u8]) -> (r: Result<
    (&'a [u8], SignalTypeRef),
    ParseError<'a>,
>)
    ensures
        outcome(r) == signal_type_ref_of(input@),
{
    let (i, _) = multispace0(input)?;
    let (i, _) = tag(i, "SGTYPE_")?;
    let (i, _) = ss(i)?;
    let (i, message_id) = message_id(i)?;
    let (i, _) = ss(i)?;
    let (i, signal_name) = c_ident(i)?;
    let (i, _) = ss(i)?;
    let (i, _) = colon(i)?;
    let (i, _) = ss(i)?;
    let (i, signal_type_name) = c_ident(i)?;
    let (i, _) = semi_colon(i)?;
    let (i, _) = eol(i)?;
    Ok((i, SignalTypeRef { message_id, signal_name, signal_type_name }))
}

impl Rule for SignalTypeRef {
    type Output = SignalTypeRef;

    open spec fn parsed(s: Seq<u8>) -> Parsed<SignalTypeRefView> {
        signal_type_ref_of(s)
    }

    proof fn lemma_within(s: Seq<u8>) {
        lemma_signal_type_ref_within(s);
    }

    fn parse<'a>(input: &'a [u8]) -> (r: Result<(&'a [u8], SignalTypeRef), ParseError<'a>>) {
        signal_type_ref(input)
    }
}

/// A signal group: the keyword `SIG_GROUP_`, the message identifier, the
/// name of the group and the number of repetitions, one directly after the
/// other, then ` : `, the names of the signals separated by commas, and a
/// semicolon, after optional white space and up to the end of the line.
pub open spec fn signal_groups_of(s: Seq<u8>) -> Parsed<SignalGroupsView> {
    let message_id = then(word(multispace0_of(s), "SIG_GROUP_"), |i: Seq<u8>| message_id_of(i));
    let signal_group_name = then(message_id, |i: Seq<u8>| c_ident_of(i));
    let repetitions = then(signal_group_name, |i: Seq<u8>| u64_s_of(i));
    let signal_names = then(
        skip(skip(skip(repetitions, SPACE), COLON), SPACE),
        |i: Seq<u8>| c_ident_vec_of(i),
    );
    let end = then(skip(signal_names, SEMI_COLON), |i: Seq<u8>| eol_of(i));
    give(
        end,
        SignalGroupsView {
            message_id: value(message_id),
            signal_group_name: value(signal_group_name),
            repetitions: value(repetitions),
            signal_names: value(signal_names),
        },
    )
}

/// Reads one signal group.
pub fn signal_groups<'a>(input: &'a [u8]) -> (r: Result<(&'a [u8], SignalGroups), ParseError<'a>>)
    ensures
        outcome(r) == signal_groups_of(input@),
{
    let (i, _) = multispace0(input)?;
    let (i, _) = tag(i, "SIG_GROUP_")?;
    let (i, message_id) = message_id(i)?;
    let (i, signal_group_name) = c_ident(i)?;
    let (i, repetitions) = u64_s(i)?;
    let (i, _) = ss(i)?;
    let (i, _) = colon(i)?;
    let (i, _) = ss(i)?;
    let (i, signal_names) = c_ident_vec(i)?;
    let (i, _) = semi_colon(i)?;
    let (i, _) = eol(i)?;
    Ok((i, SignalGroups { message_id, signal_group_name, repetitions, signal_names }))
}

impl Rule for SignalGroups {
    type Output = SignalGroups;

    open spec fn parsed(s: Seq<u8>) -> Parsed<SignalGroupsView> {
        signal_groups_of(s)
    }

    proof fn lemma_within(s: Seq<u8>) {
        lemma_signal_groups_within(s);
    }

    fn parse<'a>(input: &'a [u8]) -> (r: Result<(&'a [u8], SignalGroups), ParseError<'a>>) {
        signal_groups(input)
    }
}

/// The numeric encoding of a signal: `SIG_VALTYPE_ id name code;`, after
/// optional white space and up to the end of the line.
pub open spec fn signal_extended_value_type_list_of(s: Seq<u8>) -> Parsed<
    SignalExtendedValueTypeListView,
> {
    let message_id = then(
        skip(word(multispace0_of(s), "SIG_VALTYPE_"), SPACE),
        |i: Seq<u8>| message_id_of(i),
    );
    let signal_name = then(skip(message_id, SPACE), |i: Seq<u8>| c_ident_of(i));
    let signal_extended_value_type = then(
        skip(signal_name, SPACE),
        |i: Seq<u8>| signal_extended_value_type_of(i),
    );
    let end = then(skip(signal_extended_value_type, SEMI_COLON), |i: Seq<u8>| eol_of(i));
    give(
        end,
        SignalExtendedValueTypeListView {
            message_id: value(message_id),
            signal_name: value(signal_name),
            signal_extended_value_type: value(signal_extended_value_type),
        },
    )
}

/// Reads the numeric encoding of one signal.
pub fn signal_extended_value_type_list<'a>(input: &'a [u8]) -> (r: Result<
    (&'a [u8], SignalExtendedValueTypeList),
    ParseError<'a>,
>)
    ensures
        outcome(r) == signal_extended_value_type_list_of(input@),
{
    let (i, _) = multispace0(input)?;
    let (i, _) = tag(i, "SIG_VALTYPE_")?;
    let (i, _) = ss(i)?;
    let (i, message_id) = message_id(i)?;
    let (i, _) = ss(i)?;
    let (i, signal_name) = c_ident(i)?;
    let (i, _) = ss(i)?;
    let (i, signal_extended_value_type) = signal_extended_value_type(i)?;
    let (i, _) = semi_colon(i)?;
    let (i, _) = eol(i)?;
    Ok((i, SignalExtendedValueTypeList { message_id, signal_name, signal_extended_value_type }))
}

impl Rule for SignalExtendedValueTypeList {
    type Output = SignalExtendedValueTypeList;

    open spec fn parsed(s: Seq<u8>) -> Parsed<SignalExtendedValueTypeListView> {
        signal_extended_value_type_list_of(s)
    }

    proof fn lemma_within(s: Seq<u8>) {
        lemma_signal_extended_value_type_list_within(s);
    }

    fn parse<'a>(input: &'a [u8]) -> (r: Result<
        (&'a [u8], SignalExtendedValueTypeList),
        ParseError<'a>,
    >) {
        signal_extended_value_type_list(input)
    }
}

/// A signal type leaves a final part of its input, and fails inside it.
pub broadcast proof fn lemma_signal_type_within(s: Seq<u8>)
    ensures
        within(#[trigger] signal_type_of(s), s),
{
    broadcast use {group_lexical_within, group_scalar_within};
}

/// The signal type of a signal leaves a final part of its input, and fails
/// inside it.
pub broadcast proof fn lemma_signal_type_ref_within(s: Seq<u8>)
    ensures
        within(#[trigger] signal_type_ref_of(s), s),
{
    broadcast use {group_lexical_within, group_scalar_within};
}

/// A signal group leaves a final part of its input, and fails inside it.
pub broadcast proof fn lemma_signal_groups_within(s: Seq<u8>)
    ensures
        within(#[trigger] signal_groups_of(s), s),
{
    broadcast use {group_lexical_within, group_scalar_within};
}

/// The numeric encoding of a signal leaves a final part of its input, and
/// fails inside it.
pub broadcast proof fn lemma_signal_extended_value_type_list_within(s: Seq<u8>)
    ensures
        within(#[trigger] signal_extended_value_type_list_of(s), s),
{
    broadcast use {group_lexical_within, group_scalar_within};
}

/// The rules of signal types stay inside their input.
pub broadcast group group_signal_type_within {
    lemma_signal_type_within,
    lemma_signal_type_ref_within,
    lemma_signal_groups_within,
    lemma_signal_extended_value_type_list_within,
}

} // verus!
