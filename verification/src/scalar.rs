//! The scalar domains: enumerations that the format writes as one fixed
//! character or tag each.

use vstd::prelude::*;
use crate::error::{fail, outcome, within, ErrorKind, Failure, ParseError, Parsed};
use crate::lexical::{
    char_of, delimiter, group_lexical_within, ss, tag, tag_of, u64_s, u64_s_of, MINUS, PLUS, SPACE,
};
use crate::rule::{give, or, then, value};

verus! {

/// The digit `0`.
pub const DIGIT_0: u8 = 0x30;

/// The digit `1`.
pub const DIGIT_1: u8 = 0x31;

/// The digit `2`.
pub const DIGIT_2: u8 = 0x32;

/// The digit `3`.
pub const DIGIT_3: u8 = 0x33;

/// The letter `m`, which marks a multiplexed signal.
pub const LOWER_M: u8 = 0x6d;

/// The letter `M`, which marks the multiplexor switch.
pub const UPPER_M: u8 = 0x4d;

/// The identifier of a message.
#[derive(Copy, Clone, Debug, PartialEq)]
pub struct MessageId(pub u64);

impl DeepView for MessageId {
    type V = MessageId;

    open spec fn deep_view(&self) -> MessageId {
        *self
    }
}

/// The role of a signal in multiplexing.
#[derive(Copy, Clone, Debug, PartialEq)]
pub enum MultiplexIndicator {
    /// The multiplexor switch.
    Multiplexor,
    /// A signal that is present when the switch has the given value.
    MultiplexedSignal(u64),
    /// An ordinary signal.
    Plain,
}

impl DeepView for MultiplexIndicator {
    type V = MultiplexIndicator;

    open spec fn deep_view(&self) -> MultiplexIndicator {
        *self
    }
}

/// The order of the bytes of a signal.
#[derive(Copy, Clone, Debug, PartialEq)]
pub enum ByteOrder {
    LittleEndian,
    BigEndian,
}

impl DeepView for ByteOrder {
    type V = ByteOrder;

    open spec fn deep_view(&self) -> ByteOrder {
        *self
    }
}

/// Whether a signal's raw value is signed.
#[derive(Copy, Clone, Debug, PartialEq)]
pub enum ValueType {
    Signed,
    Unsigned,
}

impl DeepView for ValueType {
    type V = ValueType;

    open spec fn deep_view(&self) -> ValueType {
        *self
    }
}

/// The type of an environment variable.
#[derive(Copy, Clone, Debug, PartialEq)]
pub enum EnvType {
    EnvTypeFloat,
    EnvTypeu64,
    EnvTypeData,
}

impl DeepView for EnvType {
    type V = EnvType;

    open spec fn deep_view(&self) -> EnvType {
        *self
    }
}

/// How an environment variable may be accessed.
#[derive(Copy, Clone, Debug, PartialEq)]
pub enum AccessType {
    DummyNodeVector0,
    DummyNodeVector1,
    DummyNodeVector2,
    DummyNodeVector3,
}

impl DeepView for AccessType {
    type V = AccessType;

    open spec fn deep_view(&self) -> AccessType {
        *self
    }
}

/// The numeric encoding of a signal's raw value.
#[derive(Copy, Clone, Debug, PartialEq)]
pub enum SignalExtendedValueType {
    SignedOrUnsignedInteger,
    IEEEfloat32Bit,
    IEEEdouble64bit,
}

impl DeepView for SignalExtendedValueType {
    type V = SignalExtendedValueType;

    open spec fn deep_view(&self) -> SignalExtendedValueType {
        *self
    }
}

/// `1`, for little endian.
pub open spec fn little_endian_of(s: Seq<u8>) -> Parsed<ByteOrder> {
    give(char_of(s, DIGIT_1), ByteOrder::LittleEndian)
}

/// Recognises the code of little endian.
pub fn little_endian<'a>(input: &'a [u8]) -> (r: Result<(&'a [u8], ByteOrder), ParseError<'a>>)
    ensures
        outcome(r) == little_endian_of(input@),
{
    let (rest, _) = delimiter(input, DIGIT_1)?;
    Ok((rest, ByteOrder::LittleEndian))
}

/// `0`, for big endian.
pub open spec fn big_endian_of(s: Seq<u8>) -> Parsed<ByteOrder> {
    give(char_of(s, DIGIT_0), ByteOrder::BigEndian)
}

/// Recognises the code of big endian.
pub fn big_endian<'a>(input: &'a [u8]) -> (r: Result<(&'a [u8], ByteOrder), ParseError<'a>>)
    ensures
        outcome(r) == big_endian_of(input@),
{
    let (rest, _) = delimiter(input, DIGIT_0)?;
    Ok((rest, ByteOrder::BigEndian))
}

/// A byte order: `1` or `0`. Anything else fails as `Alt`.
pub open spec fn byte_order_of(s: Seq<u8>) -> Parsed<ByteOrder> {
    or(little_endian_of(s), or(big_endian_of(s), fail(s, ErrorKind::Alt)))
}

/// Recognises a byte order.
pub fn byte_order<'a>(input: &'a [u8]) -> (r: Result<(&'a [u8], ByteOrder), ParseError<'a>>)
    ensures
        outcome(r) == byte_order_of(input@),
{
    if let Ok(done) = little_endian(input) {
        return Ok(done);
    }
    if let Ok(done) = big_endian(input) {
        return Ok(done);
    }
    Err(ParseError { input, kind: ErrorKind::Alt })
}

/// The code `0` decodes to big endian, the code `1` to little endian, one
/// byte is consumed, and no input that starts otherwise decodes at all.
pub proof fn lemma_byte_order_codes(s: Seq<u8>)
    ensures
        s.len() > 0 && s[0] == DIGIT_0 ==> byte_order_of(s) == Ok::<_, Failure>(
            (s.subrange(1, s.len() as int), ByteOrder::BigEndian),
        ),
        s.len() > 0 && s[0] == DIGIT_1 ==> byte_order_of(s) == Ok::<_, Failure>(
            (s.subrange(1, s.len() as int), ByteOrder::LittleEndian),
        ),
        byte_order_of(s) is Ok <==> s.len() > 0 && (s[0] == DIGIT_0 || s[0] == DIGIT_1),
{
}

/// A message identifier: an unsigned decimal number.
pub open spec fn message_id_of(s: Seq<u8>) -> Parsed<MessageId> {
    give(u64_s_of(s), MessageId(value(u64_s_of(s))))
}

/// Recognises a message identifier.
pub fn message_id<'a>(input: &'a [u8]) -> (r: Result<(&'a [u8], MessageId), ParseError<'a>>)
    ensures
        outcome(r) == message_id_of(input@),
{
    let (rest, id) = u64_s(input)?;
    Ok((rest, MessageId(id)))
}

/// `-`, for signed.
pub open spec fn signed_of(s: Seq<u8>) -> Parsed<ValueType> {
    give(char_of(s, MINUS), ValueType::Signed)
}

/// Recognises the code of a signed value.
pub fn signed<'a>(input: &'a [u8]) -> (r: Result<(&'a [u8], ValueType), ParseError<'a>>)
    ensures
        outcome(r) == signed_of(input@),
{
    let (rest, _) = delimiter(input, MINUS)?;
    Ok((rest, ValueType::Signed))
}

/// `+`, for unsigned.
pub open spec fn unsigned_of(s: Seq<u8>) -> Parsed<ValueType> {
    give(char_of(s, PLUS), ValueType::Unsigned)
}

/// Recognises the code of an unsigned value.
pub fn unsigned<'a>(input: &'a [u8]) -> (r: Result<(&'a [u8], ValueType), ParseError<'a>>)
    ensures
        outcome(r) == unsigned_of(input@),
{
    let (rest, _) = delimiter(input, PLUS)?;
    Ok((rest, ValueType::Unsigned))
}

/// A sign code: `-` or `+`. Anything else fails as `Alt`.
pub open spec fn value_type_of(s: Seq<u8>) -> Parsed<ValueType> {
    or(signed_of(s), or(unsigned_of(s), fail(s, ErrorKind::Alt)))
}

/// Recognises a sign code.
pub fn value_type<'a>(input: &'a [u8]) -> (r: Result<(&'a [u8], ValueType), ParseError<'a>>)
    ensures
        outcome(r) == value_type_of(input@),
{
    if let Ok(done) = signed(input) {
        return Ok(done);
    }
    if let Ok(done) = unsigned(input) {
        return Ok(done);
    }
    Err(ParseError { input, kind: ErrorKind::Alt })
}

/// The code `-` decodes to signed, the code `+` to unsigned, one byte is
/// consumed, and no input that starts otherwise decodes at all.
pub proof fn lemma_value_type_codes(s: Seq<u8>)
    ensures
        s.len() > 0 && s[0] == MINUS ==> value_type_of(s) == Ok::<_, Failure>(
            (s.subrange(1, s.len() as int), ValueType::Signed),
        ),
        s.len() > 0 && s[0] == PLUS ==> value_type_of(s) == Ok::<_, Failure>(
            (s.subrange(1, s.len() as int), ValueType::Unsigned),
        ),
        value_type_of(s) is Ok <==> s.len() > 0 && (s[0] == MINUS || s[0] == PLUS),
{
}

/// A multiplexed signal: a space, `m`, the value of the switch, a space.
pub open spec fn multiplexer_of(s: Seq<u8>) -> Parsed<MultiplexIndicator> {
    let lead = char_of(s, SPACE);
    let mark = then(lead, |i: Seq<u8>| char_of(i, LOWER_M));
    let selector = then(mark, |i: Seq<u8>| u64_s_of(i));
    let trail = then(selector, |i: Seq<u8>| char_of(i, SPACE));
    give(trail, MultiplexIndicator::MultiplexedSignal(value(selector)))
}

/// Recognises the mark of a multiplexed signal.
pub fn multiplexer<'a>(input: &'a [u8]) -> (r: Result<
    (&'a [u8], MultiplexIndicator),
    ParseError<'a>,
>)
    ensures
        outcome(r) == multiplexer_of(input@),
{
    let (i, _) = ss(input)?;
    let (i, _) = delimiter(i, LOWER_M)?;
    let (i, selector) = u64_s(i)?;
    let (i, _) = ss(i)?;
    Ok((i, MultiplexIndicator::MultiplexedSignal(selector)))
}

/// The multiplexor switch: a space, `M`, a space.
pub open spec fn multiplexor_of(s: Seq<u8>) -> Parsed<MultiplexIndicator> {
    let lead = char_of(s, SPACE);
    let mark = then(lead, |i: Seq<u8>| char_of(i, UPPER_M));
    let trail = then(mark, |i: Seq<u8>| char_of(i, SPACE));
    give(trail, MultiplexIndicator::Multiplexor)
}

/// Recognises the mark of the multiplexor switch.
pub fn multiplexor<'a>(input: &'a [u8]) -> (r: Result<
    (&'a [u8], MultiplexIndicator),
    ParseError<'a>,
>)
    ensures
        outcome(r) == multiplexor_of(input@),
{
    let (i, _) = ss(input)?;
    let (i, _) = delimiter(i, UPPER_M)?;
    let (i, _) = ss(i)?;
    Ok((i, MultiplexIndicator::Multiplexor))
}

/// An ordinary signal: just a space.
pub open spec fn plain_of(s: Seq<u8>) -> Parsed<MultiplexIndicator> {
    give(char_of(s, SPACE), MultiplexIndicator::Plain)
}

/// Recognises the absence of a multiplexing mark.
pub fn plain<'a>(input: &'a [u8]) -> (r: Result<(&'a [u8], MultiplexIndicator), ParseError<'a>>)
    ensures
        outcome(r) == plain_of(input@),
{
    let (i, _) = ss(input)?;
    Ok((i, MultiplexIndicator::Plain))
}

/// A multiplexing indicator: the mark of a multiplexed signal, else that of
/// the switch, else the plain space. The plain form is a prefix of the other
/// two, so it comes last. Where none matches the failure is `Alt`.
pub open spec fn multiplexer_indicator_of(s: Seq<u8>) -> Parsed<MultiplexIndicator> {
    or(multiplexer_of(s), or(multiplexor_of(s), or(plain_of(s), fail(s, ErrorKind::Alt))))
}

/// Recognises a multiplexing indicator.
pub fn multiplexer_indicator<'a>(input: &'a [u8]) -> (r: Result<
    (&'a [u8], MultiplexIndicator),
    ParseError<'a>,
>)
    ensures
        outcome(r) == multiplexer_indicator_of(input@),
{
    if let Ok(done) = multiplexer(input) {
        return Ok(done);
    }
    if let Ok(done) = multiplexor(input) {
        return Ok(done);
    }
    if let Ok(done) = plain(input) {
        return Ok(done);
    }
    Err(ParseError { input, kind: ErrorKind::Alt })
}

/// A multiplexing indicator starts with a space: on empty input, and on
/// input that starts with anything else, such as a digit, it fails.
pub proof fn lemma_multiplexer_indicator_needs_space(s: Seq<u8>)
    ensures
        multiplexer_indicator_of(s) is Ok <==> s.len() > 0 && s[0] == SPACE,
        !(s.len() > 0 && s[0] == SPACE) ==> multiplexer_indicator_of(s) == fail::<
            MultiplexIndicator,
        >(s, ErrorKind::Alt),
{
}

/// The type of an environment variable: `0` for a float, `1` for an
/// integer, `2` for data. Anything else fails as `Alt`.
pub open spec fn env_var_type_of(s: Seq<u8>) -> Parsed<EnvType> {
    or(
        give(char_of(s, DIGIT_0), EnvType::EnvTypeFloat),
        or(
            give(char_of(s, DIGIT_1), EnvType::EnvTypeu64),
            or(give(char_of(s, DIGIT_2), EnvType::EnvTypeData), fail(s, ErrorKind::Alt)),
        ),
    )
}

/// Recognises the type of an environment variable.
pub fn env_var_type<'a>(input: &'a [u8]) -> (r: Result<(&'a [u8], EnvType), ParseError<'a>>)
    ensures
        outcome(r) == env_var_type_of(input@),
{
    if let Ok((rest, _)) = delimiter(input, DIGIT_0) {
        return Ok((rest, EnvType::EnvTypeFloat));
    }
    if let Ok((rest, _)) = delimiter(input, DIGIT_1) {
        return Ok((rest, EnvType::EnvTypeu64));
    }
    if let Ok((rest, _)) = delimiter(input, DIGIT_2) {
        return Ok((rest, EnvType::EnvTypeData));
    }
    Err(ParseError { input, kind: ErrorKind::Alt })
}

/// The access type that goes with a digit from `0` to `3`. Anything else
/// fails as `Alt`.
pub open spec fn access_digit_of(s: Seq<u8>) -> Parsed<AccessType> {
    or(
        give(char_of(s, DIGIT_0), AccessType::DummyNodeVector0),
        or(
            give(char_of(s, DIGIT_1), AccessType::DummyNodeVector1),
            or(
                give(char_of(s, DIGIT_2), AccessType::DummyNodeVector2),
                or(
                    give(char_of(s, DIGIT_3), AccessType::DummyNodeVector3),
                    fail(s, ErrorKind::Alt),
                ),
            ),
        ),
    )
}

/// An access type: the keyword `DUMMY_NODE_VECTOR` and a digit from `0` to
/// `3`.
pub open spec fn access_type_of(s: Seq<u8>) -> Parsed<AccessType> {
    then(tag_of(s, "DUMMY_NODE_VECTOR"), |i: Seq<u8>| access_digit_of(i))
}

/// Recognises an access type.
pub fn access_type<'a>(input: &'a [u8]) -> (r: Result<(&'a [u8], AccessType), ParseError<'a>>)
    ensures
        outcome(r) == access_type_of(input@),
{
    let (i, _) = tag(input, "DUMMY_NODE_VECTOR")?;
    if let Ok((rest, _)) = delimiter(i, DIGIT_0) {
        return Ok((rest, AccessType::DummyNodeVector0));
    }
    if let Ok((rest, _)) = delimiter(i, DIGIT_1) {
        return Ok((rest, AccessType::DummyNodeVector1));
    }
    if let Ok((rest, _)) = delimiter(i, DIGIT_2) {
        return Ok((rest, AccessType::DummyNodeVector2));
    }
    if let Ok((rest, _)) = delimiter(i, DIGIT_3) {
        return Ok((rest, AccessType::DummyNodeVector3));
    }
    Err(ParseError { input: i, kind: ErrorKind::Alt })
}

/// `0`, for an integer encoding.
pub open spec fn signed_or_unsigned_integer_of(s: Seq<u8>) -> Parsed<SignalExtendedValueType> {
    give(tag_of(s, "0"), SignalExtendedValueType::SignedOrUnsignedInteger)
}

/// Recognises the code of an integer encoding.
pub fn signed_or_unsigned_integer<'a>(input: &'a [u8]) -> (r: Result<
    (&'a [u8], SignalExtendedValueType),
    ParseError<'a>,
>)
    ensures
        outcome(r) == signed_or_unsigned_integer_of(input@),
{
    let (rest, _) = tag(input, "0")?;
    Ok((rest, SignalExtendedValueType::SignedOrUnsignedInteger))
}

/// `1`, for a 32 bit float encoding.
pub open spec fn ieee_float_32bit_of(s: Seq<u8>) -> Parsed<SignalExtendedValueType> {
    give(tag_of(s, "1"), SignalExtendedValueType::IEEEfloat32Bit)
}

/// Recognises the code of a 32 bit float encoding.
pub fn ieee_float_32bit<'a>(input: &'a [u8]) -> (r: Result<
    (&'a [u8], SignalExtendedValueType),
    ParseError<'a>,
>)
    ensures
        outcome(r) == ieee_float_32bit_of(input@),
{
    let (rest, _) = tag(input, "1")?;
    Ok((rest, SignalExtendedValueType::IEEEfloat32Bit))
}

/// `2`, for a 64 bit float encoding.
pub open spec fn ieee_double_64bit_of(s: Seq<u8>) -> Parsed<SignalExtendedValueType> {
    give(tag_of(s, "2"), SignalExtendedValueType::IEEEdouble64bit)
}

/// Recognises the code of a 64 bit float encoding.
pub fn ieee_double_64bit<'a>(input: &'a [u8]) -> (r: Result<
    (&'a [u8], SignalExtendedValueType),
    ParseError<'a>,
>)
    ensures
        outcome(r) == ieee_double_64bit_of(input@),
{
    let (rest, _) = tag(input, "2")?;
    Ok((rest, SignalExtendedValueType::IEEEdouble64bit))
}

/// The encoding of a signal's raw value: `0`, `1` or `2`. Anything else
/// fails as `Alt`.
pub open spec fn signal_extended_value_type_of(s: Seq<u8>) -> Parsed<SignalExtendedValueType> {
    or(
        signed_or_unsigned_integer_of(s),
        or(ieee_float_32bit_of(s), or(ieee_double_64bit_of(s), fail(s, ErrorKind::Alt))),
    )
}

/// Recognises the encoding of a signal's raw value.
pub fn signal_extended_value_type<'a>(input: &'a [u8]) -> (r: Result<
    (&'a [u8], SignalExtendedValueType),
    ParseError<'a>,
>)
    ensures
        outcome(r) == signal_extended_value_type_of(input@),
{
    if let Ok(done) = signed_or_unsigned_integer(input) {
        return Ok(done);
    }
    if let Ok(done) = ieee_float_32bit(input) {
        return Ok(done);
    }
    if let Ok(done) = ieee_double_64bit(input) {
        return Ok(done);
    }
    Err(ParseError { input, kind: ErrorKind::Alt })
}

/// A byte order leaves a final part of its input, and fails at its start.
pub broadcast proof fn lemma_byte_order_within(s: Seq<u8>)
    ensures
        within(#[trigger] byte_order_of(s), s),
{
    broadcast use group_lexical_within;
}

/// A sign code leaves a final part of its input, and fails at its start.
pub broadcast proof fn lemma_value_type_within(s: Seq<u8>)
    ensures
        within(#[trigger] value_type_of(s), s),
{
    broadcast use group_lexical_within;
}

/// A message identifier leaves a final part of its input, and fails at its
/// start.
pub broadcast proof fn lemma_message_id_within(s: Seq<u8>)
    ensures
        within(#[trigger] message_id_of(s), s),
{
    broadcast use group_lexical_within;
}

/// A multiplexing indicator leaves a final part of its input, and fails at
/// its start.
pub broadcast proof fn lemma_multiplexer_indicator_within(s: Seq<u8>)
    ensures
        within(#[trigger] multiplexer_indicator_of(s), s),
{
    broadcast use group_lexical_within;
}

/// The type of an environment variable leaves a final part of its input,
/// and fails at its start.
pub broadcast proof fn lemma_env_var_type_within(s: Seq<u8>)
    ensures
        within(#[trigger] env_var_type_of(s), s),
{
    broadcast use group_lexical_within;
}

/// An access type leaves a final part of its input, and fails inside it.
pub broadcast proof fn lemma_access_type_within(s: Seq<u8>)
    ensures
        within(#[trigger] access_type_of(s), s),
{
    broadcast use group_lexical_within;
}

/// The encoding of a signal leaves a final part of its input, and fails at
/// its start.
pub broadcast proof fn lemma_signal_extended_value_type_within(s: Seq<u8>)
    ensures
        within(#[trigger] signal_extended_value_type_of(s), s),
{
    broadcast use group_lexical_within;
}

/// The scalar rules stay inside their input.
pub broadcast group group_scalar_within {
    lemma_byte_order_within,
    lemma_value_type_within,
    lemma_message_id_within,
    lemma_multiplexer_indicator_within,
    lemma_env_var_type_within,
    lemma_access_type_within,
    lemma_signal_extended_value_type_within,
}

} // verus!
