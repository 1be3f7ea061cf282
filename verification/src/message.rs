//! Messages and their signals. A message is its `BO_` header followed by
//! the `SG_` lines that belong to it: as many as match, one after another.

use vstd::prelude::*;
use vstd::string::StringSliceAdditionalSpecFns;
use crate::error::{fail, outcome, within, ErrorKind, ParseError, Parsed};
use crate::lexical::{
    at, brc_close, brc_open, brk_close, brk_open, c_ident, c_ident_of, c_ident_vec, c_ident_vec_of,
    char_of, char_string, char_string_of, colon, comma, double, double_of, eol, eol_of,
    group_lexical_within, lemma_multispace0_within, lemma_tag_bytes, lemma_tag_within, multispace0,
    multispace0_of, pipe, semi_colon, skip, ss, tag, tag_of, u64_s, u64_s_of, word, Double, AT,
    BRC_CLOSE, BRC_OPEN, BRK_CLOSE, BRK_OPEN, COLON, COMMA, PIPE, SEMI_COLON, SPACE,
};
use crate::rule::{
    give, lemma_many1_within, lemma_repeat_maximal, many1, many1_of, or, then, value, Rule,
};
use crate::scalar::{
    byte_order, byte_order_of, group_scalar_within, message_id, message_id_of,
    multiplexer_indicator, multiplexer_indicator_of, value_type, value_type_of, ByteOrder,
    MessageId, MultiplexIndicator, ValueType,
};

verus! {

/// The sender of a message.
#[derive(Clone, Debug, PartialEq)]
pub enum Transmitter {
    /// The node that transmits the message.
    NodeName(String),
    /// The message has no sender.
    VectorXXX,
}

/// The mathematical value of a [`Transmitter`].
pub ghost enum TransmitterView {
    NodeName(Seq<char>),
    VectorXXX,
}

impl DeepView for Transmitter {
    type V = TransmitterView;

    open spec fn deep_view(&self) -> TransmitterView {
        match self {
            Transmitter::NodeName(v0) => TransmitterView::NodeName(v0.deep_view()),
            Transmitter::VectorXXX => TransmitterView::VectorXXX,
        }
    }
}

/// One bit field within the payload of a message.
#[derive(Clone, Debug, PartialEq)]
pub struct Signal {
    /// The name of the signal.
    pub name: String,
    /// The role of the signal in multiplexing.
    pub multiplexer_indicator: MultiplexIndicator,
    /// The position of the first bit.
    pub start_bit: u64,
    /// The width in bits.
    pub signal_size: u64,
    /// The order of the bytes.
    pub byte_order: ByteOrder,
    /// Whether the raw value is signed.
    pub value_type: ValueType,
    /// The factor that scales the raw value.
    pub factor: Double,
    /// The offset that is added to the scaled value.
    pub offset: Double,
    /// The least physical value.
    pub min: Double,
    /// The greatest physical value.
    pub max: Double,
    /// The unit of the physical value.
    pub unit: String,
    /// The nodes that receive the signal.
    pub receivers: Vec<String>,
}

/// The mathematical value of a [`Signal`].
pub ghost struct SignalView {
    pub name: Seq<char>,
    pub multiplexer_indicator: MultiplexIndicator,
    pub start_bit: u64,
    pub signal_size: u64,
    pub byte_order: ByteOrder,
    pub value_type: ValueType,
    pub factor: Double,
    pub offset: Double,
    pub min: Double,
    pub max: Double,
    pub unit: Seq<char>,
    pub receivers: Seq<Seq<char>>,
}

impl DeepView for Signal {
    type V = SignalView;

    open spec fn deep_view(&self) -> SignalView {
        SignalView {
            name: self.name.deep_view(),
            multiplexer_indicator: self.multiplexer_indicator.deep_view(),
            start_bit: self.start_bit.deep_view(),
            signal_size: self.signal_size.deep_view(),
            byte_order: self.byte_order.deep_view(),
            value_type: self.value_type.deep_view(),
            factor: self.factor.deep_view(),
            offset: self.offset.deep_view(),
            min: self.min.deep_view(),
            max: self.max.deep_view(),
            unit: self.unit.deep_view(),
            receivers: self.receivers.deep_view(),
        }
    }
}

impl Signal {
    /// The name of the signal.
    pub fn name(&self) -> (r: &String)
        ensures
            *r == self.name,
    {
        &self.name
    }

    /// The role of the signal in multiplexing.
    pub fn multiplexer_indicator(&self) -> (r: &MultiplexIndicator)
        ensures
            *r == self.multiplexer_indicator,
    {
        &self.multiplexer_indicator
    }

    /// The position of the first bit.
    pub fn start_bit(&self) -> (r: &u64)
        ensures
            *r == self.start_bit,
    {
        &self.start_bit
    }

    /// The width in bits.
    pub fn signal_size(&self) -> (r: &u64)
        ensures
            *r == self.signal_size,
    {
        &self.signal_size
    }

    /// The order of the bytes.
    pub fn byte_order(&self) -> (r: &ByteOrder)
        ensures
            *r == self.byte_order,
    {
        &self.byte_order
    }

    /// Whether the raw value is signed.
    pub fn value_type(&self) -> (r: &ValueType)
        ensures
            *r == self.value_type,
    {
        &self.value_type
    }

    /// The factor that scales the raw value.
    pub fn factor(&self) -> (r: &Double)
        ensures
            *r == self.factor,
    {
        &self.factor
    }

    /// The offset that is added to the scaled value.
    pub fn offset(&self) -> (r: &Double)
        ensures
            *r == self.offset,
    {
        &self.offset
    }

    /// The least physical value.
    pub fn min(&self) -> (r: &Double)
        ensures
            *r == self.min,
    {
        &self.min
    }

    /// The greatest physical value.
    pub fn max(&self) -> (r: &Double)
        ensures
            *r == self.max,
    {
        &self.max
    }

    /// The unit of the physical value.
    pub fn unit(&self) -> (r: &String)
        ensures
            *r == self.unit,
    {
        &self.unit
    }

    /// The nodes that receive the signal.
    pub fn receivers(&self) -> (r: &Vec<String>)
        ensures
            *r == self.receivers,
    {
        &self.receivers
    }
}

/// One message and the signals that it carries, in the order of their lines.
#[derive(Clone, Debug, PartialEq)]
pub struct Message {
    /// The identifier of the message.
    pub message_id: MessageId,
    /// The name of the message.
    pub message_name: String,
    /// The size of the payload in bytes.
    pub message_size: u64,
    /// The sender of the message.
    pub transmitter: Transmitter,
    /// The signals of the message.
    pub signals: Vec<Signal>,
}

/// The mathematical value of a [`Message`].
pub ghost struct MessageView {
    pub message_id: MessageId,
    pub message_name: Seq<char>,
    pub message_size: u64,
    pub transmitter: TransmitterView,
    pub signals: Seq<SignalView>,
}

impl DeepView for Message {
    type V = MessageView;

    open spec fn deep_view(&self) -> MessageView {
        MessageView {
            message_id: self.message_id.deep_view(),
            message_name: self.message_name.deep_view(),
            message_size: self.message_size.deep_view(),
            transmitter: self.transmitter.deep_view(),
            signals: self.signals.deep_view(),
        }
    }
}

impl Message {
    /// The identifier of the message.
    pub fn message_id(&self) -> (r: &MessageId)
        ensures
            *r == self.message_id,
    {
        &self.message_id
    }

    /// The name of the message.
    pub fn message_name(&self) -> (r: &String)
        ensures
            *r == self.message_name,
    {
        &self.message_name
    }

    /// The size of the payload in bytes.
    pub fn message_size(&self) -> (r: &u64)
        ensures
            *r == self.message_size,
    {
        &self.message_size
    }

    /// The sender of the message.
    pub fn transmitter(&self) -> (r: &Transmitter)
        ensures
            *r == self.transmitter,
    {
        &self.transmitter
    }

    /// The signals of the message.
    pub fn signals(&self) -> (r: &Vec<Signal>)
        ensures
            *r == self.signals,
    {
        &self.signals
    }
}

/// A further sender of a message.
#[derive(Clone, Debug, PartialEq)]
pub struct MessageTransmitter {
    /// The identifier of the message.
    pub message_id: MessageId,
    /// The sender.
    pub transmitter: Transmitter,
}

/// The mathematical value of a [`MessageTransmitter`].
pub ghost struct MessageTransmitterView {
    pub message_id: MessageId,
    pub transmitter: TransmitterView,
}

impl DeepView for MessageTransmitter {
    type V = MessageTransmitterView;

    open spec fn deep_view(&self) -> MessageTransmitterView {
        MessageTransmitterView {
            message_id: self.message_id.deep_view(),
            transmitter: self.transmitter.deep_view(),
        }
    }
}

impl MessageTransmitter {
    /// The identifier of the message.
    pub fn message_id(&self) -> (r: &MessageId)
        ensures
            *r == self.message_id,
    {
        &self.message_id
    }

    /// The sender.
    pub fn transmitter(&self) -> (r: &Transmitter)
        ensures
            *r == self.transmitter,
    {
        &self.transmitter
    }
}
/// The sentinel `Vector__XXX`, for a message without a sender.
pub open spec fn transmitter_vector_xxx_of(s: Seq<u8>) -> Parsed<TransmitterView> {
    give(tag_of(s, "Vector__XXX"), TransmitterView::VectorXXX)
}

/// Recognises the sentinel of a message without a sender.
pub fn transmitter_vector_xxx<'a>(input: &'a [u8]) -> (r: Result<
    (&'a [u8], Transmitter),
    ParseError<'a>,
>)
    ensures
        outcome(r) == transmitter_vector_xxx_of(input@),
{
    let (rest, _) = tag(input, "Vector__XXX")?;
    Ok((rest, Transmitter::VectorXXX))
}

/// The name of the node that sends a message.
pub open spec fn transmitter_node_name_of(s: Seq<u8>) -> Parsed<TransmitterView> {
    give(c_ident_of(s), TransmitterView::NodeName(value(c_ident_of(s))))
}

/// Recognises the name of a sending node.
pub fn transmitter_node_name<'a>(input: &'a [u8]) -> (r: Result<
    (&'a [u8], Transmitter),
    ParseError<'a>,
>)
    ensures
        outcome(r) == transmitter_node_name_of(input@),
{
    let (rest, name) = c_ident(input)?;
    Ok((rest, Transmitter::NodeName(name)))
}

/// A transmitter: the sentinel, else a node name. Where neither matches the
/// failure is `Alt`.
pub open spec fn transmitter_of(s: Seq<u8>) -> Parsed<TransmitterView> {
    or(transmitter_vector_xxx_of(s), or(transmitter_node_name_of(s), fail(s, ErrorKind::Alt)))
}

/// Recognises a transmitter.
pub fn transmitter<'a>(input: &'a [u8]) -> (r: Result<(&'a [u8], Transmitter), ParseError<'a>>)
    ensures
        outcome(r) == transmitter_of(input@),
{
    if let Ok(done) = transmitter_vector_xxx(input) {
        return Ok(done);
    }
    if let Ok(done) = transmitter_node_name(input) {
        return Ok(done);
    }
    Err(ParseError { input, kind: ErrorKind::Alt })
}

/// The fields of a signal line, which follow its keyword:
/// ` name mux: start|size@order sign (factor,offset) [min|max] "unit" receivers`
/// and the end of the line. The multiplexing indicator takes the spaces
/// round it, the receivers are separated by commas.
pub open spec fn signal_fields_of(s: Seq<u8>) -> Parsed<SignalView> {
    let name = then(char_of(s, SPACE), |i: Seq<u8>| c_ident_of(i));
    let multiplexer_indicator = then(name, |i: Seq<u8>| multiplexer_indicator_of(i));
    let start_bit = then(
        skip(skip(multiplexer_indicator, COLON), SPACE),
        |i: Seq<u8>| u64_s_of(i),
    );
    let signal_size = then(skip(start_bit, PIPE), |i: Seq<u8>| u64_s_of(i));
    let byte_order = then(skip(signal_size, AT), |i: Seq<u8>| byte_order_of(i));
    let value_type = then(byte_order, |i: Seq<u8>| value_type_of(i));
    let factor = then(skip(skip(value_type, SPACE), BRC_OPEN), |i: Seq<u8>| double_of(i));
    let offset = then(skip(factor, COMMA), |i: Seq<u8>| double_of(i));
    let min = then(
        skip(skip(skip(offset, BRC_CLOSE), SPACE), BRK_OPEN),
        |i: Seq<u8>| double_of(i),
    );
    let max = then(skip(min, PIPE), |i: Seq<u8>| double_of(i));
    let unit = then(skip(skip(max, BRK_CLOSE), SPACE), |i: Seq<u8>| char_string_of(i));
    let receivers = then(skip(unit, SPACE), |i: Seq<u8>| c_ident_vec_of(i));
    let end = then(receivers, |i: Seq<u8>| eol_of(i));
    give(
        end,
        SignalView {
            name: value(name),
            multiplexer_indicator: value(multiplexer_indicator),
            start_bit: value(start_bit),
            signal_size: value(signal_size),
            byte_order: value(byte_order),
            value_type: value(value_type),
            factor: value(factor),
            offset: value(offset),
            min: value(min),
            max: value(max),
            unit: value(unit),
            receivers: value(receivers),
        },
    )
}

/// A signal line: the keyword `SG_`, after optional white space, and the
/// fields of the signal up to the end of the line.
pub open spec fn signal_of(s: Seq<u8>) -> Parsed<SignalView> {
    then(word(multispace0_of(s), "SG_"), |i: Seq<u8>| signal_fields_of(i))
}

/// Reads one signal line.
pub fn signal<'a>(input: &'a [u8]) -> (r: Result<(&'a [u8], Signal), ParseError<'a>>)
    ensures
        outcome(r) == signal_of(input@),
{
    let (i, _) = multispace0(input)?;
    let (i, _) = tag(i, "SG_")?;
    let (i, _) = ss(i)?;
    let (i, name) = c_ident(i)?;
    let (i, multiplexer_indicator) = multiplexer_indicator(i)?;
    let (i, _) = colon(i)?;
    let (i, _) = ss(i)?;
    let (i, start_bit) = u64_s(i)?;
    let (i, _) = pipe(i)?;
    let (i, signal_size) = u64_s(i)?;
    let (i, _) = at(i)?;
    let (i, byte_order) = byte_order(i)?;
    let (i, value_type) = value_type(i)?;
    let (i, _) = ss(i)?;
    let (i, _) = brc_open(i)?;
    let (i, factor) = double(i)?;
    let (i, _) = comma(i)?;
    let (i, offset) = double(i)?;
    let (i, _) = brc_close(i)?;
    let (i, _) = ss(i)?;
    let (i, _) = brk_open(i)?;
    let (i, min) = double(i)?;
    let (i, _) = pipe(i)?;
    let (i, max) = double(i)?;
    let (i, _) = brk_close(i)?;
    let (i, _) = ss(i)?;
    let (i, unit) = char_string(i)?;
    let (i, _) = ss(i)?;
    let (i, receivers) = c_ident_vec(i)?;
    let (i, _) = eol(i)?;
    Ok(
        (
            i,
            Signal {
                name,
                multiplexer_indicator,
                start_bit,
                signal_size,
                byte_order,
                value_type,
                factor,
                offset,
                min,
                max,
                unit,
                receivers,
            },
        ),
    )
}

/// A signal line that is read takes up at least its keyword: it leaves
/// less than it was given.
pub proof fn lemma_signal_consumes(s: Seq<u8>)
    requires
        signal_of(s) is Ok,
    ensures
        signal_of(s)->Ok_0.0.len() < s.len(),
{
    let white = multispace0_of(s);
    let head = word(white, "SG_");
    assert(head is Ok);
    let i = head->Ok_0.0;
    assert(signal_of(s) == signal_fields_of(i));
    assert(within(signal_fields_of(i), i)) by {
        lemma_signal_fields_within(i);
    }
    assert(i.len() < s.len()) by {
        lemma_keyword_consumes(s);
    }
}

/// The keyword of a signal line, where it is read, takes up input.
proof fn lemma_keyword_consumes(s: Seq<u8>)
    ensures
        word(multispace0_of(s), "SG_") matches Ok((rest, _)) ==> rest.len() < s.len(),
{
    broadcast use {lemma_multispace0_within, lemma_tag_within};

    reveal_strlit("SG_");
    lemma_tag_bytes("SG_");
}

impl Rule for Signal {
    type Output = Signal;

    open spec fn parsed(s: Seq<u8>) -> Parsed<SignalView> {
        signal_of(s)
    }

    proof fn lemma_within(s: Seq<u8>) {
        lemma_signal_within(s);
    }

    fn parse<'a>(input: &'a [u8]) -> (r: Result<(&'a [u8], Signal), ParseError<'a>>) {
        signal(input)
    }
}

/// A message: the header `BO_ id name: size transmitter`, after optional
/// white space, and then its signal lines, of which there is at least one.
/// The signals end, and with them the message, at the first line that is no
/// signal line.
pub open spec fn message_of(s: Seq<u8>) -> Parsed<MessageView> {
    let message_id = then(
        skip(word(multispace0_of(s), "BO_"), SPACE),
        |i: Seq<u8>| message_id_of(i),
    );
    let message_name = then(skip(message_id, SPACE), |i: Seq<u8>| c_ident_of(i));
    let message_size = then(skip(skip(message_name, COLON), SPACE), |i: Seq<u8>| u64_s_of(i));
    let transmitter = then(skip(message_size, SPACE), |i: Seq<u8>| transmitter_of(i));
    let signals = then(transmitter, |i: Seq<u8>| many1_of::<Signal>(i));
    give(
        signals,
        MessageView {
            message_id: value(message_id),
            message_name: value(message_name),
            message_size: value(message_size),
            transmitter: value(transmitter),
            signals: value(signals),
        },
    )
}

/// Reads one message with its signals.
pub fn message<'a>(input: &'a [u8]) -> (r: Result<(&'a [u8], Message), ParseError<'a>>)
    ensures
        outcome(r) == message_of(input@),
{
    let (i, _) = multispace0(input)?;
    let (i, _) = tag(i, "BO_")?;
    let (i, _) = ss(i)?;
    let (i, message_id) = message_id(i)?;
    let (i, _) = ss(i)?;
    let (i, message_name) = c_ident(i)?;
    let (i, _) = colon(i)?;
    let (i, _) = ss(i)?;
    let (i, message_size) = u64_s(i)?;
    let (i, _) = ss(i)?;
    let (i, transmitter) = transmitter(i)?;
    let (i, signals) = many1::<Signal>(i)?;
    Ok((i, Message { message_id, message_name, message_size, transmitter, signals }))
}

/// A message owns at least one signal and every signal line that follows
/// its header without a gap: where the message ends, no signal line can be
/// read. The first signal is what the signal rule makes of the input after
/// the header.
pub proof fn lemma_message_takes_all_signals(s: Seq<u8>)
    requires
        message_of(s) is Ok,
    ensures
        message_of(s)->Ok_0.1.signals.len() >= 1,
        signal_of(message_of(s)->Ok_0.0) is Err,
{
    let message_id = then(
        skip(word(multispace0_of(s), "BO_"), SPACE),
        |i: Seq<u8>| message_id_of(i),
    );
    let message_name = then(skip(message_id, SPACE), |i: Seq<u8>| c_ident_of(i));
    let message_size = then(skip(skip(message_name, COLON), SPACE), |i: Seq<u8>| u64_s_of(i));
    let transmitter = then(skip(message_size, SPACE), |i: Seq<u8>| transmitter_of(i));
    let start = transmitter->Ok_0.0;
    let after_first = signal_of(start)->Ok_0.0;
    lemma_repeat_maximal::<Signal>(after_first);
    let end = message_of(s)->Ok_0.0;
    if signal_of(end) is Ok {
        lemma_signal_consumes(end);
    }
}

impl Rule for Message {
    type Output = Message;

    open spec fn parsed(s: Seq<u8>) -> Parsed<MessageView> {
        message_of(s)
    }

    proof fn lemma_within(s: Seq<u8>) {
        lemma_message_within(s);
    }

    fn parse<'a>(input: &'a [u8]) -> (r: Result<(&'a [u8], Message), ParseError<'a>>) {
        message(input)
    }
}

/// A further sender of a message: `BO_TX_BU_ id : transmitter;`, after
/// optional white space and up to the end of the line.
pub open spec fn message_transmitter_of(s: Seq<u8>) -> Parsed<MessageTransmitterView> {
    let message_id = then(
        skip(word(multispace0_of(s), "BO_TX_BU_"), SPACE),
        |i: Seq<u8>| message_id_of(i),
    );
    let transmitter = then(
        skip(skip(skip(message_id, SPACE), COLON), SPACE),
        |i: Seq<u8>| transmitter_of(i),
    );
    let end = then(skip(transmitter, SEMI_COLON), |i: Seq<u8>| eol_of(i));
    give(
        end,
        MessageTransmitterView { message_id: value(message_id), transmitter: value(transmitter) },
    )
}

/// Reads one line that names a further sender of a message.
pub fn message_transmitter<'a>(input: &'a [u8]) -> (r: Result<
    (&'a [u8], MessageTransmitter),
    ParseError<'a>,
>)
    ensures
        outcome(r) == message_transmitter_of(input@),
{
    let (i, _) = multispace0(input)?;
    let (i, _) = tag(i, "BO_TX_BU_")?;
    let (i, _) = ss(i)?;
    let (i, message_id) = message_id(i)?;
    let (i, _) = ss(i)?;
    let (i, _) = colon(i)?;
    let (i, _) = ss(i)?;
    let (i, transmitter) = transmitter(i)?;
    let (i, _) = semi_colon(i)?;
    let (i, _) = eol(i)?;
    Ok((i, MessageTransmitter { message_id, transmitter }))
}

impl Rule for MessageTransmitter {
    type Output = MessageTransmitter;

    open spec fn parsed(s: Seq<u8>) -> Parsed<MessageTransmitterView> {
        message_transmitter_of(s)
    }

    proof fn lemma_within(s: Seq<u8>) {
        lemma_message_transmitter_within(s);
    }

    fn parse<'a>(input: &'a [u8]) -> (r: Result<
        (&'a [u8], MessageTransmitter),
        ParseError<'a>,
    >) {
        message_transmitter(input)
    }
}

/// A transmitter leaves a final part of its input, and fails at its start.
pub broadcast proof fn lemma_transmitter_within(s: Seq<u8>)
    ensures
        within(#[trigger] transmitter_of(s), s),
{
    broadcast use {group_lexical_within, group_scalar_within, lemma_many1_within};
}

/// The fields of a signal line leave a final part of their input, and fail
/// inside it.
pub broadcast proof fn lemma_signal_fields_within(s: Seq<u8>)
    ensures
        within(#[trigger] signal_fields_of(s), s),
{
    broadcast use {group_lexical_within, group_scalar_within};
}

/// A signal line leaves a final part of its input, and fails inside it.
pub broadcast proof fn lemma_signal_within(s: Seq<u8>)
    ensures
        within(#[trigger] signal_of(s), s),
{
    broadcast use {group_lexical_within, lemma_signal_fields_within};
}

/// A message leaves a final part of its input, and fails inside it.
pub broadcast proof fn lemma_message_within(s: Seq<u8>)
    ensures
        within(#[trigger] message_of(s), s),
{
    broadcast use {
        group_lexical_within,
        group_scalar_within,
        lemma_many1_within,
        lemma_transmitter_within,
        lemma_signal_within,
    };
}

/// A further sender leaves a final part of its input, and fails inside it.
pub broadcast proof fn lemma_message_transmitter_within(s: Seq<u8>)
    ensures
        within(#[trigger] message_transmitter_of(s), s),
{
    broadcast use {
        group_lexical_within,
        group_scalar_within,
        lemma_many1_within,
        lemma_transmitter_within,
        lemma_signal_within,
        lemma_message_within,
    };
}

/// The rules of messages stay inside their input.
pub broadcast group group_message_within {
    lemma_transmitter_within,
    lemma_signal_within,
    lemma_message_within,
    lemma_message_transmitter_within,
}

} // verus!
