//! A parser for CAN bus network description files (the DBC format).
//!
//! [`DBC::from_slice`] reads a whole document from a byte buffer. The
//! grammar is given twice: as specification functions over byte sequences,
//! whose names end in `_of`, and as executable parsers whose contracts tie
//! each to its specification. A parser takes the input that is left and
//! returns what it leaves together with the value it read; a failure names
//! the rule that gave up and holds the input that was left at that place.
//!
//! White space, digits, line endings and floating point literals are read
//! by `nom`; the module [`trusted`] holds those calls and what is taken on
//! trust about them. Floating point numbers are handed on as bit patterns
//! ([`Double`]).

pub mod attribute;
pub mod comment;
pub mod document;
pub mod environment;
pub mod error;
pub mod header;
pub mod lexical;
pub mod message;
pub mod rule;
pub mod scalar;
pub mod signal_type;
pub mod trusted;
pub mod value;

pub use crate::attribute::{
    AttrDefault, attribute_default, attribute_definition, attribute_definition_environment_variable,
    attribute_definition_message, attribute_definition_node, attribute_definition_plain,
    attribute_definition_signal, attribute_value, attribute_value_charstr, attribute_value_f64,
    attribute_value_for_object, attribute_value_int64, attribute_value_uint64, AttributeDefault,
    AttributeDefinition, AttributeValue, AttributeValuedForObjectType, AttributeValueForObject,
    AttributeValueType, definition_text, env_variable_attribute_value,
    message_definition_attribute_value, network_node_attribute_value, raw_attribute_value,
    signal_attribute_value, SignalAttributeValue,
};
pub use crate::comment::{
    Comment, comment, comment_plain, env_var_comment, message_comment, node_comment, signal_comment,
};
pub use crate::document::{DBC, dbc, Error};
pub use crate::environment::{
    access_node, AccessNode, environment_variable, environment_variable_data, EnvironmentVariable,
    EnvironmentVariableData,
};
pub use crate::error::{ErrorKind, ParseError};
pub use crate::header::{
    Baudrate, bit_timing, BitTiming, Label, new_symbols, Node, node, Symbol, symbol, Version,
    version,
};
pub use crate::lexical::{
    AT, at, BRC_CLOSE, brc_close, BRC_OPEN, brc_open, BRK_CLOSE, brk_close, BRK_OPEN, brk_open,
    c_ident, c_ident_head_given, c_ident_vec, c_string_char_given, char_string, COLON, colon, COMMA,
    Comma, comma, delimiter, Double, double, double_given, eol, i64_digit, Identifier,
    is_c_ident_head, is_c_string_char, is_quote, is_semi_colon, MINUS, multispace0, PIPE, pipe,
    PLUS, QUOTE, quote, SEMI_COLON, semi_colon, SPACE, Space, space, space0, space1, ss, tag, u64_s,
};
pub use crate::message::{
    Message, message, message_transmitter, MessageTransmitter, Signal, signal, Transmitter,
    transmitter, transmitter_node_name, transmitter_vector_xxx,
};
pub use crate::rule::{many0, many1, opt, Rule, separated_nonempty_list};
pub use crate::scalar::{
    access_type, AccessType, big_endian, byte_order, ByteOrder, DIGIT_0, DIGIT_1, DIGIT_2, DIGIT_3,
    env_var_type, EnvType, ieee_double_64bit, ieee_float_32bit, little_endian, LOWER_M, message_id,
    MessageId, multiplexer, multiplexer_indicator, MultiplexIndicator, multiplexor, plain,
    signal_extended_value_type, SignalExtendedValueType, signed, signed_or_unsigned_integer,
    unsigned, UPPER_M, value_type, ValueType,
};
pub use crate::signal_type::{
    signal_extended_value_type_list, signal_groups, signal_type, signal_type_ref,
    SignalExtendedValueTypeList, SignalGroups, SignalType, SignalTypeRef,
};
pub use crate::value::{
    ValDescription, value_description, value_description_for_env_var, value_description_for_signal,
    value_description_list, value_descriptions, value_table, ValueDescription, ValueTable,
};
