//! Attributes: their definitions, their defaults and their values for
//! single objects.

use vstd::prelude::*;
use vstd::slice::{slice_subrange, slice_to_vec};
use vstd::string::StringSliceAdditionalSpecFns;
use vstd::utf8::{decode_utf8, valid_utf8};
use crate::error::{
    fail, lemma_tail_from, lemma_tail_whole, outcome, within, ErrorKind, ParseError, Parsed,
};
use crate::lexical::{
    after, c_ident, c_ident_of, char_string, char_string_of, double, double_of, eol, eol_of,
    group_lexical_within, i64_digit, i64_digit_of, is_semi_colon, lemma_span_bound, lemma_span_is,
    lemma_tag_bytes, multispace0, multispace0_of, semi_colon, skip, space1, space1_of, ss, tag,
    tag_of, u64_s, u64_s_of, word, Double, SEMI_COLON, SPACE,
};
use crate::rule::{give, lemma_opt_within, opt, opt_of, or, then, value, Rule};
use crate::scalar::{group_scalar_within, message_id, message_id_of, MessageId};
use crate::trusted::{span, string_from_utf8};

verus! {

/// The value of an attribute of a signal.
#[derive(Clone, Debug, PartialEq)]
pub enum SignalAttributeValue {
    Text(String),
    Int(i64),
}

/// The mathematical value of a [`SignalAttributeValue`].
pub ghost enum SignalAttributeValueView {
    Text(Seq<char>),
    Int(i64),
}

impl DeepView for SignalAttributeValue {
    type V = SignalAttributeValueView;

    open spec fn deep_view(&self) -> SignalAttributeValueView {
        match self {
            SignalAttributeValue::Text(v0) => SignalAttributeValueView::Text(v0.deep_view()),
            SignalAttributeValue::Int(v0) => SignalAttributeValueView::Int(v0.deep_view()),
        }
    }
}

/// The value of an attribute.
#[derive(Clone, Debug, PartialEq)]
pub enum AttributeValue {
    /// An unsigned integer.
    AttributeValueU64(u64),
    /// A signed integer.
    AttributeValueI64(i64),
    /// A floating point number.
    AttributeValueF64(Double),
    /// A quoted string.
    AttributeValueCharString(String),
}

/// The mathematical value of a [`AttributeValue`].
pub ghost enum AttributeValueView {
    AttributeValueU64(u64),
    AttributeValueI64(i64),
    AttributeValueF64(Double),
    AttributeValueCharString(Seq<char>),
}

impl DeepView for AttributeValue {
    type V = AttributeValueView;

    open spec fn deep_view(&self) -> AttributeValueView {
        match self {
            AttributeValue::AttributeValueU64(v0) => AttributeValueView::AttributeValueU64(
                v0.deep_view(),
            ),
            AttributeValue::AttributeValueI64(v0) => AttributeValueView::AttributeValueI64(
                v0.deep_view(),
            ),
            AttributeValue::AttributeValueF64(v0) => AttributeValueView::AttributeValueF64(
                v0.deep_view(),
            ),
            AttributeValue::AttributeValueCharString(
                v0,
            ) => AttributeValueView::AttributeValueCharString(
                v0.deep_view(),
            ),
        }
    }
}

/// The object that an attribute value is given for, and the value.
#[derive(Clone, Debug, PartialEq)]
pub enum AttributeValuedForObjectType {
    /// A value for no object in particular.
    RawAttributeValue(AttributeValue),
    /// A value for the node of this name.
    NetworkNodeAttributeValue(String, AttributeValue),
    /// A value for the message of this identifier, where one is written.
    MessageDefinitionAttributeValue(MessageId, Option<AttributeValue>),
    /// A value for the signal of this name in the message of this identifier.
    SignalAttributeValue(MessageId, String, AttributeValue),
    /// A value for the environment variable of this name.
    EnvVariableAttributeValue(String, AttributeValue),
}

/// The mathematical value of a [`AttributeValuedForObjectType`].
pub ghost enum AttributeValuedForObjectTypeView {
    RawAttributeValue(AttributeValueView),
    NetworkNodeAttributeValue(Seq<char>, AttributeValueView),
    MessageDefinitionAttributeValue(MessageId, Option<AttributeValueView>),
    SignalAttributeValue(MessageId, Seq<char>, AttributeValueView),
    EnvVariableAttributeValue(Seq<char>, AttributeValueView),
}

impl DeepView for AttributeValuedForObjectType {
    type V = AttributeValuedForObjectTypeView;

    open spec fn deep_view(&self) -> AttributeValuedForObjectTypeView {
        match self {
            AttributeValuedForObjectType::RawAttributeValue(
                v0,
            ) => AttributeValuedForObjectTypeView::RawAttributeValue(
                v0.deep_view(),
            ),
            AttributeValuedForObjectType::NetworkNodeAttributeValue(
                v0,
                v1,
            ) => AttributeValuedForObjectTypeView::NetworkNodeAttributeValue(
                v0.deep_view(),
                v1.deep_view(),
            ),
            AttributeValuedForObjectType::MessageDefinitionAttributeValue(
                v0,
                v1,
            ) => AttributeValuedForObjectTypeView::MessageDefinitionAttributeValue(
                v0.deep_view(),
                v1.deep_view(),
            ),
            AttributeValuedForObjectType::SignalAttributeValue(
                v0,
                v1,
                v2,
            ) => AttributeValuedForObjectTypeView::SignalAttributeValue(
                v0.deep_view(),
                v1.deep_view(),
                v2.deep_view(),
            ),
            AttributeValuedForObjectType::EnvVariableAttributeValue(
                v0,
                v1,
            ) => AttributeValuedForObjectTypeView::EnvVariableAttributeValue(
                v0.deep_view(),
                v1.deep_view(),
            ),
        }
    }
}

/// The domain of the values of an attribute.
#[derive(Clone, Debug, PartialEq)]
pub enum AttributeValueType {
    /// The integers between two bounds.
    AttributeValueTypeInt(i64, i64),
    /// The integers between two bounds, written in hexadecimal.
    AttributeValueTypeHex(i64, i64),
    /// The floating point numbers between two bounds.
    AttributeValueTypeFloat(Double, Double),
    /// The strings.
    AttributeValueTypeString,
    /// The labels of a list.
    AttributeValueTypeEnum(Vec<String>),
}

/// The mathematical value of a [`AttributeValueType`].
pub ghost enum AttributeValueTypeView {
    AttributeValueTypeInt(i64, i64),
    AttributeValueTypeHex(i64, i64),
    AttributeValueTypeFloat(Double, Double),
    AttributeValueTypeString,
    AttributeValueTypeEnum(Seq<Seq<char>>),
}

impl DeepView for AttributeValueType {
    type V = AttributeValueTypeView;

    open spec fn deep_view(&self) -> AttributeValueTypeView {
        match self {
            AttributeValueType::AttributeValueTypeInt(
                v0,
                v1,
            ) => AttributeValueTypeView::AttributeValueTypeInt(
                v0.deep_view(),
                v1.deep_view(),
            ),
            AttributeValueType::AttributeValueTypeHex(
                v0,
                v1,
            ) => AttributeValueTypeView::AttributeValueTypeHex(
                v0.deep_view(),
                v1.deep_view(),
            ),
            AttributeValueType::AttributeValueTypeFloat(
                v0,
                v1,
            ) => AttributeValueTypeView::AttributeValueTypeFloat(
                v0.deep_view(),
                v1.deep_view(),
            ),
            AttributeValueType::AttributeValueTypeString => {
                AttributeValueTypeView::AttributeValueTypeString
            },
            AttributeValueType::AttributeValueTypeEnum(
                v0,
            ) => AttributeValueTypeView::AttributeValueTypeEnum(
                v0.deep_view(),
            ),
        }
    }
}

/// A name and the value that goes with it by default.
#[derive(Clone, Debug, PartialEq)]
pub struct AttrDefault {
    /// The name.
    pub name: String,
    /// The value.
    pub value: AttributeValue,
}

/// The mathematical value of a [`AttrDefault`].
pub ghost struct AttrDefaultView {
    pub name: Seq<char>,
    pub value: AttributeValueView,
}

impl DeepView for AttrDefault {
    type V = AttrDefaultView;

    open spec fn deep_view(&self) -> AttrDefaultView {
        AttrDefaultView {
            name: self.name.deep_view(),
            value: self.value.deep_view(),
        }
    }
}

impl AttrDefault {
    /// The name.
    pub fn name(&self) -> (r: &String)
        ensures
            *r == self.name,
    {
        &self.name
    }

    /// The value.
    pub fn value(&self) -> (r: &AttributeValue)
        ensures
            *r == self.value,
    {
        &self.value
    }
}

/// The default value of an attribute.
#[derive(Clone, Debug, PartialEq)]
pub struct AttributeDefault {
    /// The name of the attribute.
    pub attribute_name: String,
    /// The value that holds where no other is given.
    pub attribute_value: AttributeValue,
}

/// The mathematical value of a [`AttributeDefault`].
pub ghost struct AttributeDefaultView {
    pub attribute_name: Seq<char>,
    pub attribute_value: AttributeValueView,
}

impl DeepView for AttributeDefault {
    type V = AttributeDefaultView;

    open spec fn deep_view(&self) -> AttributeDefaultView {
        AttributeDefaultView {
            attribute_name: self.attribute_name.deep_view(),
            attribute_value: self.attribute_value.deep_view(),
        }
    }
}

impl AttributeDefault {
    /// The name of the attribute.
    pub fn attribute_name(&self) -> (r: &String)
        ensures
            *r == self.attribute_name,
    {
        &self.attribute_name
    }

    /// The value that holds where no other is given.
    pub fn attribute_value(&self) -> (r: &AttributeValue)
        ensures
            *r == self.attribute_value,
    {
        &self.attribute_value
    }
}

/// The value of an attribute for one object.
#[derive(Clone, Debug, PartialEq)]
pub struct AttributeValueForObject {
    /// The name of the attribute.
    pub attribute_name: String,
    /// The object and the value.
    pub attribute_value: AttributeValuedForObjectType,
}

/// The mathematical value of a [`AttributeValueForObject`].
pub ghost struct AttributeValueForObjectView {
    pub attribute_name: Seq<char>,
    pub attribute_value: AttributeValuedForObjectTypeView,
}

impl DeepView for AttributeValueForObject {
    type V = AttributeValueForObjectView;

    open spec fn deep_view(&self) -> AttributeValueForObjectView {
        AttributeValueForObjectView {
            attribute_name: self.attribute_name.deep_view(),
            attribute_value: self.attribute_value.deep_view(),
        }
    }
}

impl AttributeValueForObject {
    /// The name of the attribute.
    pub fn attribute_name(&self) -> (r: &String)
        ensures
            *r == self.attribute_name,
    {
        &self.attribute_name
    }

    /// The object and the value.
    pub fn attribute_value(&self) -> (r: &AttributeValuedForObjectType)
        ensures
            *r == self.attribute_value,
    {
        &self.attribute_value
    }
}

/// The definition of an attribute for one class of objects. The text holds
/// the rest of the line up to its semicolon as it is written: the name and
/// the domain of the attribute are not taken apart.
#[derive(Clone, Debug, PartialEq)]
pub enum AttributeDefinition {
    /// An attribute of messages.
    Message(String),
    /// An attribute of nodes.
    Node(String),
    /// An attribute of signals.
    Signal(String),
    /// An attribute of environment variables.
    EnvironmentVariable(String),
    /// An attribute of no class in particular.
    Plain(String),
}

/// The mathematical value of a [`AttributeDefinition`].
pub ghost enum AttributeDefinitionView {
    Message(Seq<char>),
    Node(Seq<char>),
    Signal(Seq<char>),
    EnvironmentVariable(Seq<char>),
    Plain(Seq<char>),
}

impl DeepView for AttributeDefinition {
    type V = AttributeDefinitionView;

    open spec fn deep_view(&self) -> AttributeDefinitionView {
        match self {
            AttributeDefinition::Message(v0) => AttributeDefinitionView::Message(v0.deep_view()),
            AttributeDefinition::Node(v0) => AttributeDefinitionView::Node(v0.deep_view()),
            AttributeDefinition::Signal(v0) => AttributeDefinitionView::Signal(v0.deep_view()),
            AttributeDefinition::EnvironmentVariable(
                v0,
            ) => AttributeDefinitionView::EnvironmentVariable(
                v0.deep_view(),
            ),
            AttributeDefinition::Plain(v0) => AttributeDefinitionView::Plain(v0.deep_view()),
        }
    }
}
/// An attribute value written as an unsigned integer.
pub open spec fn attribute_value_uint64_of(s: Seq<u8>) -> Parsed<AttributeValueView> {
    give(u64_s_of(s), AttributeValueView::AttributeValueU64(value(u64_s_of(s))))
}

/// Reads an attribute value as an unsigned integer.
pub fn attribute_value_uint64<'a>(input: &'a [u8]) -> (r: Result<
    (&'a [u8], AttributeValue),
    ParseError<'a>,
>)
    ensures
        outcome(r) == attribute_value_uint64_of(input@),
{
    let (rest, number) = u64_s(input)?;
    Ok((rest, AttributeValue::AttributeValueU64(number)))
}

/// An attribute value written as a signed integer.
pub open spec fn attribute_value_int64_of(s: Seq<u8>) -> Parsed<AttributeValueView> {
    give(i64_digit_of(s), AttributeValueView::AttributeValueI64(value(i64_digit_of(s))))
}

/// Reads an attribute value as a signed integer.
pub fn attribute_value_int64<'a>(input: &'a [u8]) -> (r: Result<
    (&'a [u8], AttributeValue),
    ParseError<'a>,
>)
    ensures
        outcome(r) == attribute_value_int64_of(input@),
{
    let (rest, number) = i64_digit(input)?;
    Ok((rest, AttributeValue::AttributeValueI64(number)))
}

/// An attribute value written as a floating point number.
pub open spec fn attribute_value_f64_of(s: Seq<u8>) -> Parsed<AttributeValueView> {
    give(double_of(s), AttributeValueView::AttributeValueF64(value(double_of(s))))
}

/// Reads an attribute value as a floating point number.
pub fn attribute_value_f64<'a>(input: &'a [u8]) -> (r: Result<
    (&'a [u8], AttributeValue),
    ParseError<'a>,
>)
    ensures
        outcome(r) == attribute_value_f64_of(input@),
{
    let (rest, number) = double(input)?;
    Ok((rest, AttributeValue::AttributeValueF64(number)))
}

/// An attribute value written as a quoted string.
pub open spec fn attribute_value_charstr_of(s: Seq<u8>) -> Parsed<AttributeValueView> {
    give(char_string_of(s), AttributeValueView::AttributeValueCharString(value(char_string_of(s))))
}

/// Reads an attribute value as a quoted string.
pub fn attribute_value_charstr<'a>(input: &'a [u8]) -> (r: Result<
    (&'a [u8], AttributeValue),
    ParseError<'a>,
>)
    ensures
        outcome(r) == attribute_value_charstr_of(input@),
{
    let (rest, text) = char_string(input)?;
    Ok((rest, AttributeValue::AttributeValueCharString(text)))
}

/// An attribute value: a floating point number, else a quoted string. Every
/// number, also one written as an integer, is read as a floating point
/// number. Where neither matches the failure is `Alt`.
pub open spec fn attribute_value_of(s: Seq<u8>) -> Parsed<AttributeValueView> {
    or(attribute_value_f64_of(s), or(attribute_value_charstr_of(s), fail(s, ErrorKind::Alt)))
}

/// Reads an attribute value.
pub fn attribute_value<'a>(input: &'a [u8]) -> (r: Result<
    (&'a [u8], AttributeValue),
    ParseError<'a>,
>)
    ensures
        outcome(r) == attribute_value_of(input@),
{
    if let Ok(done) = attribute_value_f64(input) {
        return Ok(done);
    }
    if let Ok(done) = attribute_value_charstr(input) {
        return Ok(done);
    }
    Err(ParseError { input, kind: ErrorKind::Alt })
}

impl Rule for AttributeValue {
    type Output = AttributeValue;

    open spec fn parsed(s: Seq<u8>) -> Parsed<AttributeValueView> {
        attribute_value_of(s)
    }

    proof fn lemma_within(s: Seq<u8>) {
        lemma_attribute_value_within(s);
    }

    fn parse<'a>(input: &'a [u8]) -> (r: Result<(&'a [u8], AttributeValue), ParseError<'a>>) {
        attribute_value(input)
    }
}

/// The default of an attribute: `BA_DEF_DEF_`, spaces or tabs, the quoted
/// name, a space, the value and a semicolon, after optional white space and
/// up to the end of the line.
pub open spec fn attribute_default_of(s: Seq<u8>) -> Parsed<AttributeDefaultView> {
    let gap = then(word(multispace0_of(s), "BA_DEF_DEF_"), |i: Seq<u8>| space1_of(i));
    let attribute_name = then(gap, |i: Seq<u8>| char_string_of(i));
    let attribute_value = then(skip(attribute_name, SPACE), |i: Seq<u8>| attribute_value_of(i));
    let end = then(skip(attribute_value, SEMI_COLON), |i: Seq<u8>| eol_of(i));
    give(
        end,
        AttributeDefaultView {
            attribute_name: value(attribute_name),
            attribute_value: value(attribute_value),
        },
    )
}

/// Reads the default of one attribute.
pub fn attribute_default<'a>(input: &'a [u8]) -> (r: Result<
    (&'a [u8], AttributeDefault),
    ParseError<'a>,
>)
    ensures
        outcome(r) == attribute_default_of(input@),
{
    let (i, _) = multispace0(input)?;
    let (i, _) = tag(i, "BA_DEF_DEF_")?;
    let (i, _) = space1(i)?;
    let (i, attribute_name) = char_string(i)?;
    let (i, _) = ss(i)?;
    let (i, attribute_value) = attribute_value(i)?;
    let (i, _) = semi_colon(i)?;
    let (i, _) = eol(i)?;
    Ok((i, AttributeDefault { attribute_name, attribute_value }))
}

impl Rule for AttributeDefault {
    type Output = AttributeDefault;

    open spec fn parsed(s: Seq<u8>) -> Parsed<AttributeDefaultView> {
        attribute_default_of(s)
    }

    proof fn lemma_within(s: Seq<u8>) {
        lemma_attribute_default_within(s);
    }

    fn parse<'a>(input: &'a [u8]) -> (r: Result<(&'a [u8], AttributeDefault), ParseError<'a>>) {
        attribute_default(input)
    }
}

/// An attribute value for a node: `BU_ name value`.
pub open spec fn network_node_attribute_value_of(s: Seq<u8>) -> Parsed<
    AttributeValuedForObjectTypeView,
> {
    let node_name = then(skip(tag_of(s, "BU_"), SPACE), |i: Seq<u8>| c_ident_of(i));
    let v = then(skip(node_name, SPACE), |i: Seq<u8>| attribute_value_of(i));
    give(v, AttributeValuedForObjectTypeView::NetworkNodeAttributeValue(value(node_name), value(v)))
}

/// Reads an attribute value for a node.
pub fn network_node_attribute_value<'a>(input: &'a [u8]) -> (r: Result<
    (&'a [u8], AttributeValuedForObjectType),
    ParseError<'a>,
>)
    ensures
        outcome(r) == network_node_attribute_value_of(input@),
{
    let (i, _) = tag(input, "BU_")?;
    let (i, _) = ss(i)?;
    let (i, node_name) = c_ident(i)?;
    let (i, _) = ss(i)?;
    let (i, v) = attribute_value(i)?;
    Ok((i, AttributeValuedForObjectType::NetworkNodeAttributeValue(node_name, v)))
}

/// An attribute value for a message: `BO_ id ` and the value, which may be
/// missing.
pub open spec fn message_definition_attribute_value_of(s: Seq<u8>) -> Parsed<
    AttributeValuedForObjectTypeView,
> {
    let message_id = then(skip(tag_of(s, "BO_"), SPACE), |i: Seq<u8>| message_id_of(i));
    let v = then(skip(message_id, SPACE), |i: Seq<u8>| opt_of::<AttributeValue>(i));
    give(
        v,
        AttributeValuedForObjectTypeView::MessageDefinitionAttributeValue(
            value(message_id),
            value(v),
        ),
    )
}

/// Reads an attribute value for a message.
pub fn message_definition_attribute_value<'a>(input: &'a [u8]) -> (r: Result<
    (&'a [u8], AttributeValuedForObjectType),
    ParseError<'a>,
>)
    ensures
        outcome(r) == message_definition_attribute_value_of(input@),
{
    let (i, _) = tag(input, "BO_")?;
    let (i, _) = ss(i)?;
    let (i, message_id) = message_id(i)?;
    let (i, _) = ss(i)?;
    let (i, v) = opt::<AttributeValue>(i)?;
    Ok((i, AttributeValuedForObjectType::MessageDefinitionAttributeValue(message_id, v)))
}

/// An attribute value for a signal: `SG_ id name value`.
pub open spec fn signal_attribute_value_of(s: Seq<u8>) -> Parsed<
    AttributeValuedForObjectTypeView,
> {
    let message_id = then(skip(tag_of(s, "SG_"), SPACE), |i: Seq<u8>| message_id_of(i));
    let signal_name = then(skip(message_id, SPACE), |i: Seq<u8>| c_ident_of(i));
    let v = then(skip(signal_name, SPACE), |i: Seq<u8>| attribute_value_of(i));
    give(
        v,
        AttributeValuedForObjectTypeView::SignalAttributeValue(
            value(message_id),
            value(signal_name),
            value(v),
        ),
    )
}

/// Reads an attribute value for a signal.
pub fn signal_attribute_value<'a>(input: &'a [u8]) -> (r: Result<
    (&'a [u8], AttributeValuedForObjectType),
    ParseError<'a>,
>)
    ensures
        outcome(r) == signal_attribute_value_of(input@),
{
    let (i, _) = tag(input, "SG_")?;
    let (i, _) = ss(i)?;
    let (i, message_id) = message_id(i)?;
    let (i, _) = ss(i)?;
    let (i, signal_name) = c_ident(i)?;
    let (i, _) = ss(i)?;
    let (i, v) = attribute_value(i)?;
    Ok((i, AttributeValuedForObjectType::SignalAttributeValue(message_id, signal_name, v)))
}

/// An attribute value for an environment variable: `EV_ name value`.
pub open spec fn env_variable_attribute_value_of(s: Seq<u8>) -> Parsed<
    AttributeValuedForObjectTypeView,
> {
    let env_var_name = then(skip(tag_of(s, "EV_"), SPACE), |i: Seq<u8>| c_ident_of(i));
    let v = then(skip(env_var_name, SPACE), |i: Seq<u8>| attribute_value_of(i));
    give(
        v,
        AttributeValuedForObjectTypeView::EnvVariableAttributeValue(value(env_var_name), value(v)),
    )
}

/// Reads an attribute value for an environment variable.
pub fn env_variable_attribute_value<'a>(input: &'a [u8]) -> (r: Result<
    (&'a [u8], AttributeValuedForObjectType),
    ParseError<'a>,
>)
    ensures
        outcome(r) == env_variable_attribute_value_of(input@),
{
    let (i, _) = tag(input, "EV_")?;
    let (i, _) = ss(i)?;
    let (i, env_var_name) = c_ident(i)?;
    let (i, _) = ss(i)?;
    let (i, v) = attribute_value(i)?;
    Ok((i, AttributeValuedForObjectType::EnvVariableAttributeValue(env_var_name, v)))
}

/// An attribute value for no object in particular: just the value.
pub open spec fn raw_attribute_value_of(s: Seq<u8>) -> Parsed<AttributeValuedForObjectTypeView> {
    give(
        attribute_value_of(s),
        AttributeValuedForObjectTypeView::RawAttributeValue(value(attribute_value_of(s))),
    )
}

/// Reads an attribute value for no object in particular.
pub fn raw_attribute_value<'a>(input: &'a [u8]) -> (r: Result<
    (&'a [u8], AttributeValuedForObjectType),
    ParseError<'a>,
>)
    ensures
        outcome(r) == raw_attribute_value_of(input@),
{
    let (i, v) = attribute_value(input)?;
    Ok((i, AttributeValuedForObjectType::RawAttributeValue(v)))
}

/// The forms of an attribute value in the order in which they are tried:
/// node, message, signal, environment variable, and last the form for no
/// object, which has no tag to tell it by. The first that matches decides.
/// Where none matches the failure is `Alt`.
pub open spec fn attribute_target_of(s: Seq<u8>) -> Parsed<AttributeValuedForObjectTypeView> {
    or(
        network_node_attribute_value_of(s),
        or(
            message_definition_attribute_value_of(s),
            or(
                signal_attribute_value_of(s),
                or(
                    env_variable_attribute_value_of(s),
                    or(raw_attribute_value_of(s), fail(s, ErrorKind::Alt)),
                ),
            ),
        ),
    )
}

/// An attribute value line: `BA_ "name" `, one of the forms of an attribute
/// value and a semicolon, after optional white space and up to the end of
/// the line.
pub open spec fn attribute_value_for_object_of(s: Seq<u8>) -> Parsed<
    AttributeValueForObjectView,
> {
    let attribute_name = then(
        skip(word(multispace0_of(s), "BA_"), SPACE),
        |i: Seq<u8>| char_string_of(i),
    );
    let attribute_value = then(skip(attribute_name, SPACE), |i: Seq<u8>| attribute_target_of(i));
    let end = then(skip(attribute_value, SEMI_COLON), |i: Seq<u8>| eol_of(i));
    give(
        end,
        AttributeValueForObjectView {
            attribute_name: value(attribute_name),
            attribute_value: value(attribute_value),
        },
    )
}

/// Reads one attribute value line.
pub fn attribute_value_for_object<'a>(input: &'a [u8]) -> (r: Result<
    (&'a [u8], AttributeValueForObject),
    ParseError<'a>,
>)
    ensures
        outcome(r) == attribute_value_for_object_of(input@),
{
    let (i, _) = multispace0(input)?;
    let (i, _) = tag(i, "BA_")?;
    let (i, _) = ss(i)?;
    let (i, attribute_name) = char_string(i)?;
    let (i, _) = ss(i)?;
    let (i, attribute_value) = if let Ok(done) = network_node_attribute_value(i) {
        done
    } else if let Ok(done) = message_definition_attribute_value(i) {
        done
    } else if let Ok(done) = signal_attribute_value(i) {
        done
    } else if let Ok(done) = env_variable_attribute_value(i) {
        done
    } else if let Ok(done) = raw_attribute_value(i) {
        done
    } else {
        return Err(ParseError { input: i, kind: ErrorKind::Alt });
    };
    let (i, _) = semi_colon(i)?;
    let (i, _) = eol(i)?;
    Ok((i, AttributeValueForObject { attribute_name, attribute_value }))
}

/// The tag at the start of an attribute value's target decides among the
/// forms that have one: after `BU_` only the form for a node is tried with
/// effect, after `BO_` only that for a message, after `SG_` only that for a
/// signal, after `EV_` only that for an environment variable. The form for
/// no object is the only other that remains.
pub proof fn lemma_attribute_target_dispatch(s: Seq<u8>)
    ensures
        tag_of(s, "BU_") is Ok ==> attribute_target_of(s) == or(
            network_node_attribute_value_of(s),
            or(raw_attribute_value_of(s), fail(s, ErrorKind::Alt)),
        ),
        tag_of(s, "BO_") is Ok ==> attribute_target_of(s) == or(
            message_definition_attribute_value_of(s),
            or(raw_attribute_value_of(s), fail(s, ErrorKind::Alt)),
        ),
        tag_of(s, "SG_") is Ok ==> attribute_target_of(s) == or(
            signal_attribute_value_of(s),
            or(raw_attribute_value_of(s), fail(s, ErrorKind::Alt)),
        ),
        tag_of(s, "EV_") is Ok ==> attribute_target_of(s) == or(
            env_variable_attribute_value_of(s),
            or(raw_attribute_value_of(s), fail(s, ErrorKind::Alt)),
        ),
{
    reveal_strlit("BU_");
    reveal_strlit("BO_");
    reveal_strlit("EV_");
    reveal_strlit("SG_");
    lemma_tag_bytes("BU_");
    lemma_tag_bytes("BO_");
    lemma_tag_bytes("EV_");
    lemma_tag_bytes("SG_");
    let bu = "BU_".spec_bytes();
    let bo = "BO_".spec_bytes();
    let ev = "EV_".spec_bytes();
    let sg = "SG_".spec_bytes();
    assert(bu[0] == 0x42 && bu[1] == 0x55);
    assert(bo[0] == 0x42 && bo[1] == 0x4f);
    assert(ev[0] == 0x45 && ev[1] == 0x56);
    assert(sg[0] == 0x53 && sg[1] == 0x47);
    if s.len() > 1 {
        if bu.is_prefix_of(s) {
            assert(s[0] == bu[0] && s[1] == bu[1]);
        }
        if bo.is_prefix_of(s) {
            assert(s[0] == bo[0] && s[1] == bo[1]);
        }
        if ev.is_prefix_of(s) {
            assert(s[0] == ev[0] && s[1] == ev[1]);
        }
        if sg.is_prefix_of(s) {
            assert(s[0] == sg[0] && s[1] == sg[1]);
        }
    }
    if s.len() == 1 {
        if bu.is_prefix_of(s) {
            assert(s[0] == bu[0]);
        }
        if bo.is_prefix_of(s) {
            assert(s[0] == bo[0]);
        }
        if ev.is_prefix_of(s) {
            assert(s[0] == ev[0]);
        }
        if sg.is_prefix_of(s) {
            assert(s[0] == sg[0]);
        }
    }
}

impl Rule for AttributeValueForObject {
    type Output = AttributeValueForObject;

    open spec fn parsed(s: Seq<u8>) -> Parsed<AttributeValueForObjectView> {
        attribute_value_for_object_of(s)
    }

    proof fn lemma_within(s: Seq<u8>) {
        lemma_attribute_value_for_object_within(s);
    }

    fn parse<'a>(input: &'a [u8]) -> (r: Result<
        (&'a [u8], AttributeValueForObject),
        ParseError<'a>,
    >) {
        attribute_value_for_object(input)
    }
}

/// The length of the text that `s` starts with, up to the first semicolon
/// or to the end.
pub open spec fn definition_run(s: Seq<u8>) -> nat {
    span(s, |b: u8| b != SEMI_COLON)
}

/// The text of an attribute definition: everything up to the first
/// semicolon or to the end, as it is written. Fails as `MapRes` where that
/// text is not UTF-8.
pub open spec fn definition_text_of(s: Seq<u8>) -> Parsed<Seq<char>> {
    let text = s.subrange(0, definition_run(s) as int);
    if valid_utf8(text) {
        Ok((after(s, definition_run(s)), decode_utf8(text)))
    } else {
        fail(s, ErrorKind::MapRes)
    }
}

/// Reads the text of an attribute definition.
pub fn definition_text<'a>(input: &'a [u8]) -> (r: Result<(&'a [u8], String), ParseError<'a>>)
    ensures
        outcome(r) == definition_text_of(input@),
{
    let mut n: usize = 0;
    while n < input.len() && !is_semi_colon(input[n] as char)
        invariant
            n <= input@.len(),
            forall|k: int| 0 <= k < n ==> #[trigger] input@[k] != SEMI_COLON,
        decreases input@.len() - n,
    {
        n += 1;
    }
    proof {
        lemma_span_is(input@, |b: u8| b != SEMI_COLON, n as nat);
    }
    match string_from_utf8(slice_to_vec(slice_subrange(input, 0, n))) {
        Some(text) => Ok((slice_subrange(input, n, input.len()), text)),
        None => Err(ParseError { input, kind: ErrorKind::MapRes }),
    }
}

/// The definition of an attribute of nodes: `BU_ ` and the text.
pub open spec fn attribute_definition_node_of(s: Seq<u8>) -> Parsed<AttributeDefinitionView> {
    let text = then(skip(tag_of(s, "BU_"), SPACE), |i: Seq<u8>| definition_text_of(i));
    give(text, AttributeDefinitionView::Node(value(text)))
}

/// Reads the definition of an attribute of nodes.
pub fn attribute_definition_node<'a>(input: &'a [u8]) -> (r: Result<
    (&'a [u8], AttributeDefinition),
    ParseError<'a>,
>)
    ensures
        outcome(r) == attribute_definition_node_of(input@),
{
    let (i, _) = tag(input, "BU_")?;
    let (i, _) = ss(i)?;
    let (i, text) = definition_text(i)?;
    Ok((i, AttributeDefinition::Node(text)))
}

/// The definition of an attribute of signals: `SG_ ` and the text.
pub open spec fn attribute_definition_signal_of(s: Seq<u8>) -> Parsed<AttributeDefinitionView> {
    let text = then(skip(tag_of(s, "SG_"), SPACE), |i: Seq<u8>| definition_text_of(i));
    give(text, AttributeDefinitionView::Signal(value(text)))
}

/// Reads the definition of an attribute of signals.
pub fn attribute_definition_signal<'a>(input: &'a [u8]) -> (r: Result<
    (&'a [u8], AttributeDefinition),
    ParseError<'a>,
>)
    ensures
        outcome(r) == attribute_definition_signal_of(input@),
{
    let (i, _) = tag(input, "SG_")?;
    let (i, _) = ss(i)?;
    let (i, text) = definition_text(i)?;
    Ok((i, AttributeDefinition::Signal(text)))
}

/// The definition of an attribute of environment variables: `EV_ ` and the
/// text.
pub open spec fn attribute_definition_environment_variable_of(s: Seq<u8>) -> Parsed<
    AttributeDefinitionView,
> {
    let text = then(skip(tag_of(s, "EV_"), SPACE), |i: Seq<u8>| definition_text_of(i));
    give(text, AttributeDefinitionView::EnvironmentVariable(value(text)))
}

/// Reads the definition of an attribute of environment variables.
pub fn attribute_definition_environment_variable<'a>(input: &'a [u8]) -> (r: Result<
    (&'a [u8], AttributeDefinition),
    ParseError<'a>,
>)
    ensures
        outcome(r) == attribute_definition_environment_variable_of(input@),
{
    let (i, _) = tag(input, "EV_")?;
    let (i, _) = ss(i)?;
    let (i, text) = definition_text(i)?;
    Ok((i, AttributeDefinition::EnvironmentVariable(text)))
}

/// The definition of an attribute of messages: `BO_ ` and the text.
pub open spec fn attribute_definition_message_of(s: Seq<u8>) -> Parsed<AttributeDefinitionView> {
    let text = then(skip(tag_of(s, "BO_"), SPACE), |i: Seq<u8>| definition_text_of(i));
    give(text, AttributeDefinitionView::Message(value(text)))
}

/// Reads the definition of an attribute of messages.
pub fn attribute_definition_message<'a>(input: &'a [u8]) -> (r: Result<
    (&'a [u8], AttributeDefinition),
    ParseError<'a>,
>)
    ensures
        outcome(r) == attribute_definition_message_of(input@),
{
    let (i, _) = tag(input, "BO_")?;
    let (i, _) = ss(i)?;
    let (i, text) = definition_text(i)?;
    Ok((i, AttributeDefinition::Message(text)))
}

/// The definition of an attribute of no class in particular: a space and
/// the text.
pub open spec fn attribute_definition_plain_of(s: Seq<u8>) -> Parsed<AttributeDefinitionView> {
    let text = then(crate::lexical::char_of(s, SPACE), |i: Seq<u8>| definition_text_of(i));
    give(text, AttributeDefinitionView::Plain(value(text)))
}

/// Reads the definition of an attribute of no class in particular.
pub fn attribute_definition_plain<'a>(input: &'a [u8]) -> (r: Result<
    (&'a [u8], AttributeDefinition),
    ParseError<'a>,
>)
    ensures
        outcome(r) == attribute_definition_plain_of(input@),
{
    let (i, _) = ss(input)?;
    let (i, text) = definition_text(i)?;
    Ok((i, AttributeDefinition::Plain(text)))
}

/// The forms of an attribute definition in the order in which they are
/// tried: node, signal, environment variable, message, and last the form
/// for no class. The first that matches decides. Where none matches the
/// failure is `Alt`.
pub open spec fn attribute_definition_target_of(s: Seq<u8>) -> Parsed<AttributeDefinitionView> {
    or(
        attribute_definition_node_of(s),
        or(
            attribute_definition_signal_of(s),
            or(
                attribute_definition_environment_variable_of(s),
                or(
                    attribute_definition_message_of(s),
                    or(attribute_definition_plain_of(s), fail(s, ErrorKind::Alt)),
                ),
            ),
        ),
    )
}

/// An attribute definition line: `BA_DEF_ `, one of the forms of an
/// attribute definition and a semicolon, after optional white space and up
/// to the end of the line.
pub open spec fn attribute_definition_of(s: Seq<u8>) -> Parsed<AttributeDefinitionView> {
    let def = then(
        skip(word(multispace0_of(s), "BA_DEF_"), SPACE),
        |i: Seq<u8>| attribute_definition_target_of(i),
    );
    let end = then(skip(def, SEMI_COLON), |i: Seq<u8>| eol_of(i));
    give(end, value(def))
}

/// Reads one attribute definition line.
pub fn attribute_definition<'a>(input: &'a [u8]) -> (r: Result<
    (&'a [u8], AttributeDefinition),
    ParseError<'a>,
>)
    ensures
        outcome(r) == attribute_definition_of(input@),
{
    let (i, _) = multispace0(input)?;
    let (i, _) = tag(i, "BA_DEF_")?;
    let (i, _) = ss(i)?;
    let (i, def) = if let Ok(done) = attribute_definition_node(i) {
        done
    } else if let Ok(done) = attribute_definition_signal(i) {
        done
    } else if let Ok(done) = attribute_definition_environment_variable(i) {
        done
    } else if let Ok(done) = attribute_definition_message(i) {
        done
    } else if let Ok(done) = attribute_definition_plain(i) {
        done
    } else {
        return Err(ParseError { input: i, kind: ErrorKind::Alt });
    };
    let (i, _) = semi_colon(i)?;
    let (i, _) = eol(i)?;
    Ok((i, def))
}

/// The start of an attribute definition's target decides its form,
/// whatever the order in which the forms are tried: after `BU_` only a
/// definition for nodes can be read, after `SG_` only one for signals, after
/// `EV_` only one for environment variables, after `BO_` only one for
/// messages, and after a space only one for no class.
pub proof fn lemma_attribute_definition_dispatch(s: Seq<u8>)
    ensures
        tag_of(s, "BU_") is Ok ==> attribute_definition_target_of(s) == or(
            attribute_definition_node_of(s),
            fail(s, ErrorKind::Alt),
        ),
        tag_of(s, "SG_") is Ok ==> attribute_definition_target_of(s) == or(
            attribute_definition_signal_of(s),
            fail(s, ErrorKind::Alt),
        ),
        tag_of(s, "EV_") is Ok ==> attribute_definition_target_of(s) == or(
            attribute_definition_environment_variable_of(s),
            fail(s, ErrorKind::Alt),
        ),
        tag_of(s, "BO_") is Ok ==> attribute_definition_target_of(s) == or(
            attribute_definition_message_of(s),
            fail(s, ErrorKind::Alt),
        ),
        s.len() > 0 && s[0] == SPACE ==> attribute_definition_target_of(s) == or(
            attribute_definition_plain_of(s),
            fail(s, ErrorKind::Alt),
        ),
{
    reveal_strlit("BU_");
    reveal_strlit("BO_");
    reveal_strlit("EV_");
    reveal_strlit("SG_");
    lemma_tag_bytes("BU_");
    lemma_tag_bytes("BO_");
    lemma_tag_bytes("EV_");
    lemma_tag_bytes("SG_");
    let bu = "BU_".spec_bytes();
    let bo = "BO_".spec_bytes();
    let ev = "EV_".spec_bytes();
    let sg = "SG_".spec_bytes();
    assert(bu[0] == 0x42 && bu[1] == 0x55);
    assert(bo[0] == 0x42 && bo[1] == 0x4f);
    assert(ev[0] == 0x45 && ev[1] == 0x56);
    assert(sg[0] == 0x53 && sg[1] == 0x47);
    if s.len() > 1 {
        if bu.is_prefix_of(s) {
            assert(s[0] == bu[0] && s[1] == bu[1]);
        }
        if bo.is_prefix_of(s) {
            assert(s[0] == bo[0] && s[1] == bo[1]);
        }
        if ev.is_prefix_of(s) {
            assert(s[0] == ev[0] && s[1] == ev[1]);
        }
        if sg.is_prefix_of(s) {
            assert(s[0] == sg[0] && s[1] == sg[1]);
        }
    }
    if s.len() == 1 {
        if bu.is_prefix_of(s) {
            assert(s[0] == bu[0]);
        }
        if bo.is_prefix_of(s) {
            assert(s[0] == bo[0]);
        }
        if ev.is_prefix_of(s) {
            assert(s[0] == ev[0]);
        }
        if sg.is_prefix_of(s) {
            assert(s[0] == sg[0]);
        }
    }
}

impl Rule for AttributeDefinition {
    type Output = AttributeDefinition;

    open spec fn parsed(s: Seq<u8>) -> Parsed<AttributeDefinitionView> {
        attribute_definition_of(s)
    }

    proof fn lemma_within(s: Seq<u8>) {
        lemma_attribute_definition_within(s);
    }

    fn parse<'a>(input: &'a [u8]) -> (r: Result<
        (&'a [u8], AttributeDefinition),
        ParseError<'a>,
    >) {
        attribute_definition(input)
    }
}

/// An attribute value leaves a final part of its input, and fails at its
/// start.
pub broadcast proof fn lemma_attribute_value_within(s: Seq<u8>)
    ensures
        within(#[trigger] attribute_value_of(s), s),
{
    broadcast use {group_lexical_within, lemma_span_bound, lemma_tail_from};
}

/// The text of an attribute definition leaves a final part of its input,
/// and fails at its start.
pub broadcast proof fn lemma_definition_text_within(s: Seq<u8>)
    ensures
        within(#[trigger] definition_text_of(s), s),
{
    broadcast use {group_lexical_within, lemma_span_bound, lemma_tail_from};
}

/// The values and texts of attributes stay inside their input.
pub broadcast group group_attribute_value_within {
    lemma_attribute_value_within,
    lemma_definition_text_within,
}

/// The default of an attribute leaves a final part of its input, and fails
/// inside it.
pub broadcast proof fn lemma_attribute_default_within(s: Seq<u8>)
    ensures
        within(#[trigger] attribute_default_of(s), s),
{
    broadcast use {
        group_lexical_within,
        group_scalar_within,
        group_attribute_value_within,
        lemma_opt_within,
    };
}

/// An attribute value for a node leaves a final part of its input, and
/// fails inside it.
pub broadcast proof fn lemma_network_node_attribute_value_within(s: Seq<u8>)
    ensures
        within(#[trigger] network_node_attribute_value_of(s), s),
{
    broadcast use {
        group_lexical_within,
        group_scalar_within,
        group_attribute_value_within,
        lemma_opt_within,
    };
}

/// An attribute value for a message leaves a final part of its input, and
/// fails inside it.
pub broadcast proof fn lemma_message_definition_attribute_value_within(s: Seq<u8>)
    ensures
        within(#[trigger] message_definition_attribute_value_of(s), s),
{
    broadcast use {
        group_lexical_within,
        group_scalar_within,
        group_attribute_value_within,
        lemma_opt_within,
    };
}

/// An attribute value for a signal leaves a final part of its input, and
/// fails inside it.
pub broadcast proof fn lemma_signal_attribute_value_within(s: Seq<u8>)
    ensures
        within(#[trigger] signal_attribute_value_of(s), s),
{
    broadcast use {
        group_lexical_within,
        group_scalar_within,
        group_attribute_value_within,
        lemma_opt_within,
    };
}

/// An attribute value for an environment variable leaves a final part of
/// its input, and fails inside it.
pub broadcast proof fn lemma_env_variable_attribute_value_within(s: Seq<u8>)
    ensures
        within(#[trigger] env_variable_attribute_value_of(s), s),
{
    broadcast use {
        group_lexical_within,
        group_scalar_within,
        group_attribute_value_within,
        lemma_opt_within,
    };
}

/// An attribute value for no object leaves a final part of its input, and
/// fails at its start.
pub broadcast proof fn lemma_raw_attribute_value_within(s: Seq<u8>)
    ensures
        within(#[trigger] raw_attribute_value_of(s), s),
{
    broadcast use {
        group_lexical_within,
        group_scalar_within,
        group_attribute_value_within,
        lemma_opt_within,
    };
}

/// The definition of an attribute of nodes leaves a final part of its
/// input, and fails inside it.
pub broadcast proof fn lemma_attribute_definition_node_within(s: Seq<u8>)
    ensures
        within(#[trigger] attribute_definition_node_of(s), s),
{
    broadcast use {
        group_lexical_within,
        group_scalar_within,
        group_attribute_value_within,
        lemma_opt_within,
    };
}

/// The definition of an attribute of signals leaves a final part of its
/// input, and fails inside it.
pub broadcast proof fn lemma_attribute_definition_signal_within(s: Seq<u8>)
    ensures
        within(#[trigger] attribute_definition_signal_of(s), s),
{
    broadcast use {
        group_lexical_within,
        group_scalar_within,
        group_attribute_value_within,
        lemma_opt_within,
    };
}

/// The definition of an attribute of environment variables leaves a final
/// part of its input, and fails inside it.
pub broadcast proof fn lemma_attribute_definition_environment_variable_within(s: Seq<u8>)
    ensures
        within(#[trigger] attribute_definition_environment_variable_of(s), s),
{
    broadcast use {
        group_lexical_within,
        group_scalar_within,
        group_attribute_value_within,
        lemma_opt_within,
    };
}

/// The definition of an attribute of messages leaves a final part of its
/// input, and fails inside it.
pub broadcast proof fn lemma_attribute_definition_message_within(s: Seq<u8>)
    ensures
        within(#[trigger] attribute_definition_message_of(s), s),
{
    broadcast use {
        group_lexical_within,
        group_scalar_within,
        group_attribute_value_within,
        lemma_opt_within,
    };
}

/// The definition of an attribute of no class leaves a final part of its
/// input, and fails inside it.
pub broadcast proof fn lemma_attribute_definition_plain_within(s: Seq<u8>)
    ensures
        within(#[trigger] attribute_definition_plain_of(s), s),
{
    broadcast use {
        group_lexical_within,
        group_scalar_within,
        group_attribute_value_within,
        lemma_opt_within,
    };
}

/// The forms of attribute lines stay inside their input.
pub broadcast group group_attribute_forms_within {
    lemma_attribute_default_within,
    lemma_network_node_attribute_value_within,
    lemma_message_definition_attribute_value_within,
    lemma_signal_attribute_value_within,
    lemma_env_variable_attribute_value_within,
    lemma_raw_attribute_value_within,
    lemma_attribute_definition_node_within,
    lemma_attribute_definition_signal_within,
    lemma_attribute_definition_environment_variable_within,
    lemma_attribute_definition_message_within,
    lemma_attribute_definition_plain_within,
}

/// The target and value of an attribute leave a final part of their input,
/// and fail at its start.
pub broadcast proof fn lemma_attribute_target_within(s: Seq<u8>)
    ensures
        within(#[trigger] attribute_target_of(s), s),
{
    broadcast use {lemma_tail_whole, group_attribute_forms_within};
}

/// The class and text of an attribute definition leave a final part of
/// their input, and fail at its start.
pub broadcast proof fn lemma_attribute_definition_target_within(s: Seq<u8>)
    ensures
        within(#[trigger] attribute_definition_target_of(s), s),
{
    broadcast use {lemma_tail_whole, group_attribute_forms_within};
}

/// The targets of attribute lines stay inside their input.
pub broadcast group group_attribute_targets_within {
    lemma_attribute_target_within,
    lemma_attribute_definition_target_within,
}

/// An attribute value line leaves a final part of its input, and fails
/// inside it.
pub broadcast proof fn lemma_attribute_value_for_object_within(s: Seq<u8>)
    ensures
        within(#[trigger] attribute_value_for_object_of(s), s),
{
    broadcast use {group_lexical_within, group_attribute_targets_within};
}

/// An attribute definition line leaves a final part of its input, and
/// fails inside it.
pub broadcast proof fn lemma_attribute_definition_within(s: Seq<u8>)
    ensures
        within(#[trigger] attribute_definition_of(s), s),
{
    broadcast use {group_lexical_within, group_attribute_targets_within};
}

/// The rules of attributes stay inside their input.
pub broadcast group group_attribute_within {
    lemma_attribute_value_for_object_within,
    lemma_attribute_definition_within,
}

} // verus!
