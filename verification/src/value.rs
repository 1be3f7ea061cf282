//! Value descriptions: pairs of a raw value and a label, in value tables
//! and bound to signals and environment variables.

use vstd::prelude::*;
use crate::error::{fail, outcome, within, ErrorKind, ParseError, Parsed};
use crate::lexical::{
    c_ident, c_ident_of, char_of, char_string, char_string_of, double, double_of, eol, eol_of,
    group_lexical_within, lemma_c_ident_rejects_leading_digit, multispace0, multispace0_of,
    semi_colon, skip, ss, tag, tag_of, word, Double, SEMI_COLON, SPACE,
};
use crate::rule::{give, lemma_deep_view_empty, lemma_deep_view_push, or, then, value, Rule};
use crate::scalar::{group_scalar_within, message_id, message_id_of, MessageId};
use crate::trusted::{digit_run, is_dec_digit};

verus! {

/// One pair of a raw value and the label that describes it.
#[derive(Clone, Debug, PartialEq)]
pub struct ValDescription {
    /// The raw value.
    pub a: Double,
    /// The label.
    pub b: String,
}

/// The mathematical value of a [`ValDescription`].
pub ghost struct ValDescriptionView {
    pub a: Double,
    pub b: Seq<char>,
}

impl DeepView for ValDescription {
    type V = ValDescriptionView;

    open spec fn deep_view(&self) -> ValDescriptionView {
        ValDescriptionView {
            a: self.a.deep_view(),
            b: self.b.deep_view(),
        }
    }
}

impl ValDescription {
    /// The raw value.
    pub fn a(&self) -> (r: &Double)
        ensures
            *r == self.a,
    {
        &self.a
    }

    /// The label.
    pub fn b(&self) -> (r: &String)
        ensures
            *r == self.b,
    {
        &self.b
    }
}

/// A named table of value descriptions.
#[derive(Clone, Debug, PartialEq)]
pub struct ValueTable {
    /// The name of the table.
    pub value_table_name: String,
    /// The pairs of the table, in the order of the line.
    pub value_descriptions: Vec<ValDescription>,
}

/// The mathematical value of a [`ValueTable`].
pub ghost struct ValueTableView {
    pub value_table_name: Seq<char>,
    pub value_descriptions: Seq<ValDescriptionView>,
}

impl DeepView for ValueTable {
    type V = ValueTableView;

    open spec fn deep_view(&self) -> ValueTableView {
        ValueTableView {
            value_table_name: self.value_table_name.deep_view(),
            value_descriptions: self.value_descriptions.deep_view(),
        }
    }
}

impl ValueTable {
    /// The name of the table.
    pub fn value_table_name(&self) -> (r: &String)
        ensures
            *r == self.value_table_name,
    {
        &self.value_table_name
    }

    /// The pairs of the table, in the order of the line.
    pub fn value_descriptions(&self) -> (r: &Vec<ValDescription>)
        ensures
            *r == self.value_descriptions,
    {
        &self.value_descriptions
    }
}

/// The value descriptions of a signal or of an environment variable.
#[derive(Clone, Debug, PartialEq)]
pub enum ValueDescription {
    /// The descriptions of the values of a signal.
    Signal { message_id: MessageId, signal_name: String, value_descriptions: Vec<ValDescription> },
    /// The descriptions of the values of an environment variable.
    EnvironmentVariable { env_var_name: String, value_descriptions: Vec<ValDescription> },
}

/// The mathematical value of a [`ValueDescription`].
pub ghost enum ValueDescriptionView {
    Signal {
        message_id: MessageId,
        signal_name: Seq<char>,
        value_descriptions: Seq<ValDescriptionView>,
    },
    EnvironmentVariable { env_var_name: Seq<char>, value_descriptions: Seq<ValDescriptionView> },
}

impl DeepView for ValueDescription {
    type V = ValueDescriptionView;

    open spec fn deep_view(&self) -> ValueDescriptionView {
        match self {
            ValueDescription::Signal {
                message_id,
                signal_name,
                value_descriptions,
            } => ValueDescriptionView::Signal {
                message_id: message_id.deep_view(),
                signal_name: signal_name.deep_view(),
                value_descriptions: value_descriptions.deep_view(),
            },
            ValueDescription::EnvironmentVariable {
                env_var_name,
                value_descriptions,
            } => ValueDescriptionView::EnvironmentVariable {
                env_var_name: env_var_name.deep_view(),
                value_descriptions: value_descriptions.deep_view(),
            },
        }
    }
}
/// One value description: a number, a space and a quoted label.
pub open spec fn value_description_of(s: Seq<u8>) -> Parsed<ValDescriptionView> {
    let a = double_of(s);
    let b = then(skip(a, SPACE), |i: Seq<u8>| char_string_of(i));
    give(b, ValDescriptionView { a: value(a), b: value(b) })
}

/// Reads one value description.
pub fn value_description<'a>(input: &'a [u8]) -> (r: Result<
    (&'a [u8], ValDescription),
    ParseError<'a>,
>)
    ensures
        outcome(r) == value_description_of(input@),
{
    let (i, a) = double(input)?;
    let (i, _) = ss(i)?;
    let (i, b) = char_string(i)?;
    Ok((i, ValDescription { a, b }))
}

/// `r` with `items` put before the values that it holds.
pub open spec fn prepend<A>(items: Seq<A>, r: Parsed<Seq<A>>) -> Parsed<Seq<A>> {
    match r {
        Ok((rest, more)) => Ok((rest, items + more)),
        Err(e) => Err(e),
    }
}

/// A list of value descriptions, each after a space, up to a space and a
/// semicolon. At each place the end is tried first. Fails as `ManyTill`
/// where neither the end nor a further description follows.
pub open spec fn value_description_list_of(s: Seq<u8>) -> Parsed<Seq<ValDescriptionView>>
    decreases s.len(),
{
    let end = skip(char_of(s, SPACE), SEMI_COLON);
    let item = then(char_of(s, SPACE), |i: Seq<u8>| value_description_of(i));
    match (end, item) {
        (Ok((rest, _)), _) => Ok((rest, Seq::empty())),
        (Err(_), Ok((rest, first))) => if rest.len() < s.len() {
            prepend(seq![first], value_description_list_of(rest))
        } else {
            fail(s, ErrorKind::ManyTill)
        },
        (Err(_), Err(_)) => fail(s, ErrorKind::ManyTill),
    }
}

/// Reads value descriptions up to the semicolon that ends them.
pub fn value_description_list<'a>(input: &'a [u8]) -> (r: Result<
    (&'a [u8], Vec<ValDescription>),
    ParseError<'a>,
>)
    ensures
        outcome(r) == value_description_list_of(input@),
{
    let mut items: Vec<ValDescription> = Vec::new();
    let mut cur: &'a [u8] = input;
    proof {
        lemma_deep_view_empty(items);
        let whole = value_description_list_of(input@);
        assert(prepend(Seq::empty(), whole) == whole) by {
            if let Ok((rest, more)) = whole {
                assert(Seq::empty() + more =~= more);
            }
        }
    }
    loop
        invariant
            value_description_list_of(input@) == prepend(
                items.deep_view(),
                value_description_list_of(cur@),
            ),
        decreases cur@.len(),
    {
        if let Ok((i, _)) = ss(cur) {
            if let Ok((rest, _)) = semi_colon(i) {
                assert(items.deep_view() + Seq::empty() =~= items.deep_view());
                return Ok((rest, items));
            }
            if let Ok((rest, item)) = value_description(i) {
                if rest.len() < cur.len() {
                    let ghost before = items;
                    let ghost tail = value_description_list_of(rest@);
                    items.push(item);
                    proof {
                        lemma_deep_view_push(before, items, item);
                        if let Ok((end, more)) = tail {
                            assert(before.deep_view() + (seq![item.deep_view()] + more)
                                =~= items.deep_view() + more);
                        }
                    }
                    cur = rest;
                    continue ;
                }
            }
        }
        return Err(ParseError { input: cur, kind: ErrorKind::ManyTill });
    }
}

/// A value table: `VAL_TABLE_ name`, a space, the value descriptions up to
/// their semicolon, after optional white space and up to the end of the
/// line.
pub open spec fn value_table_of(s: Seq<u8>) -> Parsed<ValueTableView> {
    let value_table_name = then(
        skip(word(multispace0_of(s), "VAL_TABLE_"), SPACE),
        |i: Seq<u8>| c_ident_of(i),
    );
    let value_descriptions = then(
        skip(value_table_name, SPACE),
        |i: Seq<u8>| value_description_list_of(i),
    );
    let end = then(value_descriptions, |i: Seq<u8>| eol_of(i));
    give(
        end,
        ValueTableView {
            value_table_name: value(value_table_name),
            value_descriptions: value(value_descriptions),
        },
    )
}

/// Reads one value table.
pub fn value_table<'a>(input: &'a [u8]) -> (r: Result<(&'a [u8], ValueTable), ParseError<'a>>)
    ensures
        outcome(r) == value_table_of(input@),
{
    let (i, _) = multispace0(input)?;
    let (i, _) = tag(i, "VAL_TABLE_")?;
    let (i, _) = ss(i)?;
    let (i, value_table_name) = c_ident(i)?;
    let (i, _) = ss(i)?;
    let (i, value_descriptions) = value_description_list(i)?;
    let (i, _) = eol(i)?;
    Ok((i, ValueTable { value_table_name, value_descriptions }))
}

impl Rule for ValueTable {
    type Output = ValueTable;

    open spec fn parsed(s: Seq<u8>) -> Parsed<ValueTableView> {
        value_table_of(s)
    }

    proof fn lemma_within(s: Seq<u8>) {
        lemma_value_table_within(s);
    }

    fn parse<'a>(input: &'a [u8]) -> (r: Result<(&'a [u8], ValueTable), ParseError<'a>>) {
        value_table(input)
    }
}

/// The value descriptions of a signal: `VAL_ id name` and the descriptions
/// up to their semicolon.
pub open spec fn value_description_for_signal_of(s: Seq<u8>) -> Parsed<ValueDescriptionView> {
    let message_id = then(skip(tag_of(s, "VAL_"), SPACE), |i: Seq<u8>| message_id_of(i));
    let signal_name = then(skip(message_id, SPACE), |i: Seq<u8>| c_ident_of(i));
    let value_descriptions = then(signal_name, |i: Seq<u8>| value_description_list_of(i));
    give(
        value_descriptions,
        ValueDescriptionView::Signal {
            message_id: value(message_id),
            signal_name: value(signal_name),
            value_descriptions: value(value_descriptions),
        },
    )
}

/// Reads the value descriptions of a signal.
pub fn value_description_for_signal<'a>(input: &'a [u8]) -> (r: Result<
    (&'a [u8], ValueDescription),
    ParseError<'a>,
>)
    ensures
        outcome(r) == value_description_for_signal_of(input@),
{
    let (i, _) = tag(input, "VAL_")?;
    let (i, _) = ss(i)?;
    let (i, message_id) = message_id(i)?;
    let (i, _) = ss(i)?;
    let (i, signal_name) = c_ident(i)?;
    let (i, value_descriptions) = value_description_list(i)?;
    Ok((i, ValueDescription::Signal { message_id, signal_name, value_descriptions }))
}

/// The value descriptions of an environment variable: `VAL_ name` and the
/// descriptions up to their semicolon.
pub open spec fn value_description_for_env_var_of(s: Seq<u8>) -> Parsed<ValueDescriptionView> {
    let env_var_name = then(skip(tag_of(s, "VAL_"), SPACE), |i: Seq<u8>| c_ident_of(i));
    let value_descriptions = then(env_var_name, |i: Seq<u8>| value_description_list_of(i));
    give(
        value_descriptions,
        ValueDescriptionView::EnvironmentVariable {
            env_var_name: value(env_var_name),
            value_descriptions: value(value_descriptions),
        },
    )
}

/// Reads the value descriptions of an environment variable.
pub fn value_description_for_env_var<'a>(input: &'a [u8]) -> (r: Result<
    (&'a [u8], ValueDescription),
    ParseError<'a>,
>)
    ensures
        outcome(r) == value_description_for_env_var_of(input@),
{
    let (i, _) = tag(input, "VAL_")?;
    let (i, _) = ss(i)?;
    let (i, env_var_name) = c_ident(i)?;
    let (i, value_descriptions) = value_description_list(i)?;
    Ok((i, ValueDescription::EnvironmentVariable { env_var_name, value_descriptions }))
}

/// The form for a signal, else the form for an environment variable, at
/// `s`. Where neither matches the failure is `Alt`.
pub open spec fn value_description_target_of(s: Seq<u8>) -> Parsed<ValueDescriptionView> {
    or(
        value_description_for_signal_of(s),
        or(value_description_for_env_var_of(s), fail(s, ErrorKind::Alt)),
    )
}

/// What follows the keyword decides the form: a decimal digit starts a
/// message identifier and no identifier, so only the form for a signal can
/// be read after it; anything else starts no message identifier, so only
/// the form for an environment variable can be read.
pub proof fn lemma_value_description_dispatch(s: Seq<u8>)
    requires
        skip(tag_of(s, "VAL_"), SPACE) is Ok,
    ensures
        ({
            let i = skip(tag_of(s, "VAL_"), SPACE)->Ok_0.0;
            if i.len() > 0 && is_dec_digit(i[0]) {
                value_description_target_of(s) == or(
                    value_description_for_signal_of(s),
                    fail(s, ErrorKind::Alt),
                )
            } else {
                value_description_target_of(s) == or(
                    value_description_for_env_var_of(s),
                    fail(s, ErrorKind::Alt),
                )
            }
        }),
{
    let i = skip(tag_of(s, "VAL_"), SPACE)->Ok_0.0;
    if i.len() > 0 && is_dec_digit(i[0]) {
        lemma_c_ident_rejects_leading_digit(i);
    } else {
        assert(digit_run(i) == 0);
    }
}

/// A `VAL_` line: the value descriptions of a signal, where a message
/// identifier and a signal name follow the keyword, else those of an
/// environment variable, after optional white space and up to the end of the
/// line.
pub open spec fn value_descriptions_of(s: Seq<u8>) -> Parsed<ValueDescriptionView> {
    let target = then(multispace0_of(s), |i: Seq<u8>| value_description_target_of(i));
    let end = then(target, |i: Seq<u8>| eol_of(i));
    give(end, value(target))
}

/// Reads one `VAL_` line.
pub fn value_descriptions<'a>(input: &'a [u8]) -> (r: Result<
    (&'a [u8], ValueDescription),
    ParseError<'a>,
>)
    ensures
        outcome(r) == value_descriptions_of(input@),
{
    let (i, _) = multispace0(input)?;
    let (i, target) = if let Ok(done) = value_description_for_signal(i) {
        done
    } else if let Ok(done) = value_description_for_env_var(i) {
        done
    } else {
        return Err(ParseError { input: i, kind: ErrorKind::Alt });
    };
    let (i, _) = eol(i)?;
    Ok((i, target))
}

impl Rule for ValueDescription {
    type Output = ValueDescription;

    open spec fn parsed(s: Seq<u8>) -> Parsed<ValueDescriptionView> {
        value_descriptions_of(s)
    }

    proof fn lemma_within(s: Seq<u8>) {
        lemma_value_descriptions_within(s);
    }

    fn parse<'a>(input: &'a [u8]) -> (r: Result<(&'a [u8], ValueDescription), ParseError<'a>>) {
        value_descriptions(input)
    }
}

/// A value description leaves a final part of its input, and fails inside
/// it.
pub broadcast proof fn lemma_value_description_within(s: Seq<u8>)
    ensures
        within(#[trigger] value_description_of(s), s),
{
    broadcast use {group_lexical_within, group_scalar_within};
}

/// A list of value descriptions leaves a final part of its input, and
/// fails inside it: by induction on the length of the input.
proof fn lemma_value_description_list_inside(s: Seq<u8>)
    ensures
        within(value_description_list_of(s), s),
    decreases s.len(),
{
    broadcast use {group_lexical_within, lemma_value_description_within};

    let item = then(char_of(s, SPACE), |i: Seq<u8>| value_description_of(i));
    if skip(char_of(s, SPACE), SEMI_COLON) is Err {
        if let Ok((rest, _)) = item {
            if rest.len() < s.len() {
                lemma_value_description_list_inside(rest);
            }
        }
    }
}

/// A list of value descriptions leaves a final part of its input, and
/// fails inside it.
pub broadcast proof fn lemma_value_description_list_within(s: Seq<u8>)
    ensures
        within(#[trigger] value_description_list_of(s), s),
{
    broadcast use {group_lexical_within, group_scalar_within, lemma_value_description_within};

    lemma_value_description_list_inside(s);
}

/// A value table leaves a final part of its input, and fails inside it.
pub broadcast proof fn lemma_value_table_within(s: Seq<u8>)
    ensures
        within(#[trigger] value_table_of(s), s),
{
    broadcast use {
        group_lexical_within,
        group_scalar_within,
        lemma_value_description_within,
        lemma_value_description_list_within,
    };
}

/// The value descriptions of a signal leave a final part of their input,
/// and fail inside it.
pub broadcast proof fn lemma_value_description_for_signal_within(s: Seq<u8>)
    ensures
        within(#[trigger] value_description_for_signal_of(s), s),
{
    broadcast use {
        group_lexical_within,
        group_scalar_within,
        lemma_value_description_within,
        lemma_value_description_list_within,
        lemma_value_table_within,
    };
}

/// The value descriptions of an environment variable leave a final part of
/// their input, and fail inside it.
pub broadcast proof fn lemma_value_description_for_env_var_within(s: Seq<u8>)
    ensures
        within(#[trigger] value_description_for_env_var_of(s), s),
{
    broadcast use {
        group_lexical_within,
        group_scalar_within,
        lemma_value_description_within,
        lemma_value_description_list_within,
        lemma_value_table_within,
        lemma_value_description_for_signal_within,
    };
}

/// A `VAL_` line leaves a final part of its input, and fails inside it.
pub broadcast proof fn lemma_value_descriptions_within(s: Seq<u8>)
    ensures
        within(#[trigger] value_descriptions_of(s), s),
{
    broadcast use {
        group_lexical_within,
        group_scalar_within,
        lemma_value_description_within,
        lemma_value_description_list_within,
        lemma_value_table_within,
        lemma_value_description_for_signal_within,
        lemma_value_description_for_env_var_within,
    };
}

/// The rules of value descriptions stay inside their input.
pub broadcast group group_value_within {
    lemma_value_description_within,
    lemma_value_description_list_within,
    lemma_value_table_within,
    lemma_value_description_for_signal_within,
    lemma_value_description_for_env_var_within,
    lemma_value_descriptions_within,
}

} // verus!
