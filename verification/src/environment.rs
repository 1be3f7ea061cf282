//! Environment variables and the size of their data.

use vstd::prelude::*;
use crate::error::{fail, outcome, within, ErrorKind, ParseError, Parsed};
use crate::lexical::{
    brk_close, brk_open, c_ident, c_ident_of, char_string, char_string_of, colon, double, double_of,
    eol, eol_of, group_lexical_within, i64_digit, i64_digit_of, multispace0, multispace0_of, pipe,
    semi_colon, skip, ss, tag, tag_of, u64_s, u64_s_of, word, Comma, Double, BRK_CLOSE, BRK_OPEN,
    COLON, PIPE, SEMI_COLON, SPACE,
};
use crate::rule::{
    give, lemma_separated_nonempty_list_within, or, separated_nonempty_list,
    separated_nonempty_list_of, then, value, Rule,
};
use crate::scalar::{
    access_type, access_type_of, env_var_type, env_var_type_of, group_scalar_within, AccessType,
    EnvType,
};

verus! {

/// A node that may access an environment variable.
#[derive(Clone, Debug, PartialEq)]
pub enum AccessNode {
    /// No particular node.
    AccessNodeVectorXXX,
    /// The node of this name.
    AccessNodeName(String),
}

/// The mathematical value of a [`AccessNode`].
pub ghost enum AccessNodeView {
    AccessNodeVectorXXX,
    AccessNodeName(Seq<char>),
}

impl DeepView for AccessNode {
    type V = AccessNodeView;

    open spec fn deep_view(&self) -> AccessNodeView {
        match self {
            AccessNode::AccessNodeVectorXXX => AccessNodeView::AccessNodeVectorXXX,
            AccessNode::AccessNodeName(v0) => AccessNodeView::AccessNodeName(v0.deep_view()),
        }
    }
}

/// A named variable that lives outside the bus.
#[derive(Clone, Debug, PartialEq)]
pub struct EnvironmentVariable {
    /// The name of the variable.
    pub env_var_name: String,
    /// The type of the variable.
    pub env_var_type: EnvType,
    /// The least value.
    pub min: i64,
    /// The greatest value.
    pub max: i64,
    /// The unit of the value.
    pub unit: String,
    /// The value the variable starts with.
    pub initial_value: Double,
    /// The number of the variable.
    pub ev_id: i64,
    /// How the variable may be accessed.
    pub access_type: AccessType,
    /// The nodes that may access the variable.
    pub access_nodes: Vec<AccessNode>,
}

/// The mathematical value of a [`EnvironmentVariable`].
pub ghost struct EnvironmentVariableView {
    pub env_var_name: Seq<char>,
    pub env_var_type: EnvType,
    pub min: i64,
    pub max: i64,
    pub unit: Seq<char>,
    pub initial_value: Double,
    pub ev_id: i64,
    pub access_type: AccessType,
    pub access_nodes: Seq<AccessNodeView>,
}

impl DeepView for EnvironmentVariable {
    type V = EnvironmentVariableView;

    open spec fn deep_view(&self) -> EnvironmentVariableView {
        EnvironmentVariableView {
            env_var_name: self.env_var_name.deep_view(),
            env_var_type: self.env_var_type.deep_view(),
            min: self.min.deep_view(),
            max: self.max.deep_view(),
            unit: self.unit.deep_view(),
            initial_value: self.initial_value.deep_view(),
            ev_id: self.ev_id.deep_view(),
            access_type: self.access_type.deep_view(),
            access_nodes: self.access_nodes.deep_view(),
        }
    }
}

impl EnvironmentVariable {
    /// The name of the variable.
    pub fn env_var_name(&self) -> (r: &String)
        ensures
            *r == self.env_var_name,
    {
        &self.env_var_name
    }

    /// The type of the variable.
    pub fn env_var_type(&self) -> (r: &EnvType)
        ensures
            *r == self.env_var_type,
    {
        &self.env_var_type
    }

    /// The least value.
    pub fn min(&self) -> (r: &i64)
        ensures
            *r == self.min,
    {
        &self.min
    }

    /// The greatest value.
    pub fn max(&self) -> (r: &i64)
        ensures
            *r == self.max,
    {
        &self.max
    }

    /// The unit of the value.
    pub fn unit(&self) -> (r: &String)
        ensures
            *r == self.unit,
    {
        &self.unit
    }

    /// The value the variable starts with.
    pub fn initial_value(&self) -> (r: &Double)
        ensures
            *r == self.initial_value,
    {
        &self.initial_value
    }

    /// The number of the variable.
    pub fn ev_id(&self) -> (r: &i64)
        ensures
            *r == self.ev_id,
    {
        &self.ev_id
    }

    /// How the variable may be accessed.
    pub fn access_type(&self) -> (r: &AccessType)
        ensures
            *r == self.access_type,
    {
        &self.access_type
    }

    /// The nodes that may access the variable.
    pub fn access_nodes(&self) -> (r: &Vec<AccessNode>)
        ensures
            *r == self.access_nodes,
    {
        &self.access_nodes
    }
}

/// The size of an environment variable of the data type.
#[derive(Clone, Debug, PartialEq)]
pub struct EnvironmentVariableData {
    /// The name of the variable.
    pub env_var_name: String,
    /// The size of its data.
    pub data_size: u64,
}

/// The mathematical value of a [`EnvironmentVariableData`].
pub ghost struct EnvironmentVariableDataView {
    pub env_var_name: Seq<char>,
    pub data_size: u64,
}

impl DeepView for EnvironmentVariableData {
    type V = EnvironmentVariableDataView;

    open spec fn deep_view(&self) -> EnvironmentVariableDataView {
        EnvironmentVariableDataView {
            env_var_name: self.env_var_name.deep_view(),
            data_size: self.data_size.deep_view(),
        }
    }
}

impl EnvironmentVariableData {
    /// The name of the variable.
    pub fn env_var_name(&self) -> (r: &String)
        ensures
            *r == self.env_var_name,
    {
        &self.env_var_name
    }

    /// The size of its data.
    pub fn data_size(&self) -> (r: &u64)
        ensures
            *r == self.data_size,
    {
        &self.data_size
    }
}
/// An access node: the sentinel `VECTOR_XXX`, else a node name. Where
/// neither matches the failure is `Alt`.
pub open spec fn access_node_of(s: Seq<u8>) -> Parsed<AccessNodeView> {
    or(
        give(tag_of(s, "VECTOR_XXX"), AccessNodeView::AccessNodeVectorXXX),
        or(
            give(c_ident_of(s), AccessNodeView::AccessNodeName(value(c_ident_of(s)))),
            fail(s, ErrorKind::Alt),
        ),
    )
}

/// Recognises an access node.
pub fn access_node<'a>(input: &'a [u8]) -> (r: Result<(&'a [u8], AccessNode), ParseError<'a>>)
    ensures
        outcome(r) == access_node_of(input@),
{
    if let Ok((rest, _)) = tag(input, "VECTOR_XXX") {
        return Ok((rest, AccessNode::AccessNodeVectorXXX));
    }
    if let Ok((rest, name)) = c_ident(input) {
        return Ok((rest, AccessNode::AccessNodeName(name)));
    }
    Err(ParseError { input, kind: ErrorKind::Alt })
}

impl Rule for AccessNode {
    type Output = AccessNode;

    open spec fn parsed(s: Seq<u8>) -> Parsed<AccessNodeView> {
        access_node_of(s)
    }

    proof fn lemma_within(s: Seq<u8>) {
        lemma_access_node_within(s);
    }

    fn parse<'a>(input: &'a [u8]) -> (r: Result<(&'a [u8], AccessNode), ParseError<'a>>) {
        access_node(input)
    }
}

/// An environment variable:
/// `EV_ name: type [min|max] "unit" initial id access nodes;`, after
/// optional white space and up to the end of the line. The access nodes are
/// separated by commas.
pub open spec fn environment_variable_of(s: Seq<u8>) -> Parsed<EnvironmentVariableView> {
    let env_var_name = then(
        skip(word(multispace0_of(s), "EV_"), SPACE),
        |i: Seq<u8>| c_ident_of(i),
    );
    let env_var_type = then(
        skip(skip(env_var_name, COLON), SPACE),
        |i: Seq<u8>| env_var_type_of(i),
    );
    let min = then(skip(skip(env_var_type, SPACE), BRK_OPEN), |i: Seq<u8>| i64_digit_of(i));
    let max = then(skip(min, PIPE), |i: Seq<u8>| i64_digit_of(i));
    let unit = then(skip(skip(max, BRK_CLOSE), SPACE), |i: Seq<u8>| char_string_of(i));
    let initial_value = then(skip(unit, SPACE), |i: Seq<u8>| double_of(i));
    let ev_id = then(skip(initial_value, SPACE), |i: Seq<u8>| i64_digit_of(i));
    let access_type = then(skip(ev_id, SPACE), |i: Seq<u8>| access_type_of(i));
    let access_nodes = then(
        skip(access_type, SPACE),
        |i: Seq<u8>| separated_nonempty_list_of::<Comma, AccessNode>(i),
    );
    let end = then(skip(access_nodes, SEMI_COLON), |i: Seq<u8>| eol_of(i));
    give(
        end,
        EnvironmentVariableView {
            env_var_name: value(env_var_name),
            env_var_type: value(env_var_type),
            min: value(min),
            max: value(max),
            unit: value(unit),
            initial_value: value(initial_value),
            ev_id: value(ev_id),
            access_type: value(access_type),
            access_nodes: value(access_nodes),
        },
    )
}

/// Reads one environment variable.
pub fn environment_variable<'a>(input: &'a [u8]) -> (r: Result<
    (&'a [u8], EnvironmentVariable),
    ParseError<'a>,
>)
    ensures
        outcome(r) == environment_variable_of(input@),
{
    let (i, _) = multispace0(input)?;
    let (i, _) = tag(i, "EV_")?;
    let (i, _) = ss(i)?;
    let (i, env_var_name) = c_ident(i)?;
    let (i, _) = colon(i)?;
    let (i, _) = ss(i)?;
    let (i, env_var_type) = env_var_type(i)?;
    let (i, _) = ss(i)?;
    let (i, _) = brk_open(i)?;
    let (i, min) = i64_digit(i)?;
    let (i, _) = pipe(i)?;
    let (i, max) = i64_digit(i)?;
    let (i, _) = brk_close(i)?;
    let (i, _) = ss(i)?;
    let (i, unit) = char_string(i)?;
    let (i, _) = ss(i)?;
    let (i, initial_value) = double(i)?;
    let (i, _) = ss(i)?;
    let (i, ev_id) = i64_digit(i)?;
    let (i, _) = ss(i)?;
    let (i, access_type) = access_type(i)?;
    let (i, _) = ss(i)?;
    let (i, access_nodes) = separated_nonempty_list::<Comma, AccessNode>(i)?;
    let (i, _) = semi_colon(i)?;
    let (i, _) = eol(i)?;
    Ok(
        (
            i,
            EnvironmentVariable {
                env_var_name,
                env_var_type,
                min,
                max,
                unit,
                initial_value,
                ev_id,
                access_type,
                access_nodes,
            },
        ),
    )
}

impl Rule for EnvironmentVariable {
    type Output = EnvironmentVariable;

    open spec fn parsed(s: Seq<u8>) -> Parsed<EnvironmentVariableView> {
        environment_variable_of(s)
    }

    proof fn lemma_within(s: Seq<u8>) {
        lemma_environment_variable_within(s);
    }

    fn parse<'a>(input: &'a [u8]) -> (r: Result<
        (&'a [u8], EnvironmentVariable),
        ParseError<'a>,
    >) {
        environment_variable(input)
    }
}

/// The size of an environment variable's data: `ENVVAR_DATA_ name: size;`,
/// after optional white space and up to the end of the line.
pub open spec fn environment_variable_data_of(s: Seq<u8>) -> Parsed<EnvironmentVariableDataView> {
    let env_var_name = then(
        skip(word(multispace0_of(s), "ENVVAR_DATA_"), SPACE),
        |i: Seq<u8>| c_ident_of(i),
    );
    let data_size = then(skip(skip(env_var_name, COLON), SPACE), |i: Seq<u8>| u64_s_of(i));
    let end = then(skip(data_size, SEMI_COLON), |i: Seq<u8>| eol_of(i));
    give(
        end,
        EnvironmentVariableDataView {
            env_var_name: value(env_var_name),
            data_size: value(data_size),
        },
    )
}

/// Reads the size of one environment variable's data.
pub fn environment_variable_data<'a>(input: &'a [u8]) -> (r: Result<
    (&'a [u8], EnvironmentVariableData),
    ParseError<'a>,
>)
    ensures
        outcome(r) == environment_variable_data_of(input@),
{
    let (i, _) = multispace0(input)?;
    let (i, _) = tag(i, "ENVVAR_DATA_")?;
    let (i, _) = ss(i)?;
    let (i, env_var_name) = c_ident(i)?;
    let (i, _) = colon(i)?;
    let (i, _) = ss(i)?;
    let (i, data_size) = u64_s(i)?;
    let (i, _) = semi_colon(i)?;
    let (i, _) = eol(i)?;
    Ok((i, EnvironmentVariableData { env_var_name, data_size }))
}

impl Rule for EnvironmentVariableData {
    type Output = EnvironmentVariableData;

    open spec fn parsed(s: Seq<u8>) -> Parsed<EnvironmentVariableDataView> {
        environment_variable_data_of(s)
    }

    proof fn lemma_within(s: Seq<u8>) {
        lemma_environment_variable_data_within(s);
    }

    fn parse<'a>(input: &'a [u8]) -> (r: Result<
        (&'a [u8], EnvironmentVariableData),
        ParseError<'a>,
    >) {
        environment_variable_data(input)
    }
}

/// An access node leaves a final part of its input, and fails at its
/// start.
pub broadcast proof fn lemma_access_node_within(s: Seq<u8>)
    ensures
        within(#[trigger] access_node_of(s), s),
{
    broadcast use {
        group_lexical_within,
        group_scalar_within,
        lemma_separated_nonempty_list_within,
    };
}

/// An environment variable leaves a final part of its input, and fails
/// inside it.
pub broadcast proof fn lemma_environment_variable_within(s: Seq<u8>)
    ensures
        within(#[trigger] environment_variable_of(s), s),
{
    broadcast use {
        group_lexical_within,
        group_scalar_within,
        lemma_separated_nonempty_list_within,
        lemma_access_node_within,
    };
}

/// The size of an environment variable's data leaves a final part of its
/// input, and fails inside it.
pub broadcast proof fn lemma_environment_variable_data_within(s: Seq<u8>)
    ensures
        within(#[trigger] environment_variable_data_of(s), s),
{
    broadcast use {
        group_lexical_within,
        group_scalar_within,
        lemma_separated_nonempty_list_within,
        lemma_access_node_within,
        lemma_environment_variable_within,
    };
}

/// The rules of environment variables stay inside their input.
pub broadcast group group_environment_within {
    lemma_access_node_within,
    lemma_environment_variable_within,
    lemma_environment_variable_data_within,
}

} // verus!
