//! Comments. A `CM_` line names its target by a tag (`BU_`, `BO_`, `EV_`,
//! `SG_`) or, without a tag, has none.

use vstd::prelude::*;
use crate::error::{fail, lemma_tail_whole, outcome, within, ErrorKind, ParseError, Parsed};
use crate::lexical::{
    c_ident, c_ident_of, char_string, char_string_of, eol, eol_of, group_lexical_within,
    lemma_tag_bytes, multispace0, multispace0_of, semi_colon, skip, ss, tag, tag_of, word, QUOTE,
    SEMI_COLON, SPACE,
};
use vstd::string::StringSliceAdditionalSpecFns;
use crate::rule::{give, or, then, value, Rule};
use crate::scalar::{group_scalar_within, message_id, message_id_of, MessageId};

verus! {

/// Free text attached to an object of the document, or to none.
#[derive(Clone, Debug, PartialEq)]
pub enum Comment {
    /// A comment on a node.
    Node { node_name: String, comment: String },
    /// A comment on a message.
    Message { message_id: MessageId, comment: String },
    /// A comment on a signal.
    Signal { message_id: MessageId, signal_name: String, comment: String },
    /// A comment on an environment variable.
    EnvVar { env_var_name: String, comment: String },
    /// A comment on nothing in particular.
    Plain { comment: String },
}

/// The mathematical value of a [`Comment`].
pub ghost enum CommentView {
    Node { node_name: Seq<char>, comment: Seq<char> },
    Message { message_id: MessageId, comment: Seq<char> },
    Signal { message_id: MessageId, signal_name: Seq<char>, comment: Seq<char> },
    EnvVar { env_var_name: Seq<char>, comment: Seq<char> },
    Plain { comment: Seq<char> },
}

impl DeepView for Comment {
    type V = CommentView;

    open spec fn deep_view(&self) -> CommentView {
        match self {
            Comment::Node { node_name, comment } => CommentView::Node {
                node_name: node_name.deep_view(),
                comment: comment.deep_view(),
            },
            Comment::Message { message_id, comment } => CommentView::Message {
                message_id: message_id.deep_view(),
                comment: comment.deep_view(),
            },
            Comment::Signal { message_id, signal_name, comment } => CommentView::Signal {
                message_id: message_id.deep_view(),
                signal_name: signal_name.deep_view(),
                comment: comment.deep_view(),
            },
            Comment::EnvVar { env_var_name, comment } => CommentView::EnvVar {
                env_var_name: env_var_name.deep_view(),
                comment: comment.deep_view(),
            },
            Comment::Plain { comment } => CommentView::Plain {
                comment: comment.deep_view(),
            },
        }
    }
}
/// A comment on a node: `BU_ name "text"`.
pub open spec fn node_comment_of(s: Seq<u8>) -> Parsed<CommentView> {
    let node_name = then(skip(tag_of(s, "BU_"), SPACE), |i: Seq<u8>| c_ident_of(i));
    let comment = then(skip(node_name, SPACE), |i: Seq<u8>| char_string_of(i));
    give(comment, CommentView::Node { node_name: value(node_name), comment: value(comment) })
}

/// Reads a comment on a node.
pub fn node_comment<'a>(input: &'a [u8]) -> (r: Result<(&'a [u8], Comment), ParseError<'a>>)
    ensures
        outcome(r) == node_comment_of(input@),
{
    let (i, _) = tag(input, "BU_")?;
    let (i, _) = ss(i)?;
    let (i, node_name) = c_ident(i)?;
    let (i, _) = ss(i)?;
    let (i, comment) = char_string(i)?;
    Ok((i, Comment::Node { node_name, comment }))
}

/// A comment on a message: `BO_ id "text"`.
pub open spec fn message_comment_of(s: Seq<u8>) -> Parsed<CommentView> {
    let message_id = then(skip(tag_of(s, "BO_"), SPACE), |i: Seq<u8>| message_id_of(i));
    let comment = then(skip(message_id, SPACE), |i: Seq<u8>| char_string_of(i));
    give(comment, CommentView::Message { message_id: value(message_id), comment: value(comment) })
}

/// Reads a comment on a message.
pub fn message_comment<'a>(input: &'a [u8]) -> (r: Result<(&'a [u8], Comment), ParseError<'a>>)
    ensures
        outcome(r) == message_comment_of(input@),
{
    let (i, _) = tag(input, "BO_")?;
    let (i, _) = ss(i)?;
    let (i, message_id) = message_id(i)?;
    let (i, _) = ss(i)?;
    let (i, comment) = char_string(i)?;
    Ok((i, Comment::Message { message_id, comment }))
}

/// A comment on a signal: `SG_ id name "text"`.
pub open spec fn signal_comment_of(s: Seq<u8>) -> Parsed<CommentView> {
    let message_id = then(skip(tag_of(s, "SG_"), SPACE), |i: Seq<u8>| message_id_of(i));
    let signal_name = then(skip(message_id, SPACE), |i: Seq<u8>| c_ident_of(i));
    let comment = then(skip(signal_name, SPACE), |i: Seq<u8>| char_string_of(i));
    give(
        comment,
        CommentView::Signal {
            message_id: value(message_id),
            signal_name: value(signal_name),
            comment: value(comment),
        },
    )
}

/// Reads a comment on a signal.
pub fn signal_comment<'a>(input: &'a [u8]) -> (r: Result<(&'a [u8], Comment), ParseError<'a>>)
    ensures
        outcome(r) == signal_comment_of(input@),
{
    let (i, _) = tag(input, "SG_")?;
    let (i, _) = ss(i)?;
    let (i, message_id) = message_id(i)?;
    let (i, _) = ss(i)?;
    let (i, signal_name) = c_ident(i)?;
    let (i, _) = ss(i)?;
    let (i, comment) = char_string(i)?;
    Ok((i, Comment::Signal { message_id, signal_name, comment }))
}

/// A comment on an environment variable: `EV_ name "text"`.
pub open spec fn env_var_comment_of(s: Seq<u8>) -> Parsed<CommentView> {
    let env_var_name = then(skip(tag_of(s, "EV_"), SPACE), |i: Seq<u8>| c_ident_of(i));
    let comment = then(skip(env_var_name, SPACE), |i: Seq<u8>| char_string_of(i));
    give(
        comment,
        CommentView::EnvVar { env_var_name: value(env_var_name), comment: value(comment) },
    )
}

/// Reads a comment on an environment variable.
pub fn env_var_comment<'a>(input: &'a [u8]) -> (r: Result<(&'a [u8], Comment), ParseError<'a>>)
    ensures
        outcome(r) == env_var_comment_of(input@),
{
    let (i, _) = tag(input, "EV_")?;
    let (i, _) = ss(i)?;
    let (i, env_var_name) = c_ident(i)?;
    let (i, _) = ss(i)?;
    let (i, comment) = char_string(i)?;
    Ok((i, Comment::EnvVar { env_var_name, comment }))
}

/// A comment without a target: `"text"`.
pub open spec fn comment_plain_of(s: Seq<u8>) -> Parsed<CommentView> {
    give(char_string_of(s), CommentView::Plain { comment: value(char_string_of(s)) })
}

/// Reads a comment without a target.
pub fn comment_plain<'a>(input: &'a [u8]) -> (r: Result<(&'a [u8], Comment), ParseError<'a>>)
    ensures
        outcome(r) == comment_plain_of(input@),
{
    let (i, comment) = char_string(input)?;
    Ok((i, Comment::Plain { comment }))
}

/// The forms of a comment in the order in which they are tried: node,
/// message, environment variable, signal, and last the form without a
/// target, which has no tag to tell it by. The first that matches decides.
/// Where none matches the failure is `Alt`.
pub open spec fn comment_target_of(s: Seq<u8>) -> Parsed<CommentView> {
    or(
        node_comment_of(s),
        or(
            message_comment_of(s),
            or(
                env_var_comment_of(s),
                or(signal_comment_of(s), or(comment_plain_of(s), fail(s, ErrorKind::Alt))),
            ),
        ),
    )
}

/// A comment line: `CM_ `, one of the forms of a comment and a semicolon,
/// after optional white space and up to the end of the line.
pub open spec fn comment_of(s: Seq<u8>) -> Parsed<CommentView> {
    let target = then(
        skip(word(multispace0_of(s), "CM_"), SPACE),
        |i: Seq<u8>| comment_target_of(i),
    );
    let end = then(skip(target, SEMI_COLON), |i: Seq<u8>| eol_of(i));
    give(end, value(target))
}

/// Reads one comment line.
pub fn comment<'a>(input: &'a [u8]) -> (r: Result<(&'a [u8], Comment), ParseError<'a>>)
    ensures
        outcome(r) == comment_of(input@),
{
    let (i, _) = multispace0(input)?;
    let (i, _) = tag(i, "CM_")?;
    let (i, _) = ss(i)?;
    let (i, target) = if let Ok(done) = node_comment(i) {
        done
    } else if let Ok(done) = message_comment(i) {
        done
    } else if let Ok(done) = env_var_comment(i) {
        done
    } else if let Ok(done) = signal_comment(i) {
        done
    } else if let Ok(done) = comment_plain(i) {
        done
    } else {
        return Err(ParseError { input: i, kind: ErrorKind::Alt });
    };
    let (i, _) = semi_colon(i)?;
    let (i, _) = eol(i)?;
    Ok((i, target))
}

/// The tag at the start of a comment's target decides its form, whatever
/// the order in which the forms are tried: after `SG_` only a comment on a
/// signal can be read, after `BO_` only one on a message, after `BU_` only
/// one on a node, after `EV_` only one on an environment variable. The
/// form without a target is read only where a quoted string starts.
pub proof fn lemma_comment_dispatch(s: Seq<u8>)
    ensures
        tag_of(s, "BU_") is Ok ==> comment_target_of(s) == or(
            node_comment_of(s),
            fail(s, ErrorKind::Alt),
        ),
        tag_of(s, "BO_") is Ok ==> comment_target_of(s) == or(
            message_comment_of(s),
            fail(s, ErrorKind::Alt),
        ),
        tag_of(s, "EV_") is Ok ==> comment_target_of(s) == or(
            env_var_comment_of(s),
            fail(s, ErrorKind::Alt),
        ),
        tag_of(s, "SG_") is Ok ==> comment_target_of(s) == or(
            signal_comment_of(s),
            fail(s, ErrorKind::Alt),
        ),
        s.len() > 0 && s[0] == QUOTE ==> comment_target_of(s) == or(
            comment_plain_of(s),
            fail(s, ErrorKind::Alt),
        ),
{
    reveal_strlit("BU_");
    reveal_strlit("BO_");
    reveal_strlit("EV_");
    reveal_strlit("SG_");
    lemma_tag_bytes("BU_");
    lemma_tag_bytes("BO_");
    lemma_tag_bytes("EV_");
    lemma_tag_bytes("SG_");
    let bu = "BU_".spec_bytes();
    let bo = "BO_".spec_bytes();
    let ev = "EV_".spec_bytes();
    let sg = "SG_".spec_bytes();
    assert(bu[0] == 0x42 && bu[1] == 0x55);
    assert(bo[0] == 0x42 && bo[1] == 0x4f);
    assert(ev[0] == 0x45 && ev[1] == 0x56);
    assert(sg[0] == 0x53 && sg[1] == 0x47);
    if tag_of(s, "BU_") is Ok {
        assert(s[0] == bu[0] && s[1] == bu[1]);
    }
    if tag_of(s, "BO_") is Ok {
        assert(s[0] == bo[0] && s[1] == bo[1]);
    }
    if tag_of(s, "EV_") is Ok {
        assert(s[0] == ev[0] && s[1] == ev[1]);
    }
    if tag_of(s, "SG_") is Ok {
        assert(s[0] == sg[0] && s[1] == sg[1]);
    }
    if s.len() > 0 {
        if bu.is_prefix_of(s) {
            assert(s[0] == bu[0]);
        }
        if bo.is_prefix_of(s) {
            assert(s[0] == bo[0] && s[1] == bo[1]);
        }
        if ev.is_prefix_of(s) {
            assert(s[0] == ev[0]);
        }
        if sg.is_prefix_of(s) {
            assert(s[0] == sg[0]);
        }
    }
}

impl Rule for Comment {
    type Output = Comment;

    open spec fn parsed(s: Seq<u8>) -> Parsed<CommentView> {
        comment_of(s)
    }

    proof fn lemma_within(s: Seq<u8>) {
        lemma_comment_within(s);
    }

    fn parse<'a>(input: &'a [u8]) -> (r: Result<(&'a [u8], Comment), ParseError<'a>>) {
        comment(input)
    }
}

/// A comment on a node leaves a final part of its input, and fails inside
/// it.
pub broadcast proof fn lemma_node_comment_within(s: Seq<u8>)
    ensures
        within(#[trigger] node_comment_of(s), s),
{
    broadcast use {group_lexical_within, group_scalar_within};
}

/// A comment on a message leaves a final part of its input, and fails
/// inside it.
pub broadcast proof fn lemma_message_comment_within(s: Seq<u8>)
    ensures
        within(#[trigger] message_comment_of(s), s),
{
    broadcast use {group_lexical_within, group_scalar_within};
}

/// A comment on a signal leaves a final part of its input, and fails inside
/// it.
pub broadcast proof fn lemma_signal_comment_within(s: Seq<u8>)
    ensures
        within(#[trigger] signal_comment_of(s), s),
{
    broadcast use {group_lexical_within, group_scalar_within};
}

/// A comment on an environment variable leaves a final part of its input,
/// and fails inside it.
pub broadcast proof fn lemma_env_var_comment_within(s: Seq<u8>)
    ensures
        within(#[trigger] env_var_comment_of(s), s),
{
    broadcast use {group_lexical_within, group_scalar_within};
}

/// A comment without a target leaves a final part of its input, and fails
/// inside it.
pub broadcast proof fn lemma_comment_plain_within(s: Seq<u8>)
    ensures
        within(#[trigger] comment_plain_of(s), s),
{
    broadcast use {group_lexical_within, group_scalar_within};
}

/// The forms of a comment stay inside their input.
pub broadcast group group_comment_forms_within {
    lemma_node_comment_within,
    lemma_message_comment_within,
    lemma_signal_comment_within,
    lemma_env_var_comment_within,
    lemma_comment_plain_within,
}

/// The target and text of a comment leave a final part of their input, and
/// fail at its start.
pub broadcast proof fn lemma_comment_target_within(s: Seq<u8>)
    ensures
        within(#[trigger] comment_target_of(s), s),
{
    broadcast use {lemma_tail_whole, group_comment_forms_within};
}

/// A comment line leaves a final part of its input, and fails inside it.
pub broadcast proof fn lemma_comment_within(s: Seq<u8>)
    ensures
        within(#[trigger] comment_of(s), s),
{
    broadcast use {group_lexical_within, lemma_comment_target_within};
}

/// The rules of comments stay inside their input.
pub broadcast group group_comment_within {
    lemma_comment_target_within,
    lemma_comment_within,
}

} // verus!
