//! The response-driven execution protocol: scanning a model reply for an
//! embedded command directive, the confirmation gate, and the messages the
//! protocol appends to the conversation.

use vstd::prelude::*;

use crate::conversation::append_message;
use crate::message::{Message, Role};
use crate::text::{find_first, first_match_from, lemma_first_match_from, trim_seq, trim_str};

verus! {

/// How much of the execution result a directive asks for.
#[derive(Clone, Copy, Debug, PartialEq, Eq, Structural)]
pub enum DirectiveKind {
    /// Collapse the result to a coarse status.
    Silent,
    /// Return the full captured output.
    Contextual,
}

impl DirectiveKind {
    /// How much output the kind asks the executor for: a contextual
    /// directive wants the full captured output, a silent one only a
    /// coarse status.
    pub fn wants_full_output(self) -> (r: bool)
        ensures
            r == (self is Contextual),
    {
        match self {
            DirectiveKind::Silent => false,
            DirectiveKind::Contextual => true,
        }
    }
}

/// The opening tag of a directive kind.
pub open spec fn open_tag(k: DirectiveKind) -> Seq<char> {
    match k {
        DirectiveKind::Silent => "<cmd>"@,
        DirectiveKind::Contextual => "<cmdctx>"@,
    }
}

/// The closing tag of a directive kind.
pub open spec fn close_tag(k: DirectiveKind) -> Seq<char> {
    match k {
        DirectiveKind::Silent => "</cmd>"@,
        DirectiveKind::Contextual => "</cmdctx>"@,
    }
}

/// The directive kind selected in a reply, with the offset of its open tag:
/// of the two tag kinds, the one whose open tag occurs earlier wins.
pub open spec fn selected_open(s: Seq<char>) -> Option<(DirectiveKind, int)> {
    match (first_match_from(s, "<cmd>"@, 0), first_match_from(s, "<cmdctx>"@, 0)) {
        (Some(a), Some(b)) => if a <= b {
            Some((DirectiveKind::Silent, a))
        } else {
            Some((DirectiveKind::Contextual, b))
        },
        (Some(a), None) => Some((DirectiveKind::Silent, a)),
        (None, Some(b)) => Some((DirectiveKind::Contextual, b)),
        (None, None) => None,
    }
}

/// The meaning of parsing a reply: `None` when no directive is honored
/// (no open tag, or an open tag without its matching close tag); otherwise
/// the selected kind, the tag body with surrounding white space removed,
/// and the trimmed commentary preceding the open tag.
pub open spec fn spec_parse(s: Seq<char>) -> Option<(DirectiveKind, Seq<char>, Seq<char>)> {
    match selected_open(s) {
        None => None,
        Some((k, i)) => match first_match_from(s, close_tag(k), i + open_tag(k).len()) {
            None => None,
            Some(j) => Some(
                (
                    k,
                    trim_seq(s.subrange(i + open_tag(k).len(), j)),
                    trim_seq(s.subrange(0, i)),
                ),
            ),
        },
    }
}

/// A command directive extracted from a reply.
pub struct Directive {
    pub kind: DirectiveKind,
    /// The text between the tags, trimmed.
    pub body: String,
    /// The text preceding the open tag, trimmed; displayed as commentary.
    pub commentary: String,
}

/// The outcome of scanning one reply.
pub enum ParsedReply {
    /// No directive is honored: the whole reply is surfaced as plain text.
    Plain,
    /// Exactly one directive is honored.
    Command(Directive),
}

/// Scan a reply for the directive it carries. A reply without an open tag,
/// or with an open tag but no matching close tag, is plain text; otherwise
/// the earlier-positioned tag kind is selected and its body extracted.
pub fn parse_reply(reply: &str) -> (r: ParsedReply)
    ensures
        match r {
            ParsedReply::Plain => spec_parse(reply@) is None,
            ParsedReply::Command(d) => spec_parse(reply@) == Some(
                (d.kind, d.body@, d.commentary@),
            ),
        },
{
    proof {
        reveal_strlit("<cmd>");
        reveal_strlit("<cmdctx>");
        reveal_strlit("</cmd>");
        reveal_strlit("</cmdctx>");
    }
    let n = reply.unicode_len();
    let c1 = find_first(reply, "<cmd>", 0);
    let c2 = find_first(reply, "<cmdctx>", 0);
    let (kind, start, open_len) = match (c1, c2) {
        (Some(a), Some(b)) => if a <= b {
            (DirectiveKind::Silent, a, 5usize)
        } else {
            (DirectiveKind::Contextual, b, 8usize)
        },
        (Some(a), None) => (DirectiveKind::Silent, a, 5usize),
        (None, Some(b)) => (DirectiveKind::Contextual, b, 8usize),
        (None, None) => {
            return ParsedReply::Plain;
        },
    };
    proof {
        assert(selected_open(reply@) == Some((kind, start as int)));
        assert(open_len == open_tag(kind).len());
        lemma_first_match_from(reply@, open_tag(kind), 0);
        assert(start + open_len <= n);
    }
    let close = match kind {
        DirectiveKind::Silent => find_first(reply, "</cmd>", start + open_len),
        DirectiveKind::Contextual => find_first(reply, "</cmdctx>", start + open_len),
    };
    match close {
        None => ParsedReply::Plain,
        Some(j) => {
            proof {
                lemma_first_match_from(reply@, close_tag(kind), start + open_len);
                assert(j <= n);
            }
            let body = trim_str(reply.substring_char(start + open_len, j));
            let commentary = trim_str(reply.substring_char(0, start));
            ParsedReply::Command(Directive { kind, body, commentary })
        },
    }
}

/// Re-serialize a directive exactly as it is recorded in the conversation:
/// the body framed by the open and close tags of its kind.
pub fn serialize_directive(kind: DirectiveKind, body: &str) -> (r: String)
    ensures
        r@ == open_tag(kind) + body@ + close_tag(kind),
{
    let mut s = match kind {
        DirectiveKind::Silent => String::from_str("<cmd>"),
        DirectiveKind::Contextual => String::from_str("<cmdctx>"),
    };
    s.append(body);
    match kind {
        DirectiveKind::Silent => s.append("</cmd>"),
        DirectiveKind::Contextual => s.append("</cmdctx>"),
    }
    s
}

/// The confirmation gate: with the policy inactive every command proceeds;
/// with it active, only a blank answer line (bare confirm) proceeds.
pub fn confirmation_decision(require_confirmation: bool, answer: &str) -> (r: bool)
    ensures
        r == (!require_confirmation || trim_seq(answer@).len() == 0),
{
    if require_confirmation {
        let t = trim_str(answer);
        t.as_str().unicode_len() == 0
    } else {
        true
    }
}

/// Record an executed directive: an assistant message re-serializing the
/// tag and body that were executed, then a tool message carrying the raw
/// execution result.
pub fn record_execution(
    conversation: &mut Vec<Message>,
    kind: DirectiveKind,
    body: &str,
    result: String,
)
    ensures
        final(conversation)@.len() == old(conversation)@.len() + 2,
        final(conversation)@.take(old(conversation)@.len() as int) == old(conversation)@,
        final(conversation)@[old(conversation)@.len() as int].role == Role::Assistant,
        final(conversation)@[old(conversation)@.len() as int].content@ == open_tag(kind)
            + body@ + close_tag(kind),
        final(conversation)@.last().role == Role::Tool,
        final(conversation)@.last().content == result,
{
    let serialized = serialize_directive(kind, body);
    append_message(conversation, Role::Assistant, serialized);
    append_message(conversation, Role::Tool, result);
    proof {
        assert(final(conversation)@.take(old(conversation)@.len() as int) =~= old(
            conversation,
        )@);
    }
}

/// Record a declined confirmation: an assistant message noting the abort;
/// nothing is executed.
pub fn record_abort(conversation: &mut Vec<Message>)
    ensures
        final(conversation)@.len() == old(conversation)@.len() + 1,
        final(conversation)@.take(old(conversation)@.len() as int) == old(conversation)@,
        final(conversation)@.last().role == Role::Assistant,
        final(conversation)@.last().content@ == "Command aborted by user."@,
{
    append_message(conversation, Role::Assistant, String::from_str("Command aborted by user."));
    proof {
        assert(final(conversation)@.take(old(conversation)@.len() as int) =~= old(
            conversation,
        )@);
    }
}

} // verus!
