//! The conversation store: an ordered log of role-tagged messages with a
//! bounded context window. Element 0 is always the system prompt and is
//! never evicted.

use vstd::prelude::*;

use crate::config::Config;
use crate::message::{Message, Role};

verus! {

/// Well-formedness of a conversation: non-empty, and the head is the
/// system message.
pub open spec fn conversation_wf(conv: Seq<Message>) -> bool {
    &&& conv.len() >= 1
    &&& conv[0].role == Role::System
}

/// Start a conversation from the generated system prompt.
pub fn new_conversation(system_prompt: String) -> (conv: Vec<Message>)
    ensures
        conv@.len() == 1,
        conv@[0].role == Role::System,
        conv@[0].content == system_prompt,
        conversation_wf(conv@),
{
    let mut conv: Vec<Message> = Vec::new();
    conv.push(Message::new(Role::System, system_prompt));
    conv
}

/// Append one message at the tail.
pub fn append_message(conversation: &mut Vec<Message>, role: Role, content: String)
    ensures
        final(conversation)@ == old(conversation)@.push((Message { role, content })),
{
    conversation.push(Message::new(role, content));
}

/// Truncate the log to just the system message.
pub fn reset_conversation(conversation: &mut Vec<Message>)
    requires
        conversation_wf(old(conversation)@),
    ensures
        final(conversation)@ == old(conversation)@.subrange(0, 1),
        conversation_wf(final(conversation)@),
{
    conversation.truncate(1);
    proof {
        assert(conversation@[0] == old(conversation)@[0]);
    }
}

/// Enforce the context window: keep message 0 plus the most recent
/// `config.context_window_size` of the remaining messages, dropping older
/// ones from the front. A no-op when the log is already within the bound.
pub fn trim_conversation(config: &Config, conversation: &mut Vec<Message>)
    requires
        conversation_wf(old(conversation)@),
    ensures
        final(conversation)@.len() <= config.context_window_size + 1,
        final(conversation)@[0] == old(conversation)@[0],
        conversation_wf(final(conversation)@),
        ({
            let n = config.context_window_size as int;
            let len = old(conversation)@.len() as int;
            if len - 1 <= n {
                final(conversation)@ == old(conversation)@
            } else {
                final(conversation)@ == seq![old(conversation)@[0]]
                    + old(conversation)@.subrange(len - n, len)
            }
        }),
{
    let ghost orig = conversation@;
    let max_messages = config.context_window_size;
    proof {
        assert(conversation@ == seq![orig[0]] + orig.subrange(1, orig.len() as int)) by {
            assert(conversation@ =~= seq![orig[0]] + orig.subrange(1, orig.len() as int));
        }
    }
    while conversation.len() - 1 > max_messages
        invariant
            orig.len() >= 1,
            1 <= conversation@.len() <= orig.len(),
            if orig.len() - 1 <= max_messages {
                conversation@.len() == orig.len()
            } else {
                conversation@.len() - 1 >= max_messages
            },
            conversation@ == seq![orig[0]] + orig.subrange(
                orig.len() - (conversation@.len() - 1),
                orig.len() as int,
            ),
        decreases conversation@.len(),
    {
        let ghost before = conversation@;
        let ghost j = orig.len() - (before.len() - 1);
        conversation.remove(1);
        proof {
            assert(conversation@ =~= seq![orig[0]] + orig.subrange(j + 1, orig.len() as int));
        }
    }
    proof {
        if orig.len() - 1 <= max_messages {
            assert(conversation@ =~= orig);
        }
    }
}

} // verus!
