//! The message handler's decision core: what one inbound platform
//! message does to the user's state, and what the surrounding glue must
//! do next. The glue performs the network work (sending text, calling
//! the model) and hands results back through the record functions here.

use vstd::prelude::*;

use crate::ai::{Model, ModelError};
use crate::bot::{dispatch, handle_command, state_with, CommandResult, Directive};
use crate::models::{ChatMessage, ChatMessageV, ConversationV, RoleV, UserState, UserStateV};

verus! {

/// What the glue around the core must do after one inbound message was
/// handled. This is the mathematical value of a [`MessageAction`].
#[verifier::ext_equal]
pub enum ActionV {
    Send(Seq<char>),
    QueryReply(int),
    QueryDescription(int),
}

/// What the glue around the core must do after one inbound message was
/// handled.
pub enum MessageAction {
    /// Send this text to the chat; nothing else to do.
    Send(String),
    /// Ask the model for a reply to the conversation at this index,
    /// send it, and record it with [`record_assistant_reply`].
    QueryReply(usize),
    /// Ask the model to describe the conversation at this index and
    /// store the result with [`set_description`].
    QueryDescription(usize),
}

impl View for MessageAction {
    type V = ActionV;

    open spec fn view(&self) -> ActionV {
        match self {
            MessageAction::Send(s) => ActionV::Send(s@),
            MessageAction::QueryReply(i) => ActionV::QueryReply(*i as int),
            MessageAction::QueryDescription(i) => ActionV::QueryDescription(*i as int),
        }
    }
}

/// The text a user turn is stored with: in a group chat the sender's
/// name is written in front, in a private chat the text stands alone.
pub open spec fn named_text(username: Seq<char>, text: Seq<char>, group_chat: bool) -> Seq<char> {
    if group_chat {
        username + ": "@ + text
    } else {
        text
    }
}

/// The state after a user turn with this content is appended to the
/// conversation at index `i`.
pub open spec fn with_user_message(
    st: UserStateV,
    i: int,
    content: Seq<char>,
    username: Seq<char>,
) -> UserStateV {
    state_with(
        st,
        i,
        ConversationV {
            messages: st.conversations[i].messages.push(
                ChatMessageV { content, from: RoleV::User(username) },
            ),
            ..st.conversations[i]
        },
    )
}

/// The state after a model reply with this content is appended to the
/// conversation at index `i`.
pub open spec fn with_assistant_reply(st: UserStateV, i: int, content: Seq<char>) -> UserStateV {
    state_with(
        st,
        i,
        ConversationV {
            messages: st.conversations[i].messages.push(
                ChatMessageV { content, from: RoleV::Assistant },
            ),
            ..st.conversations[i]
        },
    )
}

/// The state after the conversation at index `i` gets this description.
pub open spec fn with_description(st: UserStateV, i: int, description: Seq<char>) -> UserStateV {
    state_with(
        st,
        i,
        ConversationV {
            description: Option::Some(description),
            ..st.conversations[i]
        },
    )
}

/// The meaning of one inbound message: the state it leads to and the
/// action the glue must perform.
///
/// A message without text is answered with a fixed notice. A line that
/// starts with a slash goes to the command dispatcher. Any other text
/// needs an active conversation; it is stored as a user turn and the
/// model is asked to reply.
pub open spec fn handle_message_spec(
    text: Option<Seq<char>>,
    username: Seq<char>,
    group_chat: bool,
    st: UserStateV,
) -> (UserStateV, ActionV) {
    match text {
        Option::None => (st, ActionV::Send("This bot only supports text messages! (for now)"@)),
        Option::Some(t) => if t.len() > 0 && t[0] == '/' {
            let (st2, d) = dispatch(t, st);
            (
                st2,
                match d {
                    Directive::ReplyToUser(s) => ActionV::Send(s),
                    Directive::RegenerateLastMessage(i) => ActionV::QueryReply(i),
                    Directive::GenerateDescription(i) => ActionV::QueryDescription(i),
                },
            )
        } else {
            match st.cur() {
                Option::None => (
                    st,
                    ActionV::Send("Please start a conversation with /start before messaging!"@),
                ),
                Option::Some(i) => (
                    with_user_message(st, i, named_text(username, t, group_chat), username),
                    ActionV::QueryReply(i),
                ),
            }
        },
    }
}

/// Decides what one inbound message does: mutates the state as
/// [`handle_message_spec`] says and returns the action left to perform.
pub fn handle_message(
    text: Option<&str>,
    username: &str,
    group_chat: bool,
    state: &mut UserState,
) -> (a: MessageAction)
    ensures
        final(state)@ == handle_message_spec(
            match text {
                Option::Some(t) => Option::Some(t@),
                Option::None => Option::None,
            },
            username@,
            group_chat,
            old(state)@,
        ).0,
        a@ == handle_message_spec(
            match text {
                Option::Some(t) => Option::Some(t@),
                Option::None => Option::None,
            },
            username@,
            group_chat,
            old(state)@,
        ).1,
{
    let t = match text {
        Option::Some(t) => t,
        Option::None => {
            return MessageAction::Send(
                String::from_str("This bot only supports text messages! (for now)"),
            );
        },
    };
    let n = t.unicode_len();
    if n > 0 && t.get_char(0) == '/' {
        let r = handle_command(t, state);
        return match r {
            CommandResult::ReplyToUser(s) => MessageAction::Send(s),
            CommandResult::RegenerateLastMessage(i) => MessageAction::QueryReply(i),
            CommandResult::GenerateDescription(i) => MessageAction::QueryDescription(i),
        };
    }
    let i = match state.current_index() {
        Option::Some(i) => i,
        Option::None => {
            return MessageAction::Send(
                String::from_str("Please start a conversation with /start before messaging!"),
            );
        },
    };
    let named = if group_chat {
        username.to_owned().concat(": ").concat(t)
    } else {
        t.to_owned()
    };
    let m = ChatMessage::new(named, Option::Some(username.to_owned()));
    let c = &mut state.conversations[i];
    c.messages.push(m);
    let a = MessageAction::QueryReply(i);
    proof {
        assert(state@ =~~= handle_message_spec(
            Option::Some(t@),
            username@,
            group_chat,
            old(state)@,
        ).0);
    }
    a
}

/// Records the model's reply to the conversation at index `i`: the text
/// is appended as the bot's own turn and nothing else changes.
pub fn record_assistant_reply(state: &mut UserState, i: usize, content: String)
    requires
        i < old(state)@.conversations.len(),
    ensures
        final(state)@ == with_assistant_reply(old(state)@, i as int, content@),
{
    let m = ChatMessage::new(content, Option::None);
    let c = &mut state.conversations[i];
    c.messages.push(m);
    proof {
        assert(state@ =~~= with_assistant_reply(old(state)@, i as int, content@));
    }
}

/// Stores a generated description on the conversation at index `i`;
/// nothing else changes.
pub fn set_description(state: &mut UserState, i: usize, description: String)
    requires
        i < old(state)@.conversations.len(),
    ensures
        final(state)@ == with_description(old(state)@, i as int, description@),
{
    let c = &mut state.conversations[i];
    c.description = Option::Some(description);
    proof {
        assert(state@ =~~= with_description(old(state)@, i as int, description@));
    }
}

/// Asks the model for its next turn in the conversation at index `i`
/// and records it. On success the reply is appended as the bot's turn
/// and returned; on failure the state is exactly as it was — a failed
/// call mutates nothing.
pub fn complete_turn<M: Model>(model: &M, state: &mut UserState, i: usize) -> (r: Result<
    String,
    ModelError,
>)
    requires
        i < old(state)@.conversations.len(),
    ensures
        match r {
            Result::Ok(t) => final(state)@ == with_assistant_reply(old(state)@, i as int, t@),
            Result::Err(_) => *final(state) == *old(state),
        },
{
    let res = model.reply(&state.conversations[i]);
    match res {
        Result::Ok(t) => {
            record_assistant_reply(state, i, t.clone());
            Result::Ok(t)
        },
        Result::Err(e) => Result::Err(e),
    }
}

/// Asks the model to describe the conversation at index `i` and stores
/// the result. On success the description is set and returned; on
/// failure the state is exactly as it was.
pub fn describe_conversation<M: Model>(model: &M, state: &mut UserState, i: usize) -> (r: Result<
    String,
    ModelError,
>)
    requires
        i < old(state)@.conversations.len(),
    ensures
        match r {
            Result::Ok(d) => final(state)@ == with_description(old(state)@, i as int, d@),
            Result::Err(_) => *final(state) == *old(state),
        },
{
    let res = model.description(&state.conversations[i]);
    match res {
        Result::Ok(d) => {
            set_description(state, i, d.clone());
            Result::Ok(d)
        },
        Result::Err(e) => Result::Err(e),
    }
}

} // verus!
