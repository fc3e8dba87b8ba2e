//! The language-model boundary: the capability interface a backend
//! implements, and the role-tagged request turns built from a
//! conversation for each model call.

use vstd::prelude::*;

use crate::models::{ChatMessage, ChatMessageV, Conversation, RoleV};

verus! {

/// Why a model call produced no usable reply.
#[derive(Clone, Debug, PartialEq, Eq)]
pub enum ModelError {
    /// The endpoint answered, but with no choices or an empty message.
    EmptyResponse,
    /// The request itself failed; the text says how.
    Upstream(String),
}

/// What the core needs from a language-model backend: a reply to a
/// conversation as it stands, and a one-sentence description of it.
/// Nothing is promised of the returned text — the backend decides it —
/// so callers state what holds whatever comes back.
pub trait Model {
    /// The model's next turn for this conversation.
    fn reply(&self, conversation: &Conversation) -> Result<String, ModelError>;

    /// A one-sentence summary of this conversation.
    fn description(&self, conversation: &Conversation) -> Result<String, ModelError>;
}

/// One turn of a model request, as the completion API sees it.
#[derive(Clone, Debug, PartialEq, Eq)]
pub enum RequestTurn {
    /// The instruction turn sent ahead of the transcript.
    System { content: String },
    /// A turn the model itself wrote earlier.
    Assistant { content: String },
    /// A turn a named user wrote.
    User { content: String, name: String },
}

/// Mathematical value of a [`RequestTurn`].
#[verifier::ext_equal]
pub enum RequestTurnV {
    System { content: Seq<char> },
    Assistant { content: Seq<char> },
    User { content: Seq<char>, name: Seq<char> },
}

impl View for RequestTurn {
    type V = RequestTurnV;

    open spec fn view(&self) -> RequestTurnV {
        match self {
            RequestTurn::System { content } => RequestTurnV::System { content: content@ },
            RequestTurn::Assistant { content } => RequestTurnV::Assistant { content: content@ },
            RequestTurn::User { content, name } => RequestTurnV::User {
                content: content@,
                name: name@,
            },
        }
    }
}

/// The request turn a stored chat message becomes: the bot's turns
/// carry no name, a user's turn carries the sender's name.
pub open spec fn turn_of(m: ChatMessageV) -> RequestTurnV {
    match m.from {
        RoleV::Assistant => RequestTurnV::Assistant { content: m.content },
        RoleV::User(name) => RequestTurnV::User { content: m.content, name },
    }
}

/// The full request for one model call: the system instruction first,
/// when there is one, then every stored message in order.
pub open spec fn turns_spec(system: Option<Seq<char>>, msgs: Seq<ChatMessageV>) -> Seq<
    RequestTurnV,
> {
    let body = msgs.map_values(|m: ChatMessageV| turn_of(m));
    match system {
        Option::Some(s) => seq![RequestTurnV::System { content: s }] + body,
        Option::None => body,
    }
}

/// The fixed instruction sent in place of the conversation's own system
/// prompt when a description is asked for.
pub open spec fn description_instruction() -> Seq<char> {
    "Describe the following chat dialogue. Be as concise as possible, limiting your summary to one sentence if at all possible."@
}

/// Builds the request turns for a transcript, with an optional system
/// instruction prepended.
pub fn request_turns(system: Option<&str>, messages: &Vec<ChatMessage>) -> (v: Vec<RequestTurn>)
    ensures
        v@.map_values(|t: RequestTurn| t@) == turns_spec(
            match system {
                Option::Some(s) => Option::Some(s@),
                Option::None => Option::None,
            },
            messages@.map_values(|m: ChatMessage| m@),
        ),
{
    let ghost sysv: Option<Seq<char>> = match system {
        Option::Some(s) => Option::Some(s@),
        Option::None => Option::None,
    };
    let ghost msgsv = messages@.map_values(|m: ChatMessage| m@);
    let mut v: Vec<RequestTurn> = Vec::new();
    match system {
        Option::Some(s) => v.push(RequestTurn::System { content: s.to_owned() }),
        Option::None => (),
    }
    proof {
        assert(v@.map_values(|t: RequestTurn| t@) =~= turns_spec(sysv, msgsv.subrange(0, 0)));
    }
    let mut k: usize = 0;
    while k < messages.len()
        invariant
            k <= messages.len(),
            msgsv == messages@.map_values(|m: ChatMessage| m@),
            v@.map_values(|t: RequestTurn| t@) == turns_spec(sysv, msgsv.subrange(0, k as int)),
        decreases messages.len() - k,
    {
        let m = &messages[k];
        let turn = match &m.from {
            crate::models::Role::Assistant => RequestTurn::Assistant {
                content: m.content.clone(),
            },
            crate::models::Role::User(name) => RequestTurn::User {
                content: m.content.clone(),
                name: name.clone(),
            },
        };
        v.push(turn);
        proof {
            assert(turn@ == turn_of(msgsv[k as int]));
            assert(v@.map_values(|t: RequestTurn| t@) =~= turns_spec(
                sysv,
                msgsv.subrange(0, k as int),
            ).push(turn_of(msgsv[k as int])));
            assert(msgsv.subrange(0, k + 1) =~= msgsv.subrange(0, k as int).push(msgsv[k as int]));
            assert(turns_spec(sysv, msgsv.subrange(0, k + 1)) =~= turns_spec(
                sysv,
                msgsv.subrange(0, k as int),
            ).push(turn_of(msgsv[k as int])));
        }
        k += 1;
    }
    proof {
        assert(msgsv.subrange(0, msgsv.len() as int) =~= msgsv);
    }
    v
}

/// The request for an ordinary reply: the conversation's own system
/// prompt, if set, then its transcript.
pub fn reply_request(conversation: &Conversation) -> (v: Vec<RequestTurn>)
    ensures
        v@.map_values(|t: RequestTurn| t@) == turns_spec(
            conversation@.system,
            conversation@.messages,
        ),
{
    match &conversation.system {
        Option::Some(s) => request_turns(Option::Some(s.as_str()), &conversation.messages),
        Option::None => request_turns(Option::None, &conversation.messages),
    }
}

/// The request for a description: the fixed instruction overrides the
/// conversation's own system prompt.
pub fn description_request(conversation: &Conversation) -> (v: Vec<RequestTurn>)
    ensures
        v@.map_values(|t: RequestTurn| t@) == turns_spec(
            Option::Some(description_instruction()),
            conversation@.messages,
        ),
{
    request_turns(
        Option::Some(
            "Describe the following chat dialogue. Be as concise as possible, limiting your summary to one sentence if at all possible.",
        ),
        &conversation.messages,
    )
}

} // verus!
