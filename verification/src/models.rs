//! Data model: message roles, chat messages, conversations, and the
//! per-user state that the command dispatcher operates on.

use vstd::prelude::*;

verus! {

/// Origin of a chat message: either the bot itself, or a named user.
#[derive(Clone, Debug, PartialEq, Eq)]
pub enum Role {
    Assistant,
    User(String),
}

/// Mathematical value of a [`Role`]: the user name is read as a
/// sequence of characters.
#[verifier::ext_equal]
pub enum RoleV {
    Assistant,
    User(Seq<char>),
}

impl View for Role {
    type V = RoleV;

    open spec fn view(&self) -> RoleV {
        match self {
            Role::Assistant => RoleV::Assistant,
            Role::User(name) => RoleV::User(name@),
        }
    }
}

/// One turn of a conversation transcript.
#[derive(Clone, Debug)]
pub struct ChatMessage {
    pub content: String,
    pub from: Role,
}

/// Mathematical value of a [`ChatMessage`].
#[verifier::ext_equal]
pub struct ChatMessageV {
    pub content: Seq<char>,
    pub from: RoleV,
}

impl View for ChatMessage {
    type V = ChatMessageV;

    open spec fn view(&self) -> ChatMessageV {
        ChatMessageV { content: self.content@, from: self.from@ }
    }
}

impl ChatMessage {
    /// A message whose sender is `Some(name)` is a user turn; one sent
    /// without a name is the bot's own turn.
    pub fn new(content: String, from: Option<String>) -> (m: ChatMessage)
        ensures
            m@.content == content@,
            m@.from == match from {
                Option::Some(name) => RoleV::User(name@),
                Option::None => RoleV::Assistant,
            },
    {
        match from {
            Option::Some(name) => ChatMessage { content, from: Role::User(name) },
            Option::None => ChatMessage { content, from: Role::Assistant },
        }
    }
}

/// One chat thread: its transcript plus a name, an optional system
/// prompt, and an optional generated description.
#[derive(Clone, Debug)]
pub struct Conversation {
    pub name: String,
    pub messages: Vec<ChatMessage>,
    pub system: Option<String>,
    pub description: Option<String>,
}

/// Mathematical value of a [`Conversation`].
#[verifier::ext_equal]
pub struct ConversationV {
    pub name: Seq<char>,
    pub messages: Seq<ChatMessageV>,
    pub system: Option<Seq<char>>,
    pub description: Option<Seq<char>>,
}

impl ConversationV {
    /// A conversation as `/list` shows it: the name, and the description
    /// after a colon when one has been generated.
    pub open spec fn display(self) -> Seq<char> {
        match self.description {
            Option::Some(d) => self.name + ": "@ + d,
            Option::None => self.name,
        }
    }

    /// Holds of a conversation that was just created: an empty
    /// transcript with no system prompt and no description.
    pub open spec fn is_fresh(self) -> bool {
        &&& self.messages == Seq::<ChatMessageV>::empty()
        &&& self.system is None
        &&& self.description is None
    }
}

impl View for Conversation {
    type V = ConversationV;

    open spec fn view(&self) -> ConversationV {
        ConversationV {
            name: self.name@,
            messages: self.messages@.map_values(|m: ChatMessage| m@),
            system: match self.system {
                Option::Some(s) => Option::Some(s@),
                Option::None => Option::None,
            },
            description: match self.description {
                Option::Some(d) => Option::Some(d@),
                Option::None => Option::None,
            },
        }
    }
}

/// Relies on `chrono::Utc::now` (the system clock, taken to be at or
/// after the Unix epoch) for the timestamp that dates a fresh
/// conversation, written day/month/year hour:minute. The clock decides
/// the result, so nothing is promised of it.
#[verifier::external_body]
fn current_timestamp() -> String {
    chrono::Utc::now().format("%d/%m/%Y %H:%M").to_string()
}

/// A fresh conversation named after the given creation timestamp:
/// an empty transcript whose name is exactly `Conversation from `
/// followed by the timestamp. The clock-bound part of a default name
/// is checkable here, where the drawn timestamp is an argument.
pub fn conversation_from_timestamp(timestamp: &str) -> (c: Conversation)
    ensures
        c@.is_fresh(),
        c@.name == "Conversation from "@ + timestamp@,
{
    let c = Conversation {
        name: String::from_str("Conversation from ").concat(timestamp),
        messages: Vec::new(),
        system: Option::None,
        description: Option::None,
    };
    proof {
        assert(c@.messages =~= Seq::<ChatMessageV>::empty());
    }
    c
}

impl Default for Conversation {
    /// A fresh conversation: [`conversation_from_timestamp`] on the
    /// moment of its creation. The timestamp comes from the clock, so
    /// this contract fixes only the prefix of the name; the helper's
    /// contract ties the rest of the name to the drawn timestamp.
    fn default() -> (c: Conversation)
        ensures
            c@.is_fresh(),
            c@.name.len() >= "Conversation from "@.len(),
            c@.name.subrange(0, "Conversation from "@.len() as int) == "Conversation from "@,
    {
        let ts = current_timestamp();
        let c = conversation_from_timestamp(ts.as_str());
        proof {
            assert(c@.name.subrange(0, "Conversation from "@.len() as int) =~= (
            "Conversation from "@));
        }
        c
    }
}

impl Conversation {
    /// The line `/list` prints for this conversation.
    pub fn display_string(&self) -> (r: String)
        ensures
            r@ == self@.display(),
    {
        match &self.description {
            Option::Some(d) => self.name.clone().concat(": ").concat(d.as_str()),
            Option::None => self.name.clone(),
        }
    }
}

/// What the user interface is currently doing. A single mode exists
/// today; the enum leaves room for more.
#[derive(Clone, Debug, PartialEq, Eq)]
pub enum UIState {
    Chatting,
}

/// All conversations of one end user, with the index of the active one.
#[derive(Clone, Debug)]
pub struct UserState {
    pub conversations: Vec<Conversation>,
    pub current_conversation: Option<usize>,
    pub ui_state: UIState,
}

/// Mathematical value of a [`UserState`].
#[verifier::ext_equal]
pub struct UserStateV {
    pub conversations: Seq<ConversationV>,
    pub current_conversation: Option<int>,
    pub ui_state: UIState,
}

impl UserStateV {
    /// The index of the active conversation, if one is set and still in
    /// bounds; a stale index counts as no active conversation.
    pub open spec fn cur(self) -> Option<int> {
        match self.current_conversation {
            Option::Some(i) => if 0 <= i < self.conversations.len() {
                Option::Some(i)
            } else {
                Option::None
            },
            Option::None => Option::None,
        }
    }
}

impl View for UserState {
    type V = UserStateV;

    open spec fn view(&self) -> UserStateV {
        UserStateV {
            conversations: self.conversations@.map_values(|c: Conversation| c@),
            current_conversation: match self.current_conversation {
                Option::Some(i) => Option::Some(i as int),
                Option::None => Option::None,
            },
            ui_state: self.ui_state,
        }
    }
}

impl Default for UserState {
    /// The state a user starts in: no conversations yet.
    fn default() -> (s: UserState)
        ensures
            s@.conversations == Seq::<ConversationV>::empty(),
            s@.current_conversation is None,
            s@.ui_state == UIState::Chatting,
    {
        let s = UserState {
            conversations: Vec::new(),
            current_conversation: Option::None,
            ui_state: UIState::Chatting,
        };
        proof {
            assert(s@.conversations =~= Seq::<ConversationV>::empty());
        }
        s
    }
}

impl UserState {
    /// The index of the active conversation, if it is set and in bounds.
    pub fn current_index(&self) -> (r: Option<usize>)
        ensures
            match self@.cur() {
                Option::Some(i) => r == Option::Some(i as usize),
                Option::None => r is None,
            },
    {
        match self.current_conversation {
            Option::Some(idx) => if idx < self.conversations.len() {
                Option::Some(idx)
            } else {
                Option::None
            },
            Option::None => Option::None,
        }
    }

    /// The active conversation, if one is set and its index is still in
    /// bounds. No side effect.
    pub fn get_current_conversation(&mut self) -> (r: Option<&mut Conversation>)
        ensures
            match old(self)@.cur() {
                Option::Some(i) => {
                    &&& r is Some
                    &&& *r.unwrap() == old(self).conversations@[i]
                    &&& final(self).conversations@ == old(self).conversations@.update(
                        i,
                        *final(r.unwrap()),
                    )
                    &&& final(self).current_conversation == old(self).current_conversation
                    &&& final(self).ui_state == old(self).ui_state
                },
                Option::None => r is None && *final(self) == *old(self),
            },
    {
        match self.current_conversation {
            Option::Some(idx) => if idx < self.conversations.len() {
                Option::Some(&mut self.conversations[idx])
            } else {
                Option::None
            },
            Option::None => Option::None,
        }
    }

    /// The active conversation; a fresh one is appended and made active
    /// first when none is set or the stored index is stale. After this
    /// call the active index is always set and in bounds.
    pub fn get_or_create_conversation(&mut self) -> (c: &mut Conversation)
        ensures
            match old(self)@.cur() {
                Option::Some(i) => {
                    &&& *c == old(self).conversations@[i]
                    &&& final(self).conversations@ == old(self).conversations@.update(
                        i,
                        *final(c),
                    )
                    &&& final(self).current_conversation == old(self).current_conversation
                },
                Option::None => {
                    &&& (*c)@.is_fresh()
                    &&& (*c)@.name.len() >= "Conversation from "@.len()
                    &&& (*c)@.name.subrange(0, "Conversation from "@.len() as int)
                        == "Conversation from "@
                    &&& final(self).conversations@ == old(self).conversations@.push(*final(c))
                    &&& final(self).current_conversation == Option::Some(
                        old(self).conversations.len(),
                    )
                },
            },
            final(self).ui_state == old(self).ui_state,
            final(self)@.cur() is Some,
    {
        match self.current_index() {
            Option::Some(idx) => &mut self.conversations[idx],
            Option::None => {
                self.current_conversation = Option::Some(self.conversations.len());
                self.conversations.push(Conversation::default());
                let idx = self.conversations.len() - 1;
                &mut self.conversations[idx]
            },
        }
    }
}

/// Connection data for an OpenAI-compatible completion endpoint: the
/// base URL, the model to ask for, and an optional bearer token. The
/// HTTP client built from these lives outside the core.
#[derive(Clone, Debug)]
pub struct OpenAIModel {
    pub api_url: String,
    pub model: String,
    pub api_token: Option<String>,
}

impl OpenAIModel {
    /// A backend without authentication, for a local endpoint.
    pub fn new(api_url: String, model: String) -> (m: OpenAIModel)
        ensures
            m.api_url@ == api_url@,
            m.model@ == model@,
            m.api_token is None,
    {
        OpenAIModel { api_url, model, api_token: Option::None }
    }

    /// A backend that authenticates with a bearer token.
    pub fn new_with_token(api_url: String, model: String, token: String) -> (m: OpenAIModel)
        ensures
            m.api_url@ == api_url@,
            m.model@ == model@,
            m.api_token == Option::Some(token),
    {
        OpenAIModel { api_url, model, api_token: Option::Some(token) }
    }
}

/// The pluggable language-model backend: a closed set of variants, one
/// per supported protocol.
#[derive(Clone, Debug)]
pub enum Backend {
    OpenAI(OpenAIModel),
}

/// A named persona. Reserved for planned features; nothing reads it yet.
#[derive(Clone, Debug)]
pub struct Character {
    pub name: String,
}

} // verus!
