//! Behaviour of the message-handling core and the model boundary.

use llamabot::ai::{
    description_request, reply_request, request_turns, Model, ModelError, RequestTurn,
};
use llamabot::handler::{complete_turn, describe_conversation, handle_message, MessageAction};
use llamabot::models::{ChatMessage, Conversation, Role, UserState};

/// A backend that always answers with one fixed line.
struct FixedModel {
    line: String,
}

impl Model for FixedModel {
    fn reply(&self, _conversation: &Conversation) -> Result<String, ModelError> {
        Ok(self.line.clone())
    }

    fn description(&self, _conversation: &Conversation) -> Result<String, ModelError> {
        Ok(format!("about: {}", self.line))
    }
}

/// A backend that always fails.
struct BrokenModel;

impl Model for BrokenModel {
    fn reply(&self, _conversation: &Conversation) -> Result<String, ModelError> {
        Err(ModelError::EmptyResponse)
    }

    fn description(&self, _conversation: &Conversation) -> Result<String, ModelError> {
        Err(ModelError::Upstream("connection refused".to_owned()))
    }
}

#[test]
fn message_without_text_gets_a_notice() {
    let mut st = UserState::default();
    let a = handle_message(None, "Alice", false, &mut st);
    match a {
        MessageAction::Send(s) => {
            assert_eq!(s, "This bot only supports text messages! (for now)")
        }
        _ => panic!("expected a plain notice"),
    }
    assert!(st.conversations.is_empty());
}

#[test]
fn chat_text_without_conversation_gets_a_prompt() {
    let mut st = UserState::default();
    let a = handle_message(Some("hello there"), "Alice", false, &mut st);
    match a {
        MessageAction::Send(s) => {
            assert_eq!(s, "Please start a conversation with /start before messaging!")
        }
        _ => panic!("expected a plain notice"),
    }
    assert!(st.conversations.is_empty());
}

#[test]
fn chat_text_is_stored_and_queries_the_model() {
    let mut st = UserState::default();
    st.get_or_create_conversation();
    let a = handle_message(Some("where should I go?"), "Alice", false, &mut st);
    assert!(matches!(a, MessageAction::QueryReply(0)));
    let msgs = &st.conversations[0].messages;
    assert_eq!(msgs.len(), 1);
    assert_eq!(msgs[0].content, "where should I go?");
    assert_eq!(msgs[0].from, Role::User("Alice".to_owned()));
}

#[test]
fn group_chat_text_is_stored_with_the_sender_name() {
    let mut st = UserState::default();
    st.get_or_create_conversation();
    let a = handle_message(Some("hi all"), "Alice", true, &mut st);
    assert!(matches!(a, MessageAction::QueryReply(0)));
    assert_eq!(st.conversations[0].messages[0].content, "Alice: hi all");
}

#[test]
fn slash_lines_go_through_the_dispatcher() {
    let mut st = UserState::default();
    let a = handle_message(Some("/rename Trip"), "Alice", false, &mut st);
    match a {
        MessageAction::Send(s) => {
            assert_eq!(s, "Set current conversation name to \"Trip\"!")
        }
        _ => panic!("expected a plain reply"),
    }
    assert_eq!(st.conversations.len(), 1);
    assert_eq!(st.conversations[0].name, "Trip");
}

#[test]
fn complete_turn_appends_the_model_reply() {
    let mut st = UserState::default();
    st.get_or_create_conversation();
    let model = FixedModel { line: "go to the sea".to_owned() };
    let r = complete_turn(&model, &mut st, 0).expect("the fixed model replies");
    assert_eq!(r, "go to the sea");
    let msgs = &st.conversations[0].messages;
    assert_eq!(msgs.len(), 1);
    assert_eq!(msgs[0].content, "go to the sea");
    assert_eq!(msgs[0].from, Role::Assistant);
}

#[test]
fn failed_model_call_mutates_nothing() {
    let mut st = UserState::default();
    st.get_or_create_conversation();
    st.conversations[0].messages.push(ChatMessage::new("hi".to_owned(), Some("Bob".to_owned())));
    let r = complete_turn(&BrokenModel, &mut st, 0);
    assert_eq!(r, Err(ModelError::EmptyResponse));
    assert_eq!(st.conversations[0].messages.len(), 1);
    let d = describe_conversation(&BrokenModel, &mut st, 0);
    assert_eq!(d, Err(ModelError::Upstream("connection refused".to_owned())));
    assert!(st.conversations[0].description.is_none());
}

#[test]
fn describe_conversation_stores_the_description() {
    let mut st = UserState::default();
    st.get_or_create_conversation();
    let model = FixedModel { line: "a plan".to_owned() };
    let d = describe_conversation(&model, &mut st, 0).expect("the fixed model replies");
    assert_eq!(d, "about: a plan");
    assert_eq!(st.conversations[0].description.as_deref(), Some("about: a plan"));
}

#[test]
fn rename_then_chat_then_redo_replaces_only_the_reply() {
    let mut st = UserState::default();

    // A fresh user renames: this creates the conversation.
    let a = handle_message(Some("/rename Trip Planning"), "Alice", false, &mut st);
    assert!(matches!(a, MessageAction::Send(_)));
    assert_eq!(st.conversations[0].name, "Trip Planning");

    // Alice asks a question; the handler stores it and asks the model.
    let a = handle_message(Some("where should I go?"), "Alice", false, &mut st);
    let i = match a {
        MessageAction::QueryReply(i) => i,
        _ => panic!("expected a model query"),
    };
    let first = FixedModel { line: "hello".to_owned() };
    complete_turn(&first, &mut st, i).expect("the fixed model replies");
    assert_eq!(st.conversations[0].messages.len(), 2);

    // /redo removes the reply and asks again; a second model answers.
    let a = handle_message(Some("/redo"), "Alice", false, &mut st);
    let i = match a {
        MessageAction::QueryReply(i) => i,
        _ => panic!("expected a regenerate query"),
    };
    assert_eq!(st.conversations[0].messages.len(), 1);
    let second = FixedModel { line: "try the mountains".to_owned() };
    complete_turn(&second, &mut st, i).expect("the fixed model replies");

    let msgs = &st.conversations[0].messages;
    assert_eq!(msgs.len(), 2);
    assert_eq!(msgs[0].content, "where should I go?");
    assert_eq!(msgs[0].from, Role::User("Alice".to_owned()));
    assert_eq!(msgs[1].content, "try the mountains");
    assert_eq!(msgs[1].from, Role::Assistant);
}

#[test]
fn request_turns_prepend_the_system_instruction() {
    let messages = vec![
        ChatMessage::new("hi".to_owned(), Some("Alice".to_owned())),
        ChatMessage::new("hello".to_owned(), None),
    ];
    let turns = request_turns(Some("be brief"), &messages);
    assert_eq!(
        turns,
        vec![
            RequestTurn::System { content: "be brief".to_owned() },
            RequestTurn::User { content: "hi".to_owned(), name: "Alice".to_owned() },
            RequestTurn::Assistant { content: "hello".to_owned() },
        ]
    );
}

#[test]
fn request_turns_without_system_instruction() {
    let messages = vec![ChatMessage::new("hi".to_owned(), Some("Bob".to_owned()))];
    let turns = request_turns(None, &messages);
    assert_eq!(
        turns,
        vec![RequestTurn::User { content: "hi".to_owned(), name: "Bob".to_owned() }]
    );
}

#[test]
fn reply_request_uses_the_conversation_system_prompt() {
    let mut c = Conversation::default();
    c.system = Some("answer in rhyme".to_owned());
    c.messages.push(ChatMessage::new("hi".to_owned(), Some("Alice".to_owned())));
    let turns = reply_request(&c);
    assert_eq!(turns.len(), 2);
    assert_eq!(turns[0], RequestTurn::System { content: "answer in rhyme".to_owned() });
}

#[test]
fn description_request_overrides_the_system_prompt() {
    let mut c = Conversation::default();
    c.system = Some("answer in rhyme".to_owned());
    c.messages.push(ChatMessage::new("hi".to_owned(), Some("Alice".to_owned())));
    let turns = description_request(&c);
    assert_eq!(turns.len(), 2);
    assert_eq!(
        turns[0],
        RequestTurn::System {
            content: "Describe the following chat dialogue. Be as concise as possible, \
                      limiting your summary to one sentence if at all possible."
                .to_owned()
        }
    );
}

#[test]
fn empty_text_is_stored_as_an_ordinary_message() {
    let mut st = UserState::default();
    st.get_or_create_conversation();
    let a = handle_message(Some(""), "Alice", false, &mut st);
    assert!(matches!(a, MessageAction::QueryReply(0)));
    assert_eq!(st.conversations[0].messages.len(), 1);
    assert_eq!(st.conversations[0].messages[0].content, "");
}
