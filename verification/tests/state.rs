//! Behaviour of the conversation and user-state accessors.

use llamabot::models::{
    conversation_from_timestamp, Backend, ChatMessage, Character, Conversation, OpenAIModel,
    Role, UIState, UserState,
};

#[test]
fn get_or_create_creates_first_conversation() {
    let mut st = UserState::default();
    assert!(st.conversations.is_empty());
    {
        let c = st.get_or_create_conversation();
        assert!(c.messages.is_empty());
        assert!(c.system.is_none());
        assert!(c.description.is_none());
    }
    assert_eq!(st.conversations.len(), 1);
    assert_eq!(st.current_conversation, Some(0));
}

#[test]
fn get_or_create_returns_the_active_conversation() {
    let mut st = UserState::default();
    st.get_or_create_conversation().name = "First".to_owned();
    {
        let c = st.get_or_create_conversation();
        assert_eq!(c.name, "First");
    }
    assert_eq!(st.conversations.len(), 1);
}

#[test]
fn get_or_create_replaces_a_stale_index() {
    let mut st = UserState::default();
    st.get_or_create_conversation();
    st.current_conversation = Some(7);
    st.get_or_create_conversation();
    assert_eq!(st.conversations.len(), 2);
    assert_eq!(st.current_conversation, Some(1));
}

#[test]
fn get_current_conversation_without_one() {
    let mut st = UserState::default();
    assert!(st.get_current_conversation().is_none());
    st.current_conversation = Some(3);
    assert!(st.get_current_conversation().is_none());
}

#[test]
fn get_current_conversation_yields_the_active_one() {
    let mut st = UserState::default();
    st.get_or_create_conversation().name = "Here".to_owned();
    let c = st.get_current_conversation().expect("a conversation is active");
    assert_eq!(c.name, "Here");
}

#[test]
fn chat_message_new_maps_sender_to_role() {
    let m = ChatMessage::new("hi".to_owned(), Some("Alice".to_owned()));
    assert_eq!(m.content, "hi");
    assert_eq!(m.from, Role::User("Alice".to_owned()));
    let b = ChatMessage::new("hello".to_owned(), None);
    assert_eq!(b.content, "hello");
    assert_eq!(b.from, Role::Assistant);
}

#[test]
fn conversation_from_timestamp_names_it_exactly() {
    let c = conversation_from_timestamp("01/02/2034 05:06");
    assert_eq!(c.name, "Conversation from 01/02/2034 05:06");
    assert!(c.messages.is_empty());
    assert!(c.system.is_none());
    assert!(c.description.is_none());
}

#[test]
fn default_conversation_is_fresh_and_named_by_timestamp() {
    let c = Conversation::default();
    assert!(c.messages.is_empty());
    assert!(c.system.is_none());
    assert!(c.description.is_none());
    assert!(c.name.starts_with("Conversation from "));
}

#[test]
fn default_state_is_empty_and_chatting() {
    let st = UserState::default();
    assert!(st.conversations.is_empty());
    assert_eq!(st.current_conversation, None);
    assert_eq!(st.ui_state, UIState::Chatting);
}

#[test]
fn display_string_with_and_without_description() {
    let mut c = Conversation::default();
    c.name = "Trip".to_owned();
    assert_eq!(c.display_string(), "Trip");
    c.description = Some("planning a holiday".to_owned());
    assert_eq!(c.display_string(), "Trip: planning a holiday");
}

#[test]
fn openai_model_holds_its_configuration() {
    let m = OpenAIModel::new("http://localhost:5000/v1".to_owned(), "llama".to_owned());
    assert_eq!(m.api_url, "http://localhost:5000/v1");
    assert_eq!(m.model, "llama");
    assert!(m.api_token.is_none());

    let t = OpenAIModel::new_with_token(
        "https://api.example.com/v1".to_owned(),
        "big-model".to_owned(),
        "local-test-token".to_owned(),
    );
    assert_eq!(t.api_token.as_deref(), Some("local-test-token"));
    let Backend::OpenAI(inner) = Backend::OpenAI(t);
    assert_eq!(inner.model, "big-model");
}

#[test]
fn character_holds_a_name() {
    let c = Character { name: "Narrator".to_owned() };
    assert_eq!(c.name, "Narrator");
}
