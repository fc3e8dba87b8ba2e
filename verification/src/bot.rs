//! The command dispatcher: a pure state transition from a slash-command
//! line and the current user state to the mutated state and a directive
//! for the caller.

use vstd::prelude::*;

use crate::models::{ChatMessageV, ConversationV, UserState, UserStateV};

verus! {

/// The position of the first space at or after index `i`, if any.
pub open spec fn space_from(s: Seq<char>, i: int) -> Option<int>
    decreases s.len() - i,
{
    if i < 0 || i >= s.len() {
        Option::None
    } else if s[i] == ' ' {
        Option::Some(i)
    } else {
        space_from(s, i + 1)
    }
}

/// The position of the first space of the line, if any.
pub open spec fn first_space(s: Seq<char>) -> Option<int> {
    space_from(s, 0)
}

/// The command token: everything before the first space, or the whole
/// line when it has no space.
pub open spec fn cmd_of(s: Seq<char>) -> Seq<char> {
    match first_space(s) {
        Option::Some(i) => s.subrange(0, i),
        Option::None => s,
    }
}

/// The command's argument: everything after the first space, or empty
/// when the line has no space.
pub open spec fn rest_of(s: Seq<char>) -> Seq<char> {
    match first_space(s) {
        Option::Some(i) => s.subrange(i + 1, s.len() as int),
        Option::None => Seq::empty(),
    }
}

/// The reply sent when a command needs an active conversation and none
/// is set.
pub open spec fn requires_conversation_text(cmd: Seq<char>) -> Seq<char> {
    "Command `"@ + cmd + "` requires you to be in a conversation!"@
}

/// The reply confirming a rename.
pub open spec fn rename_text(rest: Seq<char>) -> Seq<char> {
    "Set current conversation name to \""@ + rest + "\"!"@
}

/// The reply to an unrecognized command.
pub open spec fn unknown_text(cmd: Seq<char>) -> Seq<char> {
    "Unknown command "@ + cmd + "."@
}

/// The conversations' display lines from index `i` on, joined by blank
/// lines.
pub open spec fn joined_from(cs: Seq<ConversationV>, i: int) -> Seq<char>
    decreases cs.len() - i,
{
    if i < 0 || i >= cs.len() {
        Seq::empty()
    } else if i == cs.len() - 1 {
        cs[i].display()
    } else {
        cs[i].display() + "\n\n"@ + joined_from(cs, i + 1)
    }
}

/// The reply to `/list`.
pub open spec fn list_text(cs: Seq<ConversationV>) -> Seq<char> {
    "Current conversations: "@ + joined_from(cs, 0)
}

/// What the dispatcher tells its caller to do next. This is the
/// mathematical value of a [`CommandResult`].
#[verifier::ext_equal]
pub enum Directive {
    /// Ask the model for a new reply to the conversation at this index
    /// and append it.
    RegenerateLastMessage(int),
    /// Send this text back to the user; nothing else to do.
    ReplyToUser(Seq<char>),
    /// Ask the model to describe the conversation at this index and
    /// store the result.
    GenerateDescription(int),
}

/// The state after the conversation at index `i` is replaced by `c`.
pub open spec fn state_with(st: UserStateV, i: int, c: ConversationV) -> UserStateV {
    UserStateV { conversations: st.conversations.update(i, c), ..st }
}

/// What `/reset` leaves of a conversation: the transcript and the
/// system prompt cleared, everything else kept.
pub open spec fn reset_conversation(c: ConversationV) -> ConversationV {
    ConversationV { messages: Seq::empty(), system: Option::None, ..c }
}

/// The meaning of one command line: the state it leads to and the
/// directive handed back, as a function of the line and the state.
///
/// The line splits at its first space into the command token and the
/// argument. Commands that need an active conversation reply with an
/// error when none is set; `/rename` creates one instead; `/new` and
/// `/list` never need one.
pub open spec fn dispatch(msg: Seq<char>, st: UserStateV) -> (UserStateV, Directive) {
    let cmd = cmd_of(msg);
    let rest = rest_of(msg);
    if cmd == "/reset"@ {
        match st.cur() {
            Option::Some(i) => (
                state_with(st, i, reset_conversation(st.conversations[i])),
                Directive::ReplyToUser("Conversation reset!"@),
            ),
            Option::None => (st, Directive::ReplyToUser(requires_conversation_text(cmd))),
        }
    } else if cmd == "/rename"@ {
        let st2 = match st.cur() {
            Option::Some(i) => state_with(
                st,
                i,
                ConversationV { name: rest, ..st.conversations[i] },
            ),
            Option::None => UserStateV {
                conversations: st.conversations.push(
                    ConversationV {
                        name: rest,
                        messages: Seq::empty(),
                        system: Option::None,
                        description: Option::None,
                    },
                ),
                current_conversation: Option::Some(st.conversations.len() as int),
                ..st
            },
        };
        (st2, Directive::ReplyToUser(rename_text(rest)))
    } else if cmd == "/desc"@ {
        match st.cur() {
            Option::Some(i) => (st, Directive::GenerateDescription(i)),
            Option::None => (st, Directive::ReplyToUser(requires_conversation_text(cmd))),
        }
    } else if cmd == "/new"@ {
        (
            UserStateV { current_conversation: Option::None, ..st },
            Directive::ReplyToUser("New conversation started"@),
        )
    } else if cmd == "/list"@ {
        (st, Directive::ReplyToUser(list_text(st.conversations)))
    } else if cmd == "/system"@ {
        match st.cur() {
            Option::Some(i) => if rest.len() == 0 {
                (
                    st,
                    Directive::ReplyToUser(
                        "Please set a system message with `/system [system message]`."@,
                    ),
                )
            } else {
                (
                    state_with(
                        st,
                        i,
                        ConversationV { system: Option::Some(rest), ..st.conversations[i] },
                    ),
                    Directive::ReplyToUser("System message set!"@),
                )
            },
            Option::None => (st, Directive::ReplyToUser(requires_conversation_text(cmd))),
        }
    } else if cmd == "/redo"@ {
        match st.cur() {
            Option::Some(i) => {
                let ms = st.conversations[i].messages;
                if ms.len() == 0 || !(ms.last().from is Assistant) {
                    (
                        st,
                        Directive::ReplyToUser("Can only /redo if the last message is LlamaBot's!"@),
                    )
                } else {
                    (
                        state_with(
                            st,
                            i,
                            ConversationV { messages: ms.drop_last(), ..st.conversations[i] },
                        ),
                        Directive::RegenerateLastMessage(i),
                    )
                }
            },
            Option::None => (st, Directive::ReplyToUser(requires_conversation_text(cmd))),
        }
    } else {
        (st, Directive::ReplyToUser(unknown_text(cmd)))
    }
}

/// Law: `/reset` inside a conversation empties its transcript and
/// clears its system prompt — however many messages it held — leaves
/// every other conversation untouched, and confirms.
pub proof fn lemma_reset_clears_conversation(msg: Seq<char>, st: UserStateV)
    requires
        cmd_of(msg) == "/reset"@,
        st.cur() is Some,
    ensures
        ({
            let (st2, d) = dispatch(msg, st);
            let i = st.cur().unwrap();
            &&& st2.conversations.len() == st.conversations.len()
            &&& st2.conversations[i].messages =~= Seq::<ChatMessageV>::empty()
            &&& st2.conversations[i].system is None
            &&& forall|j: int|
                0 <= j < st.conversations.len() && j != i ==> st2.conversations[j]
                    == st.conversations[j]
            &&& d == Directive::ReplyToUser("Conversation reset!"@)
        }),
{
}

/// Law: `/redo` mutates nothing and replies with an error when the
/// transcript is empty or its last message came from a user.
pub proof fn lemma_redo_needs_model_reply(msg: Seq<char>, st: UserStateV)
    requires
        cmd_of(msg) == "/redo"@,
        st.cur() is Some,
        ({
            let ms = st.conversations[st.cur().unwrap()].messages;
            ms.len() == 0 || ms.last().from is User
        }),
    ensures
        dispatch(msg, st).0 == st,
        dispatch(msg, st).1 == Directive::ReplyToUser(
            "Can only /redo if the last message is LlamaBot's!"@,
        ),
{
    reveal_strlit("/redo");
    reveal_strlit("/reset");
    reveal_strlit("/rename");
    reveal_strlit("/desc");
    reveal_strlit("/new");
    reveal_strlit("/list");
    reveal_strlit("/system");
    assert(("/redo"@)[1] != ("/desc"@)[1]);
    assert(("/redo"@)[1] != ("/list"@)[1]);
}

/// Law: `/redo` after a model reply removes exactly that last message,
/// keeps everything else, and directs the caller to regenerate.
pub proof fn lemma_redo_pops_last_reply(msg: Seq<char>, st: UserStateV)
    requires
        cmd_of(msg) == "/redo"@,
        st.cur() is Some,
        st.conversations[st.cur().unwrap()].messages.len() > 0,
        st.conversations[st.cur().unwrap()].messages.last().from is Assistant,
    ensures
        ({
            let (st2, d) = dispatch(msg, st);
            let i = st.cur().unwrap();
            &&& st2.conversations.len() == st.conversations.len()
            &&& st2.conversations[i].messages == st.conversations[i].messages.drop_last()
            &&& st2.conversations[i].name == st.conversations[i].name
            &&& st2.conversations[i].system == st.conversations[i].system
            &&& forall|j: int|
                0 <= j < st.conversations.len() && j != i ==> st2.conversations[j]
                    == st.conversations[j]
            &&& d == Directive::RegenerateLastMessage(i)
        }),
{
    reveal_strlit("/redo");
    reveal_strlit("/reset");
    reveal_strlit("/rename");
    reveal_strlit("/desc");
    reveal_strlit("/new");
    reveal_strlit("/list");
    reveal_strlit("/system");
    assert(("/redo"@)[1] != ("/desc"@)[1]);
    assert(("/redo"@)[1] != ("/list"@)[1]);
}

/// Law: `/system` with an empty argument mutates nothing and replies
/// with the prompt that asks for one.
pub proof fn lemma_system_needs_argument(msg: Seq<char>, st: UserStateV)
    requires
        cmd_of(msg) == "/system"@,
        rest_of(msg).len() == 0,
        st.cur() is Some,
    ensures
        dispatch(msg, st).0 == st,
        dispatch(msg, st).1 == Directive::ReplyToUser(
            "Please set a system message with `/system [system message]`."@,
        ),
{
    reveal_strlit("/system");
    reveal_strlit("/reset");
    reveal_strlit("/rename");
    reveal_strlit("/desc");
    reveal_strlit("/new");
    reveal_strlit("/list");
    assert(("/system"@)[1] != ("/rename"@)[1]);
}

/// What the caller must do after a command was dispatched.
pub enum CommandResult {
    /// The command removed the last model reply of the conversation at
    /// this index; ask the model again and append its new reply.
    RegenerateLastMessage(usize),
    /// Send this text to the user.
    ReplyToUser(String),
    /// Ask the model to describe the conversation at this index and
    /// store the result in its `description`.
    GenerateDescription(usize),
}

impl View for CommandResult {
    type V = Directive;

    open spec fn view(&self) -> Directive {
        match self {
            CommandResult::RegenerateLastMessage(i) => Directive::RegenerateLastMessage(*i as int),
            CommandResult::ReplyToUser(s) => Directive::ReplyToUser(s@),
            CommandResult::GenerateDescription(i) => Directive::GenerateDescription(*i as int),
        }
    }
}

/// Splits a line at its first space into the command token and the
/// argument; a line without a space is all command, with an empty
/// argument.
fn split_first_space(msg: &str) -> (r: (&str, &str))
    ensures
        r.0@ == cmd_of(msg@),
        r.1@ == rest_of(msg@),
{
    let n = msg.unicode_len();
    let mut j: usize = 0;
    while j < n && msg.get_char(j) != ' '
        invariant
            j <= n,
            n == msg@.len(),
            first_space(msg@) == space_from(msg@, j as int),
        decreases n - j,
    {
        j += 1;
    }
    if j < n {
        let cmd = msg.substring_char(0, j);
        let rest = msg.substring_char(j + 1, n);
        (cmd, rest)
    } else {
        proof {
            reveal_strlit("");
            assert(""@ =~= Seq::<char>::empty());
        }
        (msg, "")
    }
}

/// Character-wise string equality.
fn str_eq(a: &str, b: &str) -> (r: bool)
    ensures
        r == (a@ == b@),
{
    let x: String = a.to_owned();
    let y: String = b.to_owned();
    x == y
}

/// Builds the reply for a command used outside a conversation.
fn requires_conversation_message(cmd: &str) -> (r: String)
    ensures
        r@ == requires_conversation_text(cmd@),
{
    String::from_str("Command `").concat(cmd).concat("` requires you to be in a conversation!")
}

/// Builds the reply for `/list`: all display lines, joined by blank
/// lines.
fn joined_display(conversations: &Vec<crate::models::Conversation>) -> (r: String)
    ensures
        r@ == joined_from(
            conversations@.map_values(|c: crate::models::Conversation| c@),
            0,
        ),
{
    let ghost cs = conversations@.map_values(|c: crate::models::Conversation| c@);
    let n = conversations.len();
    let mut acc = String::new();
    let mut i = n;
    while i > 0
        invariant
            i <= n,
            n == conversations@.len(),
            cs == conversations@.map_values(|c: crate::models::Conversation| c@),
            acc@ == joined_from(cs, i as int),
        decreases i,
    {
        i -= 1;
        let d = conversations[i].display_string();
        if i + 1 == n {
            acc = d;
        } else {
            acc = d.concat("\n\n").concat(acc.as_str());
        }
    }
    acc
}

/// Dispatches one slash-command line against the user's state.
///
/// The whole behaviour is [`dispatch`]: the state afterwards and the
/// returned directive are exactly what that function gives for the line
/// and the state before the call.
pub fn handle_command(msg: &str, state: &mut UserState) -> (r: CommandResult)
    ensures
        final(state)@ == dispatch(msg@, old(state)@).0,
        r@ == dispatch(msg@, old(state)@).1,
{
    let (cmd, rest) = split_first_space(msg);
    if str_eq(cmd, "/reset") {
        let r = match state.get_current_conversation() {
            Option::None => CommandResult::ReplyToUser(requires_conversation_message(cmd)),
            Option::Some(c) => {
                c.messages.clear();
                c.system = Option::None;
                CommandResult::ReplyToUser(String::from_str("Conversation reset!"))
            },
        };
        proof {
            assert(state@ =~~= dispatch(msg@, old(state)@).0);
        }
        return r;
    }
    if str_eq(cmd, "/rename") {
        let c = state.get_or_create_conversation();
        c.name = rest.to_owned();
        let r = CommandResult::ReplyToUser(
            String::from_str("Set current conversation name to \"").concat(rest).concat("\"!"),
        );
        proof {
            assert(state@ =~~= dispatch(msg@, old(state)@).0);
        }
        return r;
    }
    if str_eq(cmd, "/desc") {
        let r = match state.current_index() {
            Option::None => CommandResult::ReplyToUser(requires_conversation_message(cmd)),
            Option::Some(i) => CommandResult::GenerateDescription(i),
        };
        proof {
            assert(state@ =~~= dispatch(msg@, old(state)@).0);
        }
        return r;
    }
    if str_eq(cmd, "/new") {
        state.current_conversation = Option::None;
        let r = CommandResult::ReplyToUser(String::from_str("New conversation started"));
        proof {
            assert(state@ =~~= dispatch(msg@, old(state)@).0);
        }
        return r;
    }
    if str_eq(cmd, "/list") {
        let items = joined_display(&state.conversations);
        let r = CommandResult::ReplyToUser(
            String::from_str("Current conversations: ").concat(items.as_str()),
        );
        proof {
            assert(state@ =~~= dispatch(msg@, old(state)@).0);
        }
        return r;
    }
    if str_eq(cmd, "/system") {
        let r = match state.get_current_conversation() {
            Option::None => CommandResult::ReplyToUser(requires_conversation_message(cmd)),
            Option::Some(c) => if rest.is_empty() {
                CommandResult::ReplyToUser(
                    String::from_str("Please set a system message with `/system [system message]`."),
                )
            } else {
                c.system = Option::Some(rest.to_owned());
                CommandResult::ReplyToUser(String::from_str("System message set!"))
            },
        };
        proof {
            assert(state@ =~~= dispatch(msg@, old(state)@).0);
        }
        return r;
    }
    if str_eq(cmd, "/redo") {
        let r = match state.current_index() {
            Option::None => CommandResult::ReplyToUser(requires_conversation_message(cmd)),
            Option::Some(i) => {
                let c = &mut state.conversations[i];
                let n = c.messages.len();
                let last_is_assistant = if n == 0 {
                    false
                } else {
                    match &c.messages[n - 1].from {
                        crate::models::Role::Assistant => true,
                        crate::models::Role::User(_) => false,
                    }
                };
                if last_is_assistant {
                    c.messages.pop();
                    CommandResult::RegenerateLastMessage(i)
                } else {
                    CommandResult::ReplyToUser(
                        String::from_str("Can only /redo if the last message is LlamaBot's!"),
                    )
                }
            },
        };
        proof {
            assert(state@ =~~= dispatch(msg@, old(state)@).0);
        }
        return r;
    }
    let r = CommandResult::ReplyToUser(
        String::from_str("Unknown command ").concat(cmd).concat("."),
    );
    proof {
        assert(state@ =~~= dispatch(msg@, old(state)@).0);
    }
    r
}

} // verus!
