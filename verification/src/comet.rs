//! The Comet overlay protocol: the messages the bot sends to the overlay, its
//! replies, and the exchange that relays a chat message to it.
use vstd::prelude::*;
use crate::bot::{ChatMessage, ChatMessageFragment};
use crate::eventsub::event::ChannelChatMessageMessageFragment;

verus! {

/// A message to the overlay (`type` and `payload` on the wire).
#[derive(Clone, Debug)]
pub enum Message {
    Register { state: String },
    GetComponents {},
    PlayAudio { data: Vec<Vec<AudioComponent>> },
    AudioVolume {},
    AudioClear {},
    ChatSetEmotes { username: String },
    Chat { user_id: String, chat: Vec<ChatFragment>, meta: ChatMetadata },
    ChatUser { user_id: String, chat_info: Chatter },
    ChatClear { user_id: Option<String> },
    Features {},
}

/// One sound of a `play_audio` request.
#[derive(Clone, Debug)]
pub struct AudioComponent {
    pub name: String,
}

/// A piece of a relayed chat message.
#[derive(Clone, Debug)]
pub enum ChatFragment {
    Text { content: String },
    Emote { emote: String },
}

/// How the overlay shows a chatter.
#[derive(Clone, Debug)]
pub struct Chatter {
    pub display_name: String,
    pub name_color: String,
    pub badges: Vec<String>,
}

/// Whether a relayed chat message is plain (`none` on the wire) or an action (`/me`).
#[derive(Clone, Copy, Debug, PartialEq, Eq, Structural)]
pub enum ChatMetadata {
    Plain,
    Action,
}

/// A reply of the overlay (`ok`, `data` or `error` on the wire).
#[derive(Clone, Debug)]
pub enum Response {
    Success { state: String },
    Data { state: String, payload: String },
    Error { state: String, is_internal: bool, message: String },
}

/// The overlay's form of a chat fragment: text and mentions become text, an
/// emote becomes its id.
pub open spec fn relay_fragment(f: ChatMessageFragment) -> ChatFragment {
    match f {
        ChannelChatMessageMessageFragment::Text { text } => ChatFragment::Text { content: text },
        ChannelChatMessageMessageFragment::Mention { text, .. } => ChatFragment::Text {
            content: text,
        },
        ChannelChatMessageMessageFragment::Emote { emote, .. } => ChatFragment::Emote {
            emote: emote.id,
        },
    }
}

/// `m` relays the chat message `chat` to the overlay.
pub open spec fn is_chat_relay(m: Message, chat: ChatMessage) -> bool {
    &&& m matches Message::Chat { user_id, chat: fragments, meta }
    &&& user_id == chat.chatter_user.id
    &&& fragments@ == chat.fragments@.map_values(|f: ChatMessageFragment| relay_fragment(f))
    &&& meta == ChatMetadata::Plain
}

/// The name color the overlay is told: the chatter's, or black.
pub open spec fn relay_name_color(chat: ChatMessage, color: String) -> bool {
    match chat.color {
        Some(c) => color == c,
        None => color@ == "#000000"@,
    }
}

/// `m` introduces the chatter of `chat` to the overlay.
pub open spec fn is_chatter_introduction(m: Message, chat: ChatMessage) -> bool {
    &&& m matches Message::ChatUser { user_id, chat_info }
    &&& user_id == chat.chatter_user.id
    &&& chat_info.display_name == chat.chatter_user.name
    &&& relay_name_color(chat, chat_info.name_color)
    &&& chat_info.badges@.len() == 0
}

/// The line logged when the overlay answers a message of kind `kind` with an error.
pub open spec fn comet_error_line(kind: Seq<char>, message: Seq<char>, is_internal: bool) -> Seq<char> {
    "Comet error sending "@ + kind + " message: "@ + message + " "@ + if is_internal {
        "(internal)"@
    } else {
        ""@
    }
}

/// The overlay's form of the fragments of a chat message.
pub fn relay_fragments(fragments: &Vec<ChatMessageFragment>) -> (r: Vec<ChatFragment>)
    ensures
        r@ == fragments@.map_values(|f: ChatMessageFragment| relay_fragment(f)),
{
    let mut out: Vec<ChatFragment> = Vec::new();
    let n = fragments.len();
    let mut i: usize = 0;
    while i < n
        invariant
            n == fragments@.len(),
            i <= n,
            out@ == fragments@.take(i as int).map_values(|f: ChatMessageFragment| relay_fragment(f)),
        decreases n - i,
    {
        let piece = match &fragments[i] {
            ChannelChatMessageMessageFragment::Text { text }
            | ChannelChatMessageMessageFragment::Mention { text, .. } => ChatFragment::Text {
                content: text.clone(),
            },
            ChannelChatMessageMessageFragment::Emote { emote, .. } => ChatFragment::Emote {
                emote: emote.id.clone(),
            },
        };
        out.push(piece);
        assert(fragments@.take(i + 1) =~= fragments@.take(i as int).push(fragments@[i as int]));
        i = i + 1;
    }
    assert(fragments@.take(n as int) =~= fragments@);
    out
}

/// The message that relays `chat` to the overlay.
pub fn chat_relay_message(chat: &ChatMessage) -> (m: Message)
    ensures
        is_chat_relay(m, *chat),
{
    Message::Chat {
        user_id: chat.chatter_user.id.clone(),
        chat: relay_fragments(&chat.fragments),
        meta: ChatMetadata::Plain,
    }
}

/// The message that introduces the chatter of `chat` to the overlay.
pub fn chatter_introduction(chat: &ChatMessage) -> (m: Message)
    ensures
        is_chatter_introduction(m, *chat),
{
    let name_color = match &chat.color {
        Some(it) => it.clone(),
        None => String::from_str("#000000"),
    };
    Message::ChatUser {
        user_id: chat.chatter_user.id.clone(),
        chat_info: Chatter {
            display_name: chat.chatter_user.name.clone(),
            name_color,
            badges: Vec::new(),
        },
    }
}

/// The line logged for an error reply to a message of kind `kind`.
pub fn comet_error_report(kind: &str, message: &String, is_internal: bool) -> (r: String)
    ensures
        r@ == comet_error_line(kind@, message@, is_internal),
{
    let mut line = String::from_str("Comet error sending ");
    line.append(kind);
    line.append(" message: ");
    line.append(message.as_str());
    line.append(" ");
    if is_internal {
        line.append("(internal)");
    } else {
        proof {
            reveal_strlit("");
        }
        assert(line@ =~= line@ + ""@);
    }
    line
}

/// Where the relay of one chat message to the overlay stands.
#[derive(Clone, Copy, Debug, PartialEq, Eq, Structural)]
pub enum RelayState {
    /// Waiting to learn whether the overlay is connected.
    AwaitConnection,
    /// The chat message was sent; waiting for the reply.
    AwaitChatReply,
    /// The chatter was introduced; waiting for the reply.
    AwaitChatterReply,
    /// Nothing more to do.
    Finished,
}

/// What the relay learns from the outside.
pub enum RelayEvent {
    /// Whether the overlay is connected.
    Connected(bool),
    /// The overlay's reply to the last message sent.
    Reply(Response),
}

/// What the relay asks the caller to do next.
pub enum RelayAction {
    /// Send this message to the overlay and report its reply.
    Send(Message),
    /// Stop, logging this line if there is one.
    Finish { log: Option<String> },
}

/// The replies that the relay cannot be handed: the overlay never answers an
/// introduction with data.
pub open spec fn relay_event_expected(state: RelayState, event: RelayEvent) -> bool {
    !(state == RelayState::AwaitChatterReply && event matches RelayEvent::Reply(Response::Data { .. }))
}

/// The relay finishes with `log` as its line.
pub open spec fn finishes_with(a: RelayAction, log: Option<Seq<char>>) -> bool {
    &&& a matches RelayAction::Finish { log: l }
    &&& match (l, log) {
        (Some(x), Some(y)) => x@ == y,
        (None, None) => true,
        _ => false,
    }
}

/// One step of the relay: from where it stands and what it learned, where it
/// goes and what it asks for.
pub open spec fn relay_transition(
    state: RelayState,
    chat: ChatMessage,
    event: RelayEvent,
    next: RelayState,
    action: RelayAction,
) -> bool {
    match (state, event) {
        (RelayState::AwaitConnection, RelayEvent::Connected(true)) => {
            &&& next == RelayState::AwaitChatReply
            &&& action matches RelayAction::Send(m) && is_chat_relay(m, chat)
        },
        (RelayState::AwaitChatReply, RelayEvent::Reply(Response::Data { .. })) => {
            &&& next == RelayState::AwaitChatterReply
            &&& action matches RelayAction::Send(m) && is_chatter_introduction(m, chat)
        },
        (RelayState::AwaitChatReply, RelayEvent::Reply(Response::Error { is_internal, message, .. })) => {
            &&& next == RelayState::Finished
            &&& finishes_with(action, Some(comet_error_line("Chat"@, message@, is_internal)))
        },
        (RelayState::AwaitChatterReply, RelayEvent::Reply(Response::Success { .. })) => {
            &&& next == RelayState::AwaitChatReply
            &&& action matches RelayAction::Send(m) && is_chat_relay(m, chat)
        },
        (RelayState::AwaitChatterReply, RelayEvent::Reply(Response::Error { is_internal, message, .. })) => {
            &&& next == RelayState::Finished
            &&& finishes_with(action, Some(comet_error_line("ChatUser"@, message@, is_internal)))
        },
        _ => {
            &&& next == RelayState::Finished
            &&& finishes_with(action, None)
        },
    }
}

/// Decides the next step of relaying `chat` to the overlay.
pub fn relay_step(state: RelayState, chat: &ChatMessage, event: RelayEvent) -> (r: (RelayState, RelayAction))
    requires
        relay_event_expected(state, event),
    ensures
        relay_transition(state, *chat, event, r.0, r.1),
{
    match (state, event) {
        (RelayState::AwaitConnection, RelayEvent::Connected(true)) => {
            (RelayState::AwaitChatReply, RelayAction::Send(chat_relay_message(chat)))
        },
        (RelayState::AwaitChatReply, RelayEvent::Reply(Response::Data { .. })) => {
            (RelayState::AwaitChatterReply, RelayAction::Send(chatter_introduction(chat)))
        },
        (RelayState::AwaitChatReply, RelayEvent::Reply(Response::Error { is_internal, message, .. })) => {
            let log = comet_error_report("Chat", &message, is_internal);
            (RelayState::Finished, RelayAction::Finish { log: Some(log) })
        },
        (RelayState::AwaitChatterReply, RelayEvent::Reply(Response::Success { .. })) => {
            (RelayState::AwaitChatReply, RelayAction::Send(chat_relay_message(chat)))
        },
        (RelayState::AwaitChatterReply, RelayEvent::Reply(Response::Error { is_internal, message, .. })) => {
            let log = comet_error_report("ChatUser", &message, is_internal);
            (RelayState::Finished, RelayAction::Finish { log: Some(log) })
        },
        _ => (RelayState::Finished, RelayAction::Finish { log: None }),
    }
}

} // verus!

verus! {

/// Every message the relay sends speaks of the chatter of the relayed message:
/// it is either the chat relay or the chatter's introduction, both under the
/// chatter's user id.
pub proof fn lemma_relay_speaks_for_chatter(
    state: RelayState,
    chat: ChatMessage,
    event: RelayEvent,
    next: RelayState,
    action: RelayAction,
)
    requires
        relay_transition(state, chat, event, next, action),
    ensures
        action matches RelayAction::Send(m) ==> (is_chat_relay(m, chat) || is_chatter_introduction(
            m,
            chat,
        )),
{
}

/// A finished relay stays finished and sends nothing more.
pub proof fn lemma_finished_relay_is_silent(
    chat: ChatMessage,
    event: RelayEvent,
    next: RelayState,
    action: RelayAction,
)
    requires
        relay_transition(RelayState::Finished, chat, event, next, action),
    ensures
        next == RelayState::Finished,
        action is Finish,
{
}

/// An introduction of the chatter is made only in answer to a data reply to
/// the chat relay, and a success reply to it is answered by sending the chat
/// relay again.
pub proof fn lemma_introduction_then_retry(
    state: RelayState,
    chat: ChatMessage,
    event: RelayEvent,
    next: RelayState,
    action: RelayAction,
)
    requires
        relay_transition(state, chat, event, next, action),
    ensures
        next == RelayState::AwaitChatterReply ==> state == RelayState::AwaitChatReply && (
        event matches RelayEvent::Reply(Response::Data { .. })),
        state == RelayState::AwaitChatterReply && (event matches RelayEvent::Reply(
            Response::Success { .. },
        )) ==> next == RelayState::AwaitChatReply && (action matches RelayAction::Send(m)
            && is_chat_relay(m, chat)),
{
}

} // verus!
