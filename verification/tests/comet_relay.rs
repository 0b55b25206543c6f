use eyebot::bot::{ChatMessage, ChatMessageFragment};
use eyebot::comet::{
    chat_relay_message, chatter_introduction, relay_fragments, relay_step, ChatFragment,
    ChatMetadata, Message, RelayAction, RelayEvent, RelayState, Response,
};
use eyebot::eventsub::event::ChannelChatMessageMessageFragmentEmote;
use eyebot::eventsub::UserInfo;

fn chat(color: Option<&str>) -> ChatMessage {
    ChatMessage {
        message_id: "m".to_string(),
        chatter_user: UserInfo { id: "99".to_string(), login: "eve".to_string(), name: "Eve".to_string() },
        badges: vec![],
        fragments: vec![
            ChatMessageFragment::Text { text: "hi ".to_string() },
            ChatMessageFragment::Mention {
                text: "@Bob".to_string(),
                mention: UserInfo { id: "1".to_string(), login: "bob".to_string(), name: "Bob".to_string() },
            },
            ChatMessageFragment::Emote {
                text: "Kappa".to_string(),
                emote: ChannelChatMessageMessageFragmentEmote { id: "25".to_string() },
            },
        ],
        color: color.map(|c| c.to_string()),
    }
}

fn is_chat_for(m: &Message, user: &str) -> bool {
    matches!(m, Message::Chat { user_id, meta: ChatMetadata::Plain, .. } if user_id == user)
}

fn sent(action: RelayAction) -> Message {
    match action {
        RelayAction::Send(m) => m,
        RelayAction::Finish { .. } => panic!("expected a message"),
    }
}

fn finished(action: RelayAction) -> Option<String> {
    match action {
        RelayAction::Finish { log } => log,
        RelayAction::Send(_) => panic!("expected the end"),
    }
}

#[test]
fn fragments_become_text_and_emote_ids() {
    let c = chat(None);
    let out = relay_fragments(&c.fragments);
    assert_eq!(out.len(), 3);
    assert!(matches!(&out[0], ChatFragment::Text { content } if content == "hi "));
    assert!(matches!(&out[1], ChatFragment::Text { content } if content == "@Bob"));
    assert!(matches!(&out[2], ChatFragment::Emote { emote } if emote == "25"));
    assert!(is_chat_for(&chat_relay_message(&c), "99"));
}

#[test]
fn introduction_uses_color_or_black() {
    for (color, expected) in [(None, "#000000"), (Some("#FF0000"), "#FF0000")] {
        match chatter_introduction(&chat(color)) {
            Message::ChatUser { user_id, chat_info } => {
                assert_eq!(user_id, "99");
                assert_eq!(chat_info.display_name, "Eve");
                assert_eq!(chat_info.name_color, expected);
                assert!(chat_info.badges.is_empty());
            }
            other => panic!("unexpected {other:?}"),
        }
    }
}

#[test]
fn relay_not_connected_does_nothing() {
    let (next, action) = relay_step(RelayState::AwaitConnection, &chat(None), RelayEvent::Connected(false));
    assert_eq!(next, RelayState::Finished);
    assert_eq!(finished(action), None);
}

#[test]
fn relay_full_exchange_with_introduction() {
    let c = chat(None);
    let (s, a) = relay_step(RelayState::AwaitConnection, &c, RelayEvent::Connected(true));
    assert_eq!(s, RelayState::AwaitChatReply);
    assert!(is_chat_for(&sent(a), "99"));
    let (s, a) = relay_step(
        s,
        &c,
        RelayEvent::Reply(Response::Data { state: "x".to_string(), payload: "who?".to_string() }),
    );
    assert_eq!(s, RelayState::AwaitChatterReply);
    assert!(matches!(sent(a), Message::ChatUser { .. }));
    let (s, a) = relay_step(s, &c, RelayEvent::Reply(Response::Success { state: "x".to_string() }));
    assert_eq!(s, RelayState::AwaitChatReply);
    assert!(is_chat_for(&sent(a), "99"));
    let (s, a) = relay_step(s, &c, RelayEvent::Reply(Response::Success { state: "x".to_string() }));
    assert_eq!(s, RelayState::Finished);
    assert_eq!(finished(a), None);
}

#[test]
fn relay_errors_are_logged() {
    let c = chat(None);
    let (s, a) = relay_step(
        RelayState::AwaitChatReply,
        &c,
        RelayEvent::Reply(Response::Error {
            state: "x".to_string(),
            is_internal: true,
            message: "boom".to_string(),
        }),
    );
    assert_eq!(s, RelayState::Finished);
    assert_eq!(finished(a), Some("Comet error sending Chat message: boom (internal)".to_string()));
    let (s, a) = relay_step(
        RelayState::AwaitChatterReply,
        &c,
        RelayEvent::Reply(Response::Error {
            state: "x".to_string(),
            is_internal: false,
            message: "bad user".to_string(),
        }),
    );
    assert_eq!(s, RelayState::Finished);
    assert_eq!(finished(a), Some("Comet error sending ChatUser message: bad user ".to_string()));
}

#[test]
fn finished_relay_stays_finished() {
    let (s, a) = relay_step(RelayState::Finished, &chat(None), RelayEvent::Connected(true));
    assert_eq!(s, RelayState::Finished);
    assert_eq!(finished(a), None);
}
