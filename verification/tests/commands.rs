use eyebot::bot::command::{
    builtin_commands, command_actions, BuiltinCommand, Command, CommandAction, Comet, Corndog,
    Crouton, Egg, Ping,
};
use eyebot::bot::{Builtins, ChatMessage, ChatMessageBadge, ChatMessageFragment};
use eyebot::eventsub::event::ChannelChatMessageMessageFragmentEmote;
use eyebot::eventsub::UserInfo;

fn user(id: &str, name: &str) -> UserInfo {
    UserInfo { id: id.to_string(), login: name.to_lowercase(), name: name.to_string() }
}

fn text(t: &str) -> ChatMessageFragment {
    ChatMessageFragment::Text { text: t.to_string() }
}

fn chat(fragments: Vec<ChatMessageFragment>, badges: &[&str]) -> ChatMessage {
    ChatMessage {
        message_id: "msg-1".to_string(),
        chatter_user: user("42", "Viewer"),
        badges: badges.iter().map(|b| ChatMessageBadge { set_id: b.to_string() }).collect(),
        fragments,
        color: None,
    }
}

fn reply_of(action: CommandAction) -> (String, Option<String>) {
    match action {
        CommandAction::Reply { message, reply_parent_message_id } => (message, reply_parent_message_id),
        CommandAction::RelayToComet => panic!("expected a reply"),
    }
}

#[test]
fn message_text_joins_all_fragments() {
    let m = chat(
        vec![
            text("hi "),
            ChatMessageFragment::Mention { text: "@Eye".to_string(), mention: user("7", "Eye") },
            text(" look "),
            ChatMessageFragment::Emote {
                text: "Kappa".to_string(),
                emote: ChannelChatMessageMessageFragmentEmote { id: "25".to_string() },
            },
        ],
        &[],
    );
    assert_eq!(m.message_text(), "hi @Eye look Kappa");
    assert_eq!(chat(vec![], &[]).message_text(), "");
}

#[test]
fn moderator_and_broadcaster_badges_count() {
    assert!(chat(vec![], &["subscriber", "moderator"]).chatter_is_moderator());
    assert!(chat(vec![], &["broadcaster"]).chatter_is_moderator());
    assert!(!chat(vec![], &["vip", "subscriber"]).chatter_is_moderator());
    assert!(!chat(vec![], &["Moderator"]).chatter_is_moderator());
    assert!(!chat(vec![], &[]).chatter_is_moderator());
}

#[test]
fn ping_answers_moderators_only() {
    let modmsg = chat(vec![text("!ping please")], &["moderator"]);
    let viewer = chat(vec![text("!ping")], &[]);
    assert!(Ping.is_match(&modmsg));
    assert!(!Ping.is_match(&viewer));
    assert!(!Ping.is_match(&chat(vec![text(" !ping")], &["moderator"])));
    assert_eq!(Ping.description(&modmsg), Some("Replies \"Pong!\"".to_string()));
    assert_eq!(Ping.description(&viewer), None);
    let (message, parent) = reply_of(Ping.action(&modmsg));
    assert_eq!(message, "Pong!");
    assert_eq!(parent, Some("msg-1".to_string()));
}

#[test]
fn ping_match_implies_description() {
    for badges in [&["moderator"][..], &["vip"][..], &[][..]] {
        for t in ["!ping", "ping", "!pingu"] {
            let m = chat(vec![text(t)], badges);
            if Ping.is_match(&m) {
                assert!(Ping.description(&m).is_some());
            }
        }
    }
}

#[test]
fn egg_swaps_egg_words_and_emoji() {
    let word = chat(vec![text("I like eggs")], &[]);
    let emoji = chat(vec![text("look \u{1F95A}")], &[]);
    let both = chat(vec![text("egg \u{1F95A}")], &[]);
    let none = chat(vec![text("EGG")], &[]);
    assert!(Egg.is_match(&word));
    assert!(Egg.is_match(&emoji));
    assert!(!Egg.is_match(&none));
    assert_eq!(reply_of(Egg.action(&word)), ("\u{1F95A}".to_string(), None));
    assert_eq!(reply_of(Egg.action(&emoji)), ("egg".to_string(), None));
    assert_eq!(reply_of(Egg.action(&both)), ("\u{1F95A}".to_string(), None));
    assert_eq!(Egg.description(&word), None);
}

#[test]
fn egg_reply_would_match_egg_again() {
    for t in ["egg", "\u{1F95A}"] {
        let (reply, _) = reply_of(Egg.action(&chat(vec![text(t)], &[])));
        assert!(Egg.is_match(&chat(vec![text(&reply)], &[])));
    }
}

#[test]
fn link_commands() {
    let c = chat(vec![text("!crouton")], &[]);
    let d = chat(vec![text("!corndog now")], &[]);
    assert!(Crouton.is_match(&c) && !Crouton.is_match(&d));
    assert!(Corndog.is_match(&d) && !Corndog.is_match(&c));
    assert_eq!(reply_of(Crouton.action(&c)), ("https://crouton.net/".to_string(), None));
    assert_eq!(reply_of(Corndog.action(&d)), ("https://corndog.io/".to_string(), None));
    assert_eq!(Crouton.description(&d), Some("A link to the source of the Crouton".to_string()));
    assert_eq!(Corndog.description(&c), Some("A link to the source of the Corndogs".to_string()));
}

#[test]
fn comet_matches_everything() {
    let m = chat(vec![], &[]);
    assert!(Comet.is_match(&m));
    assert_eq!(Comet.description(&m), None);
    assert!(matches!(Comet.action(&m), CommandAction::RelayToComet));
}

#[test]
fn builtin_command_order() {
    assert_eq!(
        builtin_commands(),
        vec![
            BuiltinCommand::Ping(Ping),
            BuiltinCommand::Egg(Egg),
            BuiltinCommand::Crouton(Crouton),
            BuiltinCommand::Corndog(Corndog),
            BuiltinCommand::Comet(Comet),
        ]
    );
    let b = Builtins::new();
    assert_eq!(b.commands.len(), 5);
    assert_eq!(b.redeems.len(), 2);
}

#[test]
fn actions_follow_matching_commands_in_order() {
    let b = Builtins::new();
    let m = chat(vec![text("!ping egg")], &["broadcaster"]);
    let actions = command_actions(&b.commands, &m);
    assert_eq!(actions.len(), 3);
    let mut it = actions.into_iter();
    assert_eq!(reply_of(it.next().unwrap()), ("Pong!".to_string(), Some("msg-1".to_string())));
    assert_eq!(reply_of(it.next().unwrap()), ("\u{1F95A}".to_string(), None));
    assert!(matches!(it.next().unwrap(), CommandAction::RelayToComet));
}

#[test]
fn every_message_is_relayed_last() {
    let b = Builtins::new();
    for t in ["", "hello", "!crouton", "!corndog egg"] {
        let actions = command_actions(&b.commands, &chat(vec![text(t)], &[]));
        assert!(matches!(actions.last(), Some(CommandAction::RelayToComet)));
    }
}
