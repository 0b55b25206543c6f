//! Chat commands: which messages each answers, how it describes itself, and
//! what it does.
use vstd::prelude::*;
use crate::bot::{fragments_text, ChatMessage};
use crate::text::{contains, has_prefix, has_substring, occurs_at, opt_view, starts_with};

verus! {

/// What a command does once it matched a message.
pub enum CommandAction {
    /// Post `message` to the chat, as a reply to the given message if there is one.
    Reply { message: String, reply_parent_message_id: Option<String> },
    /// Relay the message to the Comet overlay.
    RelayToComet,
}

/// The abstract form of a [`CommandAction`].
pub enum CommandActionView {
    Reply { message: Seq<char>, reply_parent_message_id: Option<Seq<char>> },
    RelayToComet,
}

impl View for CommandAction {
    type V = CommandActionView;

    open spec fn view(&self) -> CommandActionView {
        match self {
            CommandAction::Reply { message, reply_parent_message_id } => CommandActionView::Reply {
                message: message@,
                reply_parent_message_id: opt_view(*reply_parent_message_id),
            },
            CommandAction::RelayToComet => CommandActionView::RelayToComet,
        }
    }
}

/// A chat command of the bot.
pub trait Command {
    /// What the command tells about itself to the chatter of a message, if anything.
    spec fn spec_description(&self, chat: ChatMessage) -> Option<Seq<char>>;

    /// Whether the command answers the message.
    spec fn spec_is_match(&self, chat: ChatMessage) -> bool;

    /// What the command does for the message.
    spec fn spec_action(&self, chat: ChatMessage) -> CommandActionView;

    fn description(&self, chat: &ChatMessage) -> (r: Option<String>)
        ensures
            opt_view(r) == self.spec_description(*chat),
    ;

    fn is_match(&self, chat: &ChatMessage) -> (r: bool)
        ensures
            r == self.spec_is_match(*chat),
    ;

    fn action(&self, chat: &ChatMessage) -> (a: CommandAction)
        ensures
            a@ == self.spec_action(*chat),
    ;
}

/// A moderator's `!ping` is answered with "Pong!".
#[derive(Clone, Copy, Debug, PartialEq, Eq, Structural)]
pub struct Ping;

/// A message that mentions eggs gets an egg back.
#[derive(Clone, Copy, Debug, PartialEq, Eq, Structural)]
pub struct Egg;

/// `!crouton` is answered with the link to the Crouton.
#[derive(Clone, Copy, Debug, PartialEq, Eq, Structural)]
pub struct Crouton;

/// `!corndog` is answered with the link to the Corndogs.
#[derive(Clone, Copy, Debug, PartialEq, Eq, Structural)]
pub struct Corndog;

/// Every message is relayed to the Comet overlay.
#[derive(Clone, Copy, Debug, PartialEq, Eq, Structural)]
pub struct Comet;

/// The egg emoji.
pub open spec fn egg_emoji() -> Seq<char> {
    "\u{1F95A}"@
}

impl Command for Ping {
    open spec fn spec_description(&self, chat: ChatMessage) -> Option<Seq<char>> {
        if chat.from_moderator() {
            Some("Replies \"Pong!\""@)
        } else {
            None
        }
    }

    open spec fn spec_is_match(&self, chat: ChatMessage) -> bool {
        chat.from_moderator() && has_prefix(chat.text(), "!ping"@)
    }

    open spec fn spec_action(&self, chat: ChatMessage) -> CommandActionView {
        CommandActionView::Reply {
            message: "Pong!"@,
            reply_parent_message_id: Some(chat.message_id@),
        }
    }

    fn description(&self, chat: &ChatMessage) -> (r: Option<String>) {
        if chat.chatter_is_moderator() {
            Some(String::from_str("Replies \"Pong!\""))
        } else {
            None
        }
    }

    fn is_match(&self, chat: &ChatMessage) -> (r: bool) {
        chat.chatter_is_moderator() && starts_with(chat.message_text().as_str(), "!ping")
    }

    fn action(&self, chat: &ChatMessage) -> (a: CommandAction) {
        CommandAction::Reply {
            message: String::from_str("Pong!"),
            reply_parent_message_id: Some(chat.message_id.clone()),
        }
    }
}

impl Command for Egg {
    open spec fn spec_description(&self, chat: ChatMessage) -> Option<Seq<char>> {
        None
    }

    open spec fn spec_is_match(&self, chat: ChatMessage) -> bool {
        has_substring(chat.text(), "egg"@) || has_substring(chat.text(), egg_emoji())
    }

    open spec fn spec_action(&self, chat: ChatMessage) -> CommandActionView {
        CommandActionView::Reply {
            message: if has_substring(chat.text(), "egg"@) {
                egg_emoji()
            } else {
                "egg"@
            },
            reply_parent_message_id: None,
        }
    }

    fn description(&self, chat: &ChatMessage) -> (r: Option<String>) {
        None
    }

    fn is_match(&self, chat: &ChatMessage) -> (r: bool) {
        contains(chat.message_text().as_str(), "egg") || contains(
            chat.message_text().as_str(),
            "\u{1F95A}",
        )
    }

    fn action(&self, chat: &ChatMessage) -> (a: CommandAction) {
        let message = if contains(chat.message_text().as_str(), "egg") {
            String::from_str("\u{1F95A}")
        } else {
            String::from_str("egg")
        };
        CommandAction::Reply { message, reply_parent_message_id: None }
    }
}

impl Command for Crouton {
    open spec fn spec_description(&self, chat: ChatMessage) -> Option<Seq<char>> {
        Some("A link to the source of the Crouton"@)
    }

    open spec fn spec_is_match(&self, chat: ChatMessage) -> bool {
        has_prefix(chat.text(), "!crouton"@)
    }

    open spec fn spec_action(&self, chat: ChatMessage) -> CommandActionView {
        CommandActionView::Reply { message: "https://crouton.net/"@, reply_parent_message_id: None }
    }

    fn description(&self, chat: &ChatMessage) -> (r: Option<String>) {
        Some(String::from_str("A link to the source of the Crouton"))
    }

    fn is_match(&self, chat: &ChatMessage) -> (r: bool) {
        starts_with(chat.message_text().as_str(), "!crouton")
    }

    fn action(&self, chat: &ChatMessage) -> (a: CommandAction) {
        CommandAction::Reply {
            message: String::from_str("https://crouton.net/"),
            reply_parent_message_id: None,
        }
    }
}

impl Command for Corndog {
    open spec fn spec_description(&self, chat: ChatMessage) -> Option<Seq<char>> {
        Some("A link to the source of the Corndogs"@)
    }

    open spec fn spec_is_match(&self, chat: ChatMessage) -> bool {
        has_prefix(chat.text(), "!corndog"@)
    }

    open spec fn spec_action(&self, chat: ChatMessage) -> CommandActionView {
        CommandActionView::Reply { message: "https://corndog.io/"@, reply_parent_message_id: None }
    }

    fn description(&self, chat: &ChatMessage) -> (r: Option<String>) {
        Some(String::from_str("A link to the source of the Corndogs"))
    }

    fn is_match(&self, chat: &ChatMessage) -> (r: bool) {
        starts_with(chat.message_text().as_str(), "!corndog")
    }

    fn action(&self, chat: &ChatMessage) -> (a: CommandAction) {
        CommandAction::Reply {
            message: String::from_str("https://corndog.io/"),
            reply_parent_message_id: None,
        }
    }
}

impl Command for Comet {
    open spec fn spec_description(&self, chat: ChatMessage) -> Option<Seq<char>> {
        None
    }

    open spec fn spec_is_match(&self, chat: ChatMessage) -> bool {
        true
    }

    open spec fn spec_action(&self, chat: ChatMessage) -> CommandActionView {
        CommandActionView::RelayToComet
    }

    fn description(&self, chat: &ChatMessage) -> (r: Option<String>) {
        None
    }

    fn is_match(&self, chat: &ChatMessage) -> (r: bool) {
        true
    }

    fn action(&self, chat: &ChatMessage) -> (a: CommandAction) {
        CommandAction::RelayToComet
    }
}

} // verus!

verus! {

/// One of the bot's built-in commands.
#[derive(Clone, Copy, Debug, PartialEq, Eq, Structural)]
pub enum BuiltinCommand {
    Ping(Ping),
    Egg(Egg),
    Crouton(Crouton),
    Corndog(Corndog),
    Comet(Comet),
}

/// The commands the bot answers with, in the order it tries them.
pub type BuiltinCommands = Vec<BuiltinCommand>;

impl Command for BuiltinCommand {
    open spec fn spec_description(&self, chat: ChatMessage) -> Option<Seq<char>> {
        match self {
            BuiltinCommand::Ping(c) => c.spec_description(chat),
            BuiltinCommand::Egg(c) => c.spec_description(chat),
            BuiltinCommand::Crouton(c) => c.spec_description(chat),
            BuiltinCommand::Corndog(c) => c.spec_description(chat),
            BuiltinCommand::Comet(c) => c.spec_description(chat),
        }
    }

    open spec fn spec_is_match(&self, chat: ChatMessage) -> bool {
        match self {
            BuiltinCommand::Ping(c) => c.spec_is_match(chat),
            BuiltinCommand::Egg(c) => c.spec_is_match(chat),
            BuiltinCommand::Crouton(c) => c.spec_is_match(chat),
            BuiltinCommand::Corndog(c) => c.spec_is_match(chat),
            BuiltinCommand::Comet(c) => c.spec_is_match(chat),
        }
    }

    open spec fn spec_action(&self, chat: ChatMessage) -> CommandActionView {
        match self {
            BuiltinCommand::Ping(c) => c.spec_action(chat),
            BuiltinCommand::Egg(c) => c.spec_action(chat),
            BuiltinCommand::Crouton(c) => c.spec_action(chat),
            BuiltinCommand::Corndog(c) => c.spec_action(chat),
            BuiltinCommand::Comet(c) => c.spec_action(chat),
        }
    }

    fn description(&self, chat: &ChatMessage) -> (r: Option<String>) {
        match self {
            BuiltinCommand::Ping(c) => c.description(chat),
            BuiltinCommand::Egg(c) => c.description(chat),
            BuiltinCommand::Crouton(c) => c.description(chat),
            BuiltinCommand::Corndog(c) => c.description(chat),
            BuiltinCommand::Comet(c) => c.description(chat),
        }
    }

    fn is_match(&self, chat: &ChatMessage) -> (r: bool) {
        match self {
            BuiltinCommand::Ping(c) => c.is_match(chat),
            BuiltinCommand::Egg(c) => c.is_match(chat),
            BuiltinCommand::Crouton(c) => c.is_match(chat),
            BuiltinCommand::Corndog(c) => c.is_match(chat),
            BuiltinCommand::Comet(c) => c.is_match(chat),
        }
    }

    fn action(&self, chat: &ChatMessage) -> (a: CommandAction) {
        match self {
            BuiltinCommand::Ping(c) => c.action(chat),
            BuiltinCommand::Egg(c) => c.action(chat),
            BuiltinCommand::Crouton(c) => c.action(chat),
            BuiltinCommand::Corndog(c) => c.action(chat),
            BuiltinCommand::Comet(c) => c.action(chat),
        }
    }
}

/// The built-in commands: ping, egg, crouton, corndog, then the Comet relay.
pub open spec fn spec_builtin_commands() -> Seq<BuiltinCommand> {
    seq![
        BuiltinCommand::Ping(Ping),
        BuiltinCommand::Egg(Egg),
        BuiltinCommand::Crouton(Crouton),
        BuiltinCommand::Corndog(Corndog),
        BuiltinCommand::Comet(Comet),
    ]
}

/// The built-in commands, in the order the bot tries them.
pub fn builtin_commands() -> (r: BuiltinCommands)
    ensures
        r@ == spec_builtin_commands(),
{
    let builtin_commands: BuiltinCommands = vec![
        BuiltinCommand::Ping(Ping),
        BuiltinCommand::Egg(Egg),
        BuiltinCommand::Crouton(Crouton),
        BuiltinCommand::Corndog(Corndog),
        BuiltinCommand::Comet(Comet),
    ];
    builtin_commands
}

/// What the commands do for a message: the actions of those that match it,
/// in their order.
pub open spec fn planned_actions(commands: Seq<BuiltinCommand>, chat: ChatMessage) -> Seq<CommandActionView>
    decreases commands.len(),
{
    if commands.len() == 0 {
        Seq::empty()
    } else {
        let earlier = planned_actions(commands.drop_last(), chat);
        if commands.last().spec_is_match(chat) {
            earlier.push(commands.last().spec_action(chat))
        } else {
            earlier
        }
    }
}

/// The actions of the commands that match the message, in the commands' order.
pub fn command_actions(commands: &Vec<BuiltinCommand>, chat: &ChatMessage) -> (r: Vec<CommandAction>)
    ensures
        r@.map_values(|a: CommandAction| a@) == planned_actions(commands@, *chat),
{
    let mut out: Vec<CommandAction> = Vec::new();
    let n = commands.len();
    let mut i: usize = 0;
    while i < n
        invariant
            n == commands@.len(),
            i <= n,
            out@.map_values(|a: CommandAction| a@) == planned_actions(commands@.take(i as int), *chat),
        decreases n - i,
    {
        assert(commands@.take(i + 1).drop_last() =~= commands@.take(i as int));
        let command = &commands[i];
        if command.is_match(chat) {
            let ghost before = out@;
            out.push(command.action(chat));
            assert(out@.map_values(|a: CommandAction| a@) =~= before.map_values(
                |a: CommandAction| a@,
            ).push(commands@[i as int].spec_action(*chat)));
        }
        i = i + 1;
    }
    assert(commands@.take(n as int) =~= commands@);
    out
}

} // verus!

verus! {

/// Ping answers only chatters to whom it describes itself: whenever it
/// matches a message, it has a description for that message's chatter.
pub proof fn lemma_ping_match_is_described(chat: ChatMessage)
    ensures
        Ping.spec_is_match(chat) ==> Ping.spec_description(chat) is Some,
{
}

/// The egg reply itself mentions an egg, so Egg would answer the bot's own
/// reply; only the rule that the bot ignores its own messages stops the loop.
pub proof fn lemma_egg_reply_mentions_egg(chat: ChatMessage)
    ensures
        Egg.spec_action(chat) matches CommandActionView::Reply { message, .. } && (has_substring(
            message,
            "egg"@,
        ) || has_substring(message, egg_emoji())),
{
    let message = if has_substring(chat.text(), "egg"@) {
        egg_emoji()
    } else {
        "egg"@
    };
    assert(message.subrange(0, message.len() as int) =~= message);
    assert(occurs_at(message, message, 0));
}

/// Every chat message is relayed to the overlay, and relaying is the last
/// thing the built-in commands do for it.
pub proof fn lemma_every_message_relayed_last(chat: ChatMessage)
    ensures
        planned_actions(spec_builtin_commands(), chat).len() >= 1,
        planned_actions(spec_builtin_commands(), chat).last() == CommandActionView::RelayToComet,
{
    let all = spec_builtin_commands();
    assert(all.last() == BuiltinCommand::Comet(Comet));
}

} // verus!

verus! {

/// The characters of `!ping`.
pub open spec fn ping_chars() -> Seq<char> {
    seq!['!', 'p', 'i', 'n', 'g']
}

/// Ping matches exactly the messages whose chatter wears a `moderator` or
/// `broadcaster` badge (at any place in the list) and whose whole text (all
/// fragments joined) begins with `!ping`; a moderator's text that is exactly
/// `!ping` matches.
pub proof fn lemma_ping_matches_moderator_ping(chat: ChatMessage)
    ensures
        Ping.spec_is_match(chat) <==> (exists|i: int|
            0 <= i < chat.badges@.len() && (#[trigger] chat.badges@[i].set_id@ == seq![
                'm',
                'o',
                'd',
                'e',
                'r',
                'a',
                't',
                'o',
                'r',
            ] || chat.badges@[i].set_id@ == seq![
                'b',
                'r',
                'o',
                'a',
                'd',
                'c',
                'a',
                's',
                't',
                'e',
                'r',
            ])) && ping_chars().len() <= fragments_text(chat.fragments@).len()
            && fragments_text(chat.fragments@).subrange(0, ping_chars().len() as int) == ping_chars(),
        chat.from_moderator() && fragments_text(chat.fragments@) == ping_chars()
            ==> Ping.spec_is_match(chat),
{
    crate::bot::lemma_moderator_iff_some_badge(chat);
    reveal_strlit("!ping");
    assert("!ping"@ =~= ping_chars());
    let t = fragments_text(chat.fragments@);
    if t == ping_chars() {
        assert(t.subrange(0, 5) =~= t);
    }
}

/// The characters of the egg emoji.
pub open spec fn egg_chars() -> Seq<char> {
    seq!['\u{1F95A}']
}

/// Egg matches exactly the messages whose whole text (all fragments joined)
/// holds `egg` or the egg emoji somewhere.
pub proof fn lemma_egg_matches_egg_anywhere(chat: ChatMessage)
    ensures
        Egg.spec_is_match(chat) <==> (exists|i: int|
            0 <= i && i + 3 <= fragments_text(chat.fragments@).len() && #[trigger] fragments_text(
                chat.fragments@,
            ).subrange(i, i + 3) == seq!['e', 'g', 'g']) || (exists|i: int|
            0 <= i && i + 1 <= fragments_text(chat.fragments@).len() && #[trigger] fragments_text(
                chat.fragments@,
            ).subrange(i, i + 1) == egg_chars()),
{
    reveal_strlit("egg");
    reveal_strlit("\u{1F95A}");
    assert("egg"@ =~= seq!['e', 'g', 'g']);
    assert(egg_emoji() =~= egg_chars());
    let t = fragments_text(chat.fragments@);
    if has_substring(t, "egg"@) {
        let i = choose|i: int| occurs_at(t, "egg"@, i);
        assert(t.subrange(i, i + 3) == seq!['e', 'g', 'g']);
    }
    if has_substring(t, egg_emoji()) {
        let i = choose|i: int| occurs_at(t, egg_emoji(), i);
        assert(t.subrange(i, i + 1) == egg_chars());
    }
    if exists|i: int| 0 <= i && i + 3 <= t.len() && #[trigger] t.subrange(i, i + 3) == seq!['e', 'g', 'g'] {
        let i = choose|i: int| 0 <= i && i + 3 <= t.len() && #[trigger] t.subrange(i, i + 3) == seq!['e', 'g', 'g'];
        assert(occurs_at(t, "egg"@, i));
    }
    if exists|i: int| 0 <= i && i + 1 <= t.len() && #[trigger] t.subrange(i, i + 1) == egg_chars() {
        let i = choose|i: int| 0 <= i && i + 1 <= t.len() && #[trigger] t.subrange(i, i + 1) == egg_chars();
        assert(occurs_at(t, egg_emoji(), i));
    }
}

/// The commands' plan grows command by command: nothing for no commands, and a
/// command added at the end adds its own action exactly when it matches.
pub proof fn lemma_plan_adds_each_matching_command(
    commands: Seq<BuiltinCommand>,
    c: BuiltinCommand,
    chat: ChatMessage,
)
    ensures
        planned_actions(Seq::empty(), chat) == Seq::<CommandActionView>::empty(),
        planned_actions(commands.push(c), chat) == if c.spec_is_match(chat) {
            planned_actions(commands, chat).push(c.spec_action(chat))
        } else {
            planned_actions(commands, chat)
        },
{
    assert(commands.push(c).drop_last() =~= commands);
}

} // verus!
