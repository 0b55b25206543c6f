//! What the bot knows of a chat message or a redemption, and its built-in
//! commands and redeems.
pub mod command;
pub mod redeem;

use vstd::prelude::*;
use crate::eventsub::UserInfo;
use crate::eventsub::event::{
    ChannelChatMessageBadge, ChannelChatMessageMessageFragment,
    ChannelPointsCustomRewardRedemptionAddReward,
};
use crate::text::same_text;
use crate::bot::command::{builtin_commands, spec_builtin_commands, BuiltinCommands};
use crate::bot::redeem::{builtin_redeems, spec_builtin_redeems, BuiltinRedeems};

verus! {

pub type ChatMessageFragment = ChannelChatMessageMessageFragment;

pub type ChatMessageBadge = ChannelChatMessageBadge;

pub type PointRedeemReward = ChannelPointsCustomRewardRedemptionAddReward;

/// The bot's built-in commands and redeems.
pub struct Builtins {
    pub commands: BuiltinCommands,
    pub redeems: BuiltinRedeems,
}

impl Builtins {
    /// All built-in commands and redeems.
    pub fn new() -> (r: Self)
        ensures
            r.commands@ == spec_builtin_commands(),
            r.redeems@ == spec_builtin_redeems(),
    {
        Self { commands: builtin_commands(), redeems: builtin_redeems() }
    }
}

/// A chat message as the commands see it.
#[derive(Clone, Debug)]
pub struct ChatMessage {
    pub message_id: String,
    pub chatter_user: UserInfo,
    pub badges: Vec<ChatMessageBadge>,
    pub fragments: Vec<ChatMessageFragment>,
    /// The color of the chatter's name, where the chatter has set one.
    pub color: Option<String>,
}

/// A channel point redemption as the redeems see it.
#[derive(Clone, Debug)]
pub struct PointRedeem {
    pub id: String,
    pub broadcaster_user: UserInfo,
    pub user: UserInfo,
    pub user_input: String,
    pub reward: PointRedeemReward,
}

/// The text of a message: the texts of its fragments, one after another.
pub open spec fn fragments_text(fragments: Seq<ChatMessageFragment>) -> Seq<char>
    decreases fragments.len(),
{
    if fragments.len() == 0 {
        Seq::empty()
    } else {
        fragments_text(fragments.drop_last()) + fragments.last().spec_text()
    }
}

/// A badge that marks a moderator or the broadcaster.
pub open spec fn is_moderator_badge(set_id: Seq<char>) -> bool {
    set_id == "moderator"@ || set_id == "broadcaster"@
}

impl ChatMessage {
    /// The text of the message.
    pub open spec fn text(self) -> Seq<char> {
        fragments_text(self.fragments@)
    }

    /// Whether one of the chatter's badges is that of a moderator or the broadcaster.
    pub open spec fn from_moderator(self) -> bool {
        exists|i: int|
            0 <= i < self.badges@.len() && #[trigger] is_moderator_badge(self.badges@[i].set_id@)
    }

    /// The concatenated texts of all fragments.
    pub fn message_text(&self) -> (r: String)
        ensures
            r@ == self.text(),
    {
        let mut message = String::new();
        let n = self.fragments.len();
        let mut i: usize = 0;
        while i < n
            invariant
                n == self.fragments@.len(),
                i <= n,
                message@ == fragments_text(self.fragments@.take(i as int)),
            decreases n - i,
        {
            assert(self.fragments@.take(i + 1).drop_last() =~= self.fragments@.take(i as int));
            match &self.fragments[i] {
                ChannelChatMessageMessageFragment::Emote { text, .. }
                | ChannelChatMessageMessageFragment::Text { text }
                | ChannelChatMessageMessageFragment::Mention { text, .. } => {
                    message.append(text.as_str());
                },
            }
            i = i + 1;
        }
        assert(self.fragments@.take(n as int) =~= self.fragments@);
        message
    }

    /// Whether the chatter wears a moderator or broadcaster badge.
    pub fn chatter_is_moderator(&self) -> (r: bool)
        ensures
            r == self.from_moderator(),
    {
        let n = self.badges.len();
        let mut i: usize = 0;
        while i < n
            invariant
                n == self.badges@.len(),
                i <= n,
                forall|k: int| 0 <= k < i ==> !is_moderator_badge(#[trigger] self.badges@[k].set_id@),
            decreases n - i,
        {
            let set_id = self.badges[i].set_id.as_str();
            if same_text(set_id, "moderator") || same_text(set_id, "broadcaster") {
                assert(is_moderator_badge(self.badges@[i as int].set_id@));
                return true;
            }
            i = i + 1;
        }
        false
    }
}

} // verus!

verus! {

/// The text of a message grows by exactly each fragment's own text, whatever
/// the fragment's kind: no text at all for no fragments, and appending a
/// fragment appends its text.
pub proof fn lemma_text_appends_each_fragment(fragments: Seq<ChatMessageFragment>, f: ChatMessageFragment)
    ensures
        fragments_text(Seq::empty()) == Seq::<char>::empty(),
        fragments_text(fragments.push(f)) == fragments_text(fragments) + match f {
            ChannelChatMessageMessageFragment::Text { text } => text@,
            ChannelChatMessageMessageFragment::Mention { text, .. } => text@,
            ChannelChatMessageMessageFragment::Emote { text, .. } => text@,
        },
{
    assert(fragments.push(f).drop_last() =~= fragments);
}

/// The text of two runs of fragments is the text of the first followed by the
/// text of the second.
pub proof fn lemma_text_of_concatenation(a: Seq<ChatMessageFragment>, b: Seq<ChatMessageFragment>)
    ensures
        fragments_text(a + b) == fragments_text(a) + fragments_text(b),
    decreases b.len(),
{
    if b.len() == 0 {
        assert(a + b =~= a);
        assert(fragments_text(a) + Seq::<char>::empty() =~= fragments_text(a));
    } else {
        let c = b.drop_last();
        lemma_text_of_concatenation(a, c);
        assert((a + b).drop_last() =~= a + c);
        assert((a + b).last() == b.last());
        assert(fragments_text(a + b) =~= fragments_text(a) + fragments_text(b));
    }
}

/// A chatter counts as a moderator exactly when some badge, at any place in the
/// list, is `moderator` or `broadcaster`.
pub proof fn lemma_moderator_iff_some_badge(chat: ChatMessage)
    ensures
        chat.from_moderator() <==> exists|i: int|
            0 <= i < chat.badges@.len() && (#[trigger] chat.badges@[i].set_id@ == seq![
                'm',
                'o',
                'd',
                'e',
                'r',
                'a',
                't',
                'o',
                'r',
            ] || chat.badges@[i].set_id@ == seq![
                'b',
                'r',
                'o',
                'a',
                'd',
                'c',
                'a',
                's',
                't',
                'e',
                'r',
            ]),
{
    reveal_strlit("moderator");
    reveal_strlit("broadcaster");
    assert("moderator"@ =~= seq!['m', 'o', 'd', 'e', 'r', 'a', 't', 'o', 'r']);
    assert("broadcaster"@ =~= seq!['b', 'r', 'o', 'a', 'd', 'c', 'a', 's', 't', 'e', 'r']);
    if chat.from_moderator() {
        let i = choose|i: int|
            0 <= i < chat.badges@.len() && #[trigger] is_moderator_badge(chat.badges@[i].set_id@);
        assert(0 <= i < chat.badges@.len() && is_moderator_badge(chat.badges@[i].set_id@));
    }
    if exists|i: int|
        0 <= i < chat.badges@.len() && (#[trigger] chat.badges@[i].set_id@ == seq![
            'm',
            'o',
            'd',
            'e',
            'r',
            'a',
            't',
            'o',
            'r',
        ] || chat.badges@[i].set_id@ == seq!['b', 'r', 'o', 'a', 'd', 'c', 'a', 's', 't', 'e', 'r'])
    {
        let i = choose|i: int|
            0 <= i < chat.badges@.len() && (#[trigger] chat.badges@[i].set_id@ == seq![
                'm',
                'o',
                'd',
                'e',
                'r',
                'a',
                't',
                'o',
                'r',
            ] || chat.badges@[i].set_id@ == seq![
                'b',
                'r',
                'o',
                'a',
                'd',
                'c',
                'a',
                's',
                't',
                'e',
                'r',
            ]);
        assert(is_moderator_badge(chat.badges@[i].set_id@));
    }
}

} // verus!
