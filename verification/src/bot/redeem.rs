//! Channel point redeems: which redemptions each answers and what it does.
use vstd::prelude::*;
use crate::bot::PointRedeem;
use crate::comet::{comet_error_line, comet_error_report, AudioComponent, Response};
use crate::text::{
    join_with, lemma_split_join, lemma_split_pieces_avoid, same_text, split, split_on,
};

verus! {

/// The most sound groups that one `Play Audio` redemption may ask for.
pub const MAX_AUDIO_GROUPS: usize = 10;

/// The sounds a `Play Audio` input asks for: its first ten space-separated
/// groups, each split at `+` into sound names.
pub open spec fn audio_request(input: Seq<char>) -> Seq<Seq<Seq<char>>> {
    let groups = split_on(input, ' ');
    let kept = if groups.len() <= MAX_AUDIO_GROUPS {
        groups
    } else {
        groups.take(MAX_AUDIO_GROUPS as int)
    };
    kept.map_values(|g: Seq<char>| split_on(g, '+'))
}

/// The sound names of a `play_audio` payload.
pub open spec fn audio_names(data: Seq<Vec<AudioComponent>>) -> Seq<Seq<Seq<char>>> {
    data.map_values(|g: Vec<AudioComponent>| g@.map_values(|a: AudioComponent| a.name@))
}

/// The sounds of one group, as components.
fn audio_group(group: &str) -> (r: Vec<AudioComponent>)
    ensures
        r@.map_values(|a: AudioComponent| a.name@) == split_on(group@, '+'),
{
    let names = split(group, '+');
    let mut out: Vec<AudioComponent> = Vec::new();
    let n = names.len();
    let mut i: usize = 0;
    while i < n
        invariant
            n == names@.len(),
            i <= n,
            names.deep_view() == split_on(group@, '+'),
            out@.map_values(|a: AudioComponent| a.name@) == names.deep_view().take(i as int),
        decreases n - i,
    {
        let ghost before = out@;
        out.push(AudioComponent { name: names[i].clone() });
        assert(out@.map_values(|a: AudioComponent| a.name@) =~= before.map_values(
            |a: AudioComponent| a.name@,
        ).push(names@[i as int]@));
        assert(names.deep_view().take(i + 1) =~= names.deep_view().take(i as int).push(
            names@[i as int]@,
        ));
        i = i + 1;
    }
    assert(names.deep_view().take(n as int) =~= names.deep_view());
    out
}

/// The `play_audio` payload for a redemption's input.
pub fn audio_request_data(input: &str) -> (r: Vec<Vec<AudioComponent>>)
    ensures
        audio_names(r@) == audio_request(input@),
{
    let groups = split(input, ' ');
    let n = if groups.len() <= MAX_AUDIO_GROUPS {
        groups.len()
    } else {
        MAX_AUDIO_GROUPS
    };
    let ghost kept = if groups@.len() <= MAX_AUDIO_GROUPS {
        groups.deep_view()
    } else {
        groups.deep_view().take(MAX_AUDIO_GROUPS as int)
    };
    assert(kept =~= groups.deep_view().take(n as int));
    let mut out: Vec<Vec<AudioComponent>> = Vec::new();
    let mut i: usize = 0;
    while i < n
        invariant
            n <= groups@.len(),
            i <= n,
            groups.deep_view() == split_on(input@, ' '),
            audio_names(out@) == groups.deep_view().take(i as int).map_values(
                |g: Seq<char>| split_on(g, '+'),
            ),
        decreases n - i,
    {
        let ghost before = out@;
        let group = audio_group(groups[i].as_str());
        out.push(group);
        assert(audio_names(out@) =~= audio_names(before).push(split_on(groups@[i as int]@, '+')));
        assert(groups.deep_view().take(i + 1) =~= groups.deep_view().take(i as int).push(
            groups@[i as int]@,
        ));
        i = i + 1;
    }
    out
}

/// Joining the sound names of a request back together (`+` within a group,
/// a space between groups) gives back the input, when it holds at most ten groups.
pub proof fn lemma_audio_request_round_trip(input: Seq<char>)
    requires
        split_on(input, ' ').len() <= MAX_AUDIO_GROUPS,
    ensures
        join_with(
            audio_request(input).map_values(|g: Seq<Seq<char>>| join_with(g, seq!['+'])),
            seq![' '],
        ) == input,
{
    let groups = split_on(input, ' ');
    let rejoined = audio_request(input).map_values(|g: Seq<Seq<char>>| join_with(g, seq!['+']));
    assert forall|k: int| 0 <= k < groups.len() implies rejoined[k] == groups[k] by {
        lemma_split_join(groups[k], '+');
    }
    assert(rejoined =~= groups);
    lemma_split_join(input, ' ');
}

/// No sound name holds a space or a `+`, and a request holds at most ten groups.
pub proof fn lemma_audio_names_are_plain(input: Seq<char>)
    ensures
        audio_request(input).len() <= MAX_AUDIO_GROUPS,
        forall|k: int, j: int|
            0 <= k < audio_request(input).len() && 0 <= j < audio_request(input)[k].len() ==> {
                &&& !(#[trigger] audio_request(input)[k][j]).contains(' ')
                &&& !audio_request(input)[k][j].contains('+')
            },
{
    let groups = split_on(input, ' ');
    lemma_split_pieces_avoid(input, ' ', ' ');
    assert forall|k: int, j: int|
        0 <= k < audio_request(input).len() && 0 <= j < audio_request(input)[k].len() implies {
            &&& !(#[trigger] audio_request(input)[k][j]).contains(' ')
            &&& !audio_request(input)[k][j].contains('+')
        } by {
        assert(audio_request(input)[k] == split_on(groups[k], '+'));
        lemma_split_pieces_avoid(groups[k], '+', ' ');
        lemma_split_pieces_avoid(groups[k], '+', '+');
    }
}

/// What a redeem does once it matched a redemption.
pub enum RedeemAction {
    /// Post `message` to the chat.
    Reply { message: String },
    /// Ask the Comet overlay to play these sounds.
    PlayAudio { data: Vec<Vec<AudioComponent>> },
}

/// The abstract form of a [`RedeemAction`].
pub enum RedeemActionView {
    Reply { message: Seq<char> },
    PlayAudio { names: Seq<Seq<Seq<char>>> },
}

impl View for RedeemAction {
    type V = RedeemActionView;

    open spec fn view(&self) -> RedeemActionView {
        match self {
            RedeemAction::Reply { message } => RedeemActionView::Reply { message: message@ },
            RedeemAction::PlayAudio { data } => RedeemActionView::PlayAudio {
                names: audio_names(data@),
            },
        }
    }
}

/// A channel point redeem of the bot.
pub trait Redeem {
    /// Whether the redeem answers the redemption.
    spec fn spec_is_match(&self, redeem: PointRedeem) -> bool;

    /// What the redeem does for the redemption.
    spec fn spec_action(&self, redeem: PointRedeem) -> RedeemActionView;

    fn is_match(&self, redeem: &PointRedeem) -> (r: bool)
        ensures
            r == self.spec_is_match(*redeem),
    ;

    fn action(&self, redeem: &PointRedeem) -> (a: RedeemAction)
        ensures
            a@ == self.spec_action(*redeem),
    ;
}

/// The "Pop" reward makes the bot say "Pop pop pop".
#[derive(Clone, Copy, Debug, PartialEq, Eq, Structural)]
pub struct Pop;

/// The "Play Audio" reward plays the sounds its input names on the overlay.
#[derive(Clone, Copy, Debug, PartialEq, Eq, Structural)]
pub struct PlayAudio;

impl Redeem for Pop {
    open spec fn spec_is_match(&self, redeem: PointRedeem) -> bool {
        redeem.reward.title@ == "Pop"@
    }

    open spec fn spec_action(&self, redeem: PointRedeem) -> RedeemActionView {
        RedeemActionView::Reply { message: "Pop pop pop"@ }
    }

    fn is_match(&self, redeem: &PointRedeem) -> (r: bool) {
        same_text(redeem.reward.title.as_str(), "Pop")
    }

    fn action(&self, redeem: &PointRedeem) -> (a: RedeemAction) {
        RedeemAction::Reply { message: String::from_str("Pop pop pop") }
    }
}

impl Redeem for PlayAudio {
    open spec fn spec_is_match(&self, redeem: PointRedeem) -> bool {
        redeem.reward.title@ == "Play Audio"@
    }

    open spec fn spec_action(&self, redeem: PointRedeem) -> RedeemActionView {
        RedeemActionView::PlayAudio { names: audio_request(redeem.user_input@) }
    }

    fn is_match(&self, redeem: &PointRedeem) -> (r: bool) {
        same_text(redeem.reward.title.as_str(), "Play Audio")
    }

    fn action(&self, redeem: &PointRedeem) -> (a: RedeemAction) {
        RedeemAction::PlayAudio { data: audio_request_data(redeem.user_input.as_str()) }
    }
}

/// What is logged after the overlay answered a `play_audio` request: nothing
/// for a success, the error line for an error. The overlay never answers it
/// with data.
pub fn play_audio_outcome(response: &Response) -> (r: Option<String>)
    requires
        !(response is Data),
    ensures
        match response {
            Response::Error { is_internal, message, .. } => r matches Some(line) && line@
                == comet_error_line("PlayAudio"@, message@, *is_internal),
            _ => r is None,
        },
{
    match response {
        Response::Error { is_internal, message, .. } => Some(
            comet_error_report("PlayAudio", message, *is_internal),
        ),
        _ => None,
    }
}

/// One of the bot's built-in redeems.
#[derive(Clone, Copy, Debug, PartialEq, Eq, Structural)]
pub enum BuiltinRedeem {
    Pop(Pop),
    PlayAudio(PlayAudio),
}

/// The redeems the bot answers with, in the order it tries them.
pub type BuiltinRedeems = Vec<BuiltinRedeem>;

impl Redeem for BuiltinRedeem {
    open spec fn spec_is_match(&self, redeem: PointRedeem) -> bool {
        match self {
            BuiltinRedeem::Pop(r) => r.spec_is_match(redeem),
            BuiltinRedeem::PlayAudio(r) => r.spec_is_match(redeem),
        }
    }

    open spec fn spec_action(&self, redeem: PointRedeem) -> RedeemActionView {
        match self {
            BuiltinRedeem::Pop(r) => r.spec_action(redeem),
            BuiltinRedeem::PlayAudio(r) => r.spec_action(redeem),
        }
    }

    fn is_match(&self, redeem: &PointRedeem) -> (r: bool) {
        match self {
            BuiltinRedeem::Pop(r) => r.is_match(redeem),
            BuiltinRedeem::PlayAudio(r) => r.is_match(redeem),
        }
    }

    fn action(&self, redeem: &PointRedeem) -> (a: RedeemAction) {
        match self {
            BuiltinRedeem::Pop(r) => r.action(redeem),
            BuiltinRedeem::PlayAudio(r) => r.action(redeem),
        }
    }
}

/// The built-in redeems: pop, then play audio.
pub open spec fn spec_builtin_redeems() -> Seq<BuiltinRedeem> {
    seq![BuiltinRedeem::Pop(Pop), BuiltinRedeem::PlayAudio(PlayAudio)]
}

/// The built-in redeems, in the order the bot tries them.
pub fn builtin_redeems() -> (r: BuiltinRedeems)
    ensures
        r@ == spec_builtin_redeems(),
{
    let builtin_redeems: BuiltinRedeems = vec![
        BuiltinRedeem::Pop(Pop),
        BuiltinRedeem::PlayAudio(PlayAudio),
    ];
    builtin_redeems
}

/// What the redeems do for a redemption: the actions of those that match it,
/// in their order.
pub open spec fn planned_redeem_actions(redeems: Seq<BuiltinRedeem>, redeem: PointRedeem) -> Seq<RedeemActionView>
    decreases redeems.len(),
{
    if redeems.len() == 0 {
        Seq::empty()
    } else {
        let earlier = planned_redeem_actions(redeems.drop_last(), redeem);
        if redeems.last().spec_is_match(redeem) {
            earlier.push(redeems.last().spec_action(redeem))
        } else {
            earlier
        }
    }
}

/// The actions of the redeems that match the redemption, in the redeems' order.
pub fn redeem_actions(redeems: &Vec<BuiltinRedeem>, redeem: &PointRedeem) -> (r: Vec<RedeemAction>)
    ensures
        r@.map_values(|a: RedeemAction| a@) == planned_redeem_actions(redeems@, *redeem),
{
    let mut out: Vec<RedeemAction> = Vec::new();
    let n = redeems.len();
    let mut i: usize = 0;
    while i < n
        invariant
            n == redeems@.len(),
            i <= n,
            out@.map_values(|a: RedeemAction| a@) == planned_redeem_actions(redeems@.take(i as int), *redeem),
        decreases n - i,
    {
        assert(redeems@.take(i + 1).drop_last() =~= redeems@.take(i as int));
        let candidate = &redeems[i];
        if candidate.is_match(redeem) {
            let ghost before = out@;
            out.push(candidate.action(redeem));
            assert(out@.map_values(|a: RedeemAction| a@) =~= before.map_values(
                |a: RedeemAction| a@,
            ).push(redeems@[i as int].spec_action(*redeem)));
        }
        i = i + 1;
    }
    assert(redeems@.take(n as int) =~= redeems@);
    out
}

} // verus!

verus! {

/// The redeems' plan grows redeem by redeem: nothing for no redeems, and a
/// redeem added at the end adds its own action exactly when it matches.
pub proof fn lemma_plan_adds_each_matching_redeem(
    redeems: Seq<BuiltinRedeem>,
    x: BuiltinRedeem,
    redeem: PointRedeem,
)
    ensures
        planned_redeem_actions(Seq::empty(), redeem) == Seq::<RedeemActionView>::empty(),
        planned_redeem_actions(redeems.push(x), redeem) == if x.spec_is_match(redeem) {
            planned_redeem_actions(redeems, redeem).push(x.spec_action(redeem))
        } else {
            planned_redeem_actions(redeems, redeem)
        },
{
    assert(redeems.push(x).drop_last() =~= redeems);
}

/// A "Play Audio" redemption makes the built-in redeems play exactly the
/// sounds its input names, and do nothing else.
pub proof fn lemma_play_audio_redemption_plays_its_sounds(redeem: PointRedeem)
    requires
        redeem.reward.title@ == seq!['P', 'l', 'a', 'y', ' ', 'A', 'u', 'd', 'i', 'o'],
    ensures
        planned_redeem_actions(spec_builtin_redeems(), redeem) == seq![
            RedeemActionView::PlayAudio { names: audio_request(redeem.user_input@) },
        ],
{
    reveal_strlit("Pop");
    reveal_strlit("Play Audio");
    assert("Play Audio"@ =~= seq!['P', 'l', 'a', 'y', ' ', 'A', 'u', 'd', 'i', 'o']);
    assert(redeem.reward.title@ != "Pop"@);
    let none = Seq::<BuiltinRedeem>::empty();
    let first = none.push(BuiltinRedeem::Pop(Pop));
    assert(first.push(BuiltinRedeem::PlayAudio(PlayAudio)) =~= spec_builtin_redeems());
    lemma_plan_adds_each_matching_redeem(none, BuiltinRedeem::Pop(Pop), redeem);
    lemma_plan_adds_each_matching_redeem(first, BuiltinRedeem::PlayAudio(PlayAudio), redeem);
    assert(planned_redeem_actions(spec_builtin_redeems(), redeem) =~= seq![
        RedeemActionView::PlayAudio { names: audio_request(redeem.user_input@) },
    ]);
}

/// A "Pop" redemption makes the built-in redeems say "Pop pop pop", and do
/// nothing else.
pub proof fn lemma_pop_redemption_pops(redeem: PointRedeem)
    requires
        redeem.reward.title@ == seq!['P', 'o', 'p'],
    ensures
        planned_redeem_actions(spec_builtin_redeems(), redeem) == seq![
            RedeemActionView::Reply {
                message: seq!['P', 'o', 'p', ' ', 'p', 'o', 'p', ' ', 'p', 'o', 'p'],
            },
        ],
{
    reveal_strlit("Pop");
    reveal_strlit("Play Audio");
    reveal_strlit("Pop pop pop");
    assert("Pop"@ =~= seq!['P', 'o', 'p']);
    assert("Pop pop pop"@ =~= seq!['P', 'o', 'p', ' ', 'p', 'o', 'p', ' ', 'p', 'o', 'p']);
    assert(redeem.reward.title@ != "Play Audio"@);
    let none = Seq::<BuiltinRedeem>::empty();
    let first = none.push(BuiltinRedeem::Pop(Pop));
    assert(first.push(BuiltinRedeem::PlayAudio(PlayAudio)) =~= spec_builtin_redeems());
    lemma_plan_adds_each_matching_redeem(none, BuiltinRedeem::Pop(Pop), redeem);
    lemma_plan_adds_each_matching_redeem(first, BuiltinRedeem::PlayAudio(PlayAudio), redeem);
    assert(planned_redeem_actions(spec_builtin_redeems(), redeem) =~= seq![
        RedeemActionView::Reply { message: "Pop pop pop"@ },
    ]);
}

} // verus!
