use eyebot::bot::redeem::{
    audio_request_data, builtin_redeems, play_audio_outcome, redeem_actions, BuiltinRedeem,
    PlayAudio, Pop, Redeem, RedeemAction,
};
use eyebot::bot::{Builtins, PointRedeem, PointRedeemReward};
use eyebot::comet::{AudioComponent, Response};
use eyebot::eventsub::UserInfo;

fn names(data: &Vec<Vec<AudioComponent>>) -> Vec<Vec<String>> {
    data.iter().map(|g| g.iter().map(|a| a.name.clone()).collect()).collect()
}

fn redeem(title: &str, input: &str) -> PointRedeem {
    let u = UserInfo { id: "1".to_string(), login: "a".to_string(), name: "A".to_string() };
    PointRedeem {
        id: "r".to_string(),
        broadcaster_user: u.clone(),
        user: u,
        user_input: input.to_string(),
        reward: PointRedeemReward {
            id: "w".to_string(),
            title: title.to_string(),
            cost: 100,
            prompt: String::new(),
        },
    }
}

#[test]
fn audio_groups_and_names() {
    assert_eq!(
        names(&audio_request_data("boom+bang clap")),
        vec![vec!["boom".to_string(), "bang".to_string()], vec!["clap".to_string()]]
    );
    assert_eq!(names(&audio_request_data("")), vec![vec![String::new()]]);
    assert_eq!(
        names(&audio_request_data(" a++")),
        vec![vec![String::new()], vec!["a".to_string(), String::new(), String::new()]]
    );
}

#[test]
fn audio_request_keeps_ten_groups() {
    let input = "a b c d e f g h i j k l";
    let data = audio_request_data(input);
    assert_eq!(data.len(), 10);
    assert_eq!(data[9][0].name, "j");
}

#[test]
fn audio_request_round_trip() {
    let input = "one+two three++four  five";
    let data = audio_request_data(input);
    let rejoined = names(&data).iter().map(|g| g.join("+")).collect::<Vec<_>>().join(" ");
    assert_eq!(rejoined, input);
    for g in names(&data) {
        for n in g {
            assert!(!n.contains(' ') && !n.contains('+'));
        }
    }
}

#[test]
fn pop_and_play_audio_match_their_titles() {
    assert!(Pop.is_match(&redeem("Pop", "")));
    assert!(!Pop.is_match(&redeem("pop", "")));
    assert!(PlayAudio.is_match(&redeem("Play Audio", "x")));
    assert!(!PlayAudio.is_match(&redeem("Play audio", "x")));
    match Pop.action(&redeem("Pop", "")) {
        RedeemAction::Reply { message } => assert_eq!(message, "Pop pop pop"),
        _ => panic!("expected a reply"),
    }
    match PlayAudio.action(&redeem("Play Audio", "x+y")) {
        RedeemAction::PlayAudio { data } => {
            assert_eq!(names(&data), vec![vec!["x".to_string(), "y".to_string()]])
        }
        _ => panic!("expected audio"),
    }
}

#[test]
fn builtin_redeems_in_order() {
    assert_eq!(builtin_redeems(), vec![BuiltinRedeem::Pop(Pop), BuiltinRedeem::PlayAudio(PlayAudio)]);
    let b = Builtins::new();
    assert_eq!(redeem_actions(&b.redeems, &redeem("Pop", "")).len(), 1);
    assert_eq!(redeem_actions(&b.redeems, &redeem("Hydrate", "")).len(), 0);
}

#[test]
fn play_audio_outcome_logs_errors_only() {
    assert_eq!(play_audio_outcome(&Response::Success { state: "s".to_string() }), None);
    assert_eq!(
        play_audio_outcome(&Response::Error {
            state: "s".to_string(),
            is_internal: false,
            message: "no such sound".to_string(),
        }),
        Some("Comet error sending PlayAudio message: no such sound ".to_string())
    );
}
