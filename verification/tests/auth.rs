use eyebot::auth::{Auth, RefreshResponse, TokenCheck};

fn auth() -> Auth {
    Auth::new("re fresh/1".to_string(), "acc".to_string(), "client~id".to_string(), "s\u{e9}cret".to_string())
}

#[test]
fn client_id_is_the_one_given() {
    assert_eq!(auth().get_client_id(), "client~id");
    assert_eq!(auth().access_token(), "acc");
}

#[test]
fn validation_header_carries_access_token() {
    assert_eq!(auth().validation_header(), "OAuth acc");
}

#[test]
fn token_check_by_status() {
    assert_eq!(Auth::token_check(200), TokenCheck::Valid);
    assert_eq!(Auth::token_check(302), TokenCheck::Valid);
    assert_eq!(Auth::token_check(401), TokenCheck::Refresh);
    assert_eq!(Auth::token_check(400), TokenCheck::Failed);
    assert_eq!(Auth::token_check(403), TokenCheck::Failed);
    assert_eq!(Auth::token_check(599), TokenCheck::Failed);
    assert_eq!(Auth::token_check(600), TokenCheck::Valid);
}

#[test]
fn refresh_query_is_percent_encoded() {
    let q = auth().refresh_query();
    let pairs: Vec<(&str, &str)> = q.iter().map(|(k, v)| (k.as_str(), v.as_str())).collect();
    assert_eq!(
        pairs,
        vec![
            ("grant_type", "refresh_token"),
            ("refresh_token", "re%20fresh%2F1"),
            ("client_id", "client~id"),
            ("client_secret", "s%C3%A9cret"),
        ]
    );
}

#[test]
fn refresh_replaces_tokens_only() {
    let mut a = auth();
    a.apply_refresh(RefreshResponse { access_token: "new-acc".to_string(), refresh_token: "new-re".to_string() });
    assert_eq!(a.access_token(), "new-acc");
    assert_eq!(a.get_client_id(), "client~id");
    let q = a.refresh_query();
    assert_eq!(q[1].1, "new-re");
    assert_eq!(q[3].1, "s%C3%A9cret");
}

#[test]
fn encoded_values_are_plain() {
    let a = Auth::new("a&b=c \u{1F95A}".to_string(), String::new(), "x y".to_string(), "%".to_string());
    for (_, v) in a.refresh_query().iter().skip(1) {
        assert!(v.chars().all(|c| c.is_ascii_alphanumeric() || "-._~%".contains(c)));
    }
    assert_eq!(a.refresh_query()[1].1, "a%26b%3Dc%20%F0%9F%A5%9A");
    assert_eq!(a.refresh_query()[3].1, "%25");
}
