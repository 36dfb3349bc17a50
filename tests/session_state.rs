use summoner_tracker::session::{
    is_credential_missing, is_demo_mode, join_riot_id, mock_puuid_value, parse_riot_id, same_text,
    TrackedPlayer,
};

#[test]
fn new_session_is_empty() {
    let t = TrackedPlayer::default();
    assert!(t.name.is_none() && t.region.is_none() && t.puuid.is_none());
    assert!(!t.in_game);
    assert!(t.poll_target().is_none());
}

#[test]
fn set_player_replaces_everything_but_the_game_flag() {
    let mut t = TrackedPlayer::default();
    t.in_game = true;
    t.set_player("Hide on bush", "KR1", String::from("kr"), String::from("puuid-1"));
    assert_eq!(t.name.as_deref(), Some("Hide on bush#KR1"));
    assert_eq!(t.region.as_deref(), Some("kr"));
    assert_eq!(t.puuid.as_deref(), Some("puuid-1"));
    assert!(t.in_game);
    assert_eq!(t.poll_target(), Some((String::from("puuid-1"), String::from("kr"))));
    t.set_player("Other", "EUW", String::from("euw1"), String::from("puuid-2"));
    assert_eq!(t.name.as_deref(), Some("Other#EUW"));
    assert_eq!(t.poll_target(), Some((String::from("puuid-2"), String::from("euw1"))));
}

#[test]
fn poll_target_needs_both_fields() {
    let mut t = TrackedPlayer::default();
    t.puuid = Some(String::from("p"));
    assert!(t.poll_target().is_none());
    t.puuid = None;
    t.region = Some(String::from("na1"));
    assert!(t.poll_target().is_none());
}

#[test]
fn riot_id_parsing() {
    assert_eq!(parse_riot_id("Faker#KR1"), Some((String::from("Faker"), String::from("KR1"))));
    assert_eq!(parse_riot_id("a#b#c"), Some((String::from("a"), String::from("b#c"))));
    assert_eq!(parse_riot_id("#x"), Some((String::new(), String::from("x"))));
    assert_eq!(parse_riot_id("x#"), Some((String::from("x"), String::new())));
    assert_eq!(parse_riot_id("NoTag"), None);
    assert_eq!(parse_riot_id(""), None);
    assert_eq!(join_riot_id("Faker", "KR1"), "Faker#KR1");
}

#[test]
fn demo_mode_switch() {
    assert!(is_demo_mode("", ""));
    assert!(is_demo_mode("real", "DEMO_KEY"));
    assert!(is_demo_mode("mock", "RGAPI-123"));
    assert!(!is_demo_mode("real", "RGAPI-123"));
    assert!(!is_demo_mode("", "RGAPI-123"));
    assert!(!is_demo_mode("MOCK", "RGAPI-123"));
    assert!(is_credential_missing(""));
    assert!(is_credential_missing("DEMO_KEY"));
    assert!(!is_credential_missing("DEMO_KEY2"));
    assert!(same_text("abc", "abc"));
    assert!(!same_text("abc", "abd"));
    assert_eq!(mock_puuid_value(), "mock_puuid_12345");
}
