use summoner_tracker::demo::{demo_dashboard, demo_recent_games, get_mock_dashboard_data, get_mock_recent_games};
use summoner_tracker::session::TrackedPlayer;
use summoner_tracker::session::is_demo_mode;

#[test]
fn demo_recent_games_values() {
    let games = get_mock_recent_games();
    assert_eq!(games.len(), 3);
    let rows: Vec<(u32, &str, bool, u32, u32, u32, u32)> = games
        .iter()
        .map(|g| (g.champion_id, g.champion_name.as_str(), g.win, g.kills, g.deaths, g.assists, g.duration))
        .collect();
    assert_eq!(
        rows,
        vec![
            (266, "Aatrox", true, 12, 3, 8, 1847),
            (103, "Ahri", false, 6, 7, 12, 2156),
            (84, "Akali", true, 15, 4, 6, 1634),
        ]
    );
}

#[test]
fn demo_dashboard_values() {
    let d = get_mock_dashboard_data();
    let champs: Vec<(u32, &str, u32, u32)> =
        d.champions.iter().map(|c| (c.id, c.name.as_str(), c.level, c.points)).collect();
    assert_eq!(champs, vec![(266, "Aatrox", 7, 234567), (103, "Ahri", 5, 87234), (84, "Akali", 4, 45123)]);
    let rank = d.rank.unwrap();
    assert_eq!((rank.tier.as_str(), rank.rank.as_str(), rank.lp, rank.wins, rank.losses, rank.winrate_tenths), ("Gold", "II", 67, 23, 17, 575));
    let p = d.performance.unwrap();
    assert_eq!((p.average_kda.kills, p.average_kda.deaths, p.average_kda.assists), (82, 51, 73));
    assert_eq!((p.win_rate_tenths, p.total_lp_gain, p.games_analyzed), (575, 150, 40));
    assert_eq!(p.recent_form, "hot");
    assert_eq!(p.playstyle_traits, vec![String::from("Aggressive Player"), String::from("Team Player")]);
}

#[test]
fn unset_credential_means_demo_data() {
    // With no credential configured every dashboard operation takes the demo path.
    assert!(is_demo_mode("", ""));
    assert!(is_demo_mode("real", ""));
    let a = get_mock_dashboard_data();
    let b = get_mock_dashboard_data();
    assert_eq!(a.champions.len(), b.champions.len());
    assert_eq!(a.champions[0].points, b.champions[0].points);
    assert_eq!(get_mock_recent_games().len(), 3);
}

#[test]
fn demo_plans_follow_the_mode() {
    let d = demo_dashboard("", "").unwrap();
    assert_eq!(d.champions[0].name, "Aatrox");
    assert_eq!(demo_recent_games("mock", "RGAPI-1").unwrap().len(), 3);
    assert!(demo_dashboard("real", "RGAPI-1").is_none());
    assert!(demo_recent_games("real", "RGAPI-1").is_none());
}

#[test]
fn demo_player_gets_the_stand_in_id() {
    let mut t = TrackedPlayer::default();
    t.set_demo_player("Faker", "KR1", String::from("kr"));
    assert_eq!(t.name.as_deref(), Some("Faker#KR1"));
    assert_eq!(t.region.as_deref(), Some("kr"));
    assert_eq!(t.puuid.as_deref(), Some("mock_puuid_12345"));
}
