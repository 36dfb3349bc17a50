use summoner_tracker::analytics::{
    basic_traits, enhanced_traits, performance_summary, MatchLine, MatchSummary, PlaystyleTrait,
    RecentForm,
};

fn game(win: bool, kills: u32, deaths: u32, assists: u32) -> MatchSummary {
    MatchSummary { champion_id: 1, win, kills, deaths, assists, duration: 1800 }
}

fn line(kills: i32, deaths: i32, assists: i32, vision: i32, win: bool, duration_secs: i64) -> MatchLine {
    MatchLine {
        kills,
        deaths,
        assists,
        vision_score: vision,
        damage_to_champions: 20000,
        gold_earned: 12000,
        creep_score: 350,
        penta_kills: 0,
        win,
        duration_secs,
    }
}

#[test]
fn empty_history_summary() {
    let s = performance_summary(&vec![]);
    assert_eq!(s.games_analyzed, 0);
    assert_eq!(s.wins, 0);
    assert_eq!(s.recent_form, RecentForm::Neutral);
    assert!(s.traits.is_empty());
    assert_eq!(s.lp_gain, 0);
}

#[test]
fn summary_totals_and_form() {
    let games = vec![
        game(true, 10, 2, 10),
        game(true, 9, 2, 8),
        game(true, 12, 1, 6),
        game(true, 8, 3, 9),
        game(false, 11, 4, 7),
        game(false, 3, 9, 2),
        game(false, 1, 8, 3),
    ];
    let s = performance_summary(&games);
    assert_eq!(s.games_analyzed, 7);
    assert_eq!(s.total_kills, 54);
    assert_eq!(s.total_deaths, 29);
    assert_eq!(s.total_assists, 45);
    assert_eq!(s.wins, 4);
    assert_eq!(s.recent_form, RecentForm::Hot);
    assert_eq!(s.lp_gain, 4 * 18 - 3 * 15);
    // 54/7 kills is not above 8, 29/7 deaths not under 3, 45/7 assists not above 12,
    // (54 + 45)/7 is not above 15.
    assert!(s.traits.is_empty());
}

#[test]
fn summary_traits() {
    let games = vec![game(false, 10, 2, 13), game(false, 9, 2, 14)];
    let s = performance_summary(&games);
    assert_eq!(s.recent_form, RecentForm::Cold);
    assert_eq!(
        s.traits,
        vec![
            PlaystyleTrait::AggressivePlayer,
            PlaystyleTrait::SafePlayer,
            PlaystyleTrait::TeamPlayer,
            PlaystyleTrait::HighImpact,
        ]
    );
    assert_eq!(s.lp_gain, -30);
    let neutral = performance_summary(&vec![game(true, 1, 1, 1), game(true, 1, 1, 1), game(false, 1, 1, 1)]);
    assert_eq!(neutral.recent_form, RecentForm::Neutral);
}

#[test]
fn basic_trait_rules() {
    assert!(basic_traits(&vec![]).is_empty());
    let mut lines = vec![line(5, 5, 5, 10, true, 1500), line(5, 5, 5, 29, true, 1500)];
    assert_eq!(basic_traits(&lines), vec![PlaystyleTrait::BadVision]);
    lines[0].vision_score = 11;
    assert!(basic_traits(&lines).is_empty());
    lines[1].penta_kills = 1;
    assert_eq!(basic_traits(&lines), vec![PlaystyleTrait::ClutchFinisher]);
}

#[test]
fn enhanced_trait_rules() {
    assert!(enhanced_traits(&vec![]).is_empty());
    let carry = vec![line(12, 2, 3, 40, true, 2000), line(10, 3, 4, 36, true, 1900)];
    assert_eq!(
        enhanced_traits(&carry),
        vec![
            PlaystyleTrait::AggressivePlaymaker,
            PlaystyleTrait::PositioningExpert,
            PlaystyleTrait::VisionControlMaster,
            PlaystyleTrait::ConsistentWinner,
            PlaystyleTrait::LateGameSpecialist,
            PlaystyleTrait::ClutchPerformer,
            PlaystyleTrait::SoloCarryPotential,
        ]
    );
    let support = vec![line(1, 8, 14, 10, false, 1500), line(2, 9, 13, 12, false, 1500)];
    assert_eq!(
        enhanced_traits(&support),
        vec![
            PlaystyleTrait::RiskTaker,
            PlaystyleTrait::TeamFightSpecialist,
            PlaystyleTrait::NeedsVisionImprovement,
            PlaystyleTrait::NeedsStrategicFocus,
            PlaystyleTrait::SupportMinded,
        ]
    );
}

#[test]
fn enhanced_trait_thresholds_are_strict() {
    // Averages exactly on a threshold do not count: 7 kills, 3.5 deaths, 8 assists,
    // 15 vision, 300 creep score, a 50% win rate.
    let mut a = line(7, 3, 8, 15, true, 1800);
    a.creep_score = 300;
    let mut b = line(7, 4, 8, 15, false, 1800);
    b.creep_score = 300;
    let traits = enhanced_traits(&vec![a, b]);
    assert_eq!(traits, vec![PlaystyleTrait::HighImpactPlayer, PlaystyleTrait::ClutchPerformer]);
    let mut farm = line(0, 0, 0, 20, true, 1000);
    farm.creep_score = 421;
    farm.damage_to_champions = 25001;
    farm.gold_earned = 14001;
    assert_eq!(
        enhanced_traits(&vec![farm]),
        vec![
            PlaystyleTrait::PositioningExpert,
            PlaystyleTrait::FarmingMachine,
            PlaystyleTrait::DamageDealer,
            PlaystyleTrait::GoldEfficient,
            PlaystyleTrait::ConsistentWinner,
        ]
    );
}
