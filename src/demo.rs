use vstd::prelude::*;
use vstd::string::StringExecFns;

verus! {

/// A recent match with its champion's name.
#[derive(Debug, Clone)]
pub struct NamedGameSummary {
    pub champion_id: u32,
    pub champion_name: String,
    pub win: bool,
    pub kills: u32,
    pub deaths: u32,
    pub assists: u32,
    pub duration: u32,
}

impl NamedGameSummary {
    /// The summary has exactly these values.
    pub open spec fn is(
        &self,
        id: u32,
        name: Seq<char>,
        win: bool,
        kills: u32,
        deaths: u32,
        assists: u32,
        duration: u32,
    ) -> bool {
        &&& self.champion_id == id
        &&& self.champion_name@ == name
        &&& self.win == win
        &&& self.kills == kills
        &&& self.deaths == deaths
        &&& self.assists == assists
        &&& self.duration == duration
    }
}

/// The recent matches of demonstration mode, exactly.
pub open spec fn is_demo_games(r: Seq<NamedGameSummary>) -> bool {
    &&& r.len() == 3
    &&& r[0].is(266, "Aatrox"@, true, 12, 3, 8, 1847)
    &&& r[1].is(103, "Ahri"@, false, 6, 7, 12, 2156)
    &&& r[2].is(84, "Akali"@, true, 15, 4, 6, 1634)
}

/// The recent matches shown in demonstration mode.
pub fn get_mock_recent_games() -> (r: Vec<NamedGameSummary>)
    ensures
        is_demo_games(r@),
{
    let mut v: Vec<NamedGameSummary> = Vec::new();
    v.push(
        NamedGameSummary {
            champion_id: 266,
            champion_name: String::from_str("Aatrox"),
            win: true,
            kills: 12,
            deaths: 3,
            assists: 8,
            duration: 1847,
        },
    );
    v.push(
        NamedGameSummary {
            champion_id: 103,
            champion_name: String::from_str("Ahri"),
            win: false,
            kills: 6,
            deaths: 7,
            assists: 12,
            duration: 2156,
        },
    );
    v.push(
        NamedGameSummary {
            champion_id: 84,
            champion_name: String::from_str("Akali"),
            win: true,
            kills: 15,
            deaths: 4,
            assists: 6,
            duration: 1634,
        },
    );
    v
}

/// A champion on the mastery leaderboard.
#[derive(Debug, Clone)]
pub struct ChampionStat {
    pub id: u32,
    pub name: String,
    pub level: u32,
    pub points: u32,
}

/// The ranked standing in the solo queue. The win rate is in tenths of a percent.
#[derive(Debug, Clone)]
pub struct RankInfo {
    pub tier: String,
    pub rank: String,
    pub lp: u32,
    pub wins: u32,
    pub losses: u32,
    pub winrate_tenths: u32,
}

/// Average kills, deaths and assists per match, in tenths.
#[derive(Debug, Clone, Copy)]
pub struct KdaTenths {
    pub kills: u32,
    pub deaths: u32,
    pub assists: u32,
}

/// The performance panel of the dashboard. The win rate is in tenths of a percent.
#[derive(Debug, Clone)]
pub struct PerformanceData {
    pub average_kda: KdaTenths,
    pub win_rate_tenths: u32,
    pub total_lp_gain: i32,
    pub games_analyzed: u32,
    pub recent_form: String,
    pub playstyle_traits: Vec<String>,
}

/// The dashboard: mastery leaderboard, ranked standing and performance.
#[derive(Debug, Clone)]
pub struct DashboardStats {
    pub champions: Vec<ChampionStat>,
    pub rank: Option<RankInfo>,
    pub performance: Option<PerformanceData>,
}

impl ChampionStat {
    /// The entry has exactly these values.
    pub open spec fn is(&self, id: u32, name: Seq<char>, level: u32, points: u32) -> bool {
        &&& self.id == id
        &&& self.name@ == name
        &&& self.level == level
        &&& self.points == points
    }
}

/// The dashboard of demonstration mode, exactly.
pub open spec fn is_demo_dashboard(r: DashboardStats) -> bool {
    &&& r.champions.len() == 3
    &&& r.champions[0].is(266, "Aatrox"@, 7, 234567)
    &&& r.champions[1].is(103, "Ahri"@, 5, 87234)
    &&& r.champions[2].is(84, "Akali"@, 4, 45123)
    &&& (r.rank matches Some(k) && k.tier@ == "Gold"@ && k.rank@ == "II"@ && k.lp == 67 && k.wins
        == 23 && k.losses == 17 && k.winrate_tenths == 575)
    &&& (r.performance matches Some(p) && p.average_kda == (KdaTenths {
            kills: 82,
            deaths: 51,
            assists: 73,
        }) && p.win_rate_tenths == 575 && p.total_lp_gain == 150 && p.games_analyzed == 40
            && p.recent_form@ == "hot"@ && p.playstyle_traits.len() == 2
            && p.playstyle_traits[0]@ == "Aggressive Player"@ && p.playstyle_traits[1]@
            == "Team Player"@)
}

/// The dashboard shown in demonstration mode.
pub fn get_mock_dashboard_data() -> (r: DashboardStats)
    ensures
        is_demo_dashboard(r),
{
    let mut champions: Vec<ChampionStat> = Vec::new();
    champions.push(ChampionStat { id: 266, name: String::from_str("Aatrox"), level: 7, points: 234567 });
    champions.push(ChampionStat { id: 103, name: String::from_str("Ahri"), level: 5, points: 87234 });
    champions.push(ChampionStat { id: 84, name: String::from_str("Akali"), level: 4, points: 45123 });
    let rank = RankInfo {
        tier: String::from_str("Gold"),
        rank: String::from_str("II"),
        lp: 67,
        wins: 23,
        losses: 17,
        winrate_tenths: 575,
    };
    let mut playstyle_traits: Vec<String> = Vec::new();
    playstyle_traits.push(String::from_str("Aggressive Player"));
    playstyle_traits.push(String::from_str("Team Player"));
    let performance = PerformanceData {
        average_kda: KdaTenths { kills: 82, deaths: 51, assists: 73 },
        win_rate_tenths: 575,
        total_lp_gain: 150,
        games_analyzed: 40,
        recent_form: String::from_str("hot"),
        playstyle_traits,
    };
    DashboardStats { champions, rank: Some(rank), performance: Some(performance) }
}

/// Demonstration mode's dashboard, when demonstration mode is on (no remote call
/// is then needed); `None` when the dashboard must be fetched.
pub fn demo_dashboard(api_mode: &str, api_key: &str) -> (r: Option<DashboardStats>)
    ensures
        r is Some <==> crate::session::demo_mode(api_mode@, api_key@),
        r matches Some(d) ==> is_demo_dashboard(d),
{
    if crate::session::is_demo_mode(api_mode, api_key) {
        Some(get_mock_dashboard_data())
    } else {
        None
    }
}

/// Demonstration mode's recent matches, whatever the count asked for, when
/// demonstration mode is on; `None` when the matches must be fetched.
pub fn demo_recent_games(api_mode: &str, api_key: &str) -> (r: Option<Vec<NamedGameSummary>>)
    ensures
        r is Some <==> crate::session::demo_mode(api_mode@, api_key@),
        r matches Some(g) ==> is_demo_games(g@),
{
    if crate::session::is_demo_mode(api_mode, api_key) {
        Some(get_mock_recent_games())
    } else {
        None
    }
}

} // verus!
