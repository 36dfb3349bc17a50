use vstd::prelude::*;

verus! {

/// A label for a player's style, derived from recent matches.
#[derive(Debug, Clone, Copy, PartialEq, Eq, Structural)]
pub enum PlaystyleTrait {
    AggressivePlayer,
    SafePlayer,
    TeamPlayer,
    HighImpact,
    BadVision,
    ClutchFinisher,
    AggressivePlaymaker,
    HighImpactPlayer,
    PositioningExpert,
    RiskTaker,
    TeamFightSpecialist,
    VisionControlMaster,
    NeedsVisionImprovement,
    FarmingMachine,
    FocusOnCs,
    DamageDealer,
    GoldEfficient,
    ConsistentWinner,
    NeedsStrategicFocus,
    LateGameSpecialist,
    ClutchPerformer,
    SoloCarryPotential,
    SupportMinded,
}

/// `seq![t]` when `b` holds, else nothing.
pub open spec fn when(b: bool, t: PlaystyleTrait) -> Seq<PlaystyleTrait> {
    if b {
        seq![t]
    } else {
        seq![]
    }
}

/// One recent match of the tracked player, as the dashboard summarises it.
#[derive(Debug, Clone, Copy)]
pub struct MatchSummary {
    pub champion_id: u32,
    pub win: bool,
    pub kills: u32,
    pub deaths: u32,
    pub assists: u32,
    pub duration: u32,
}

/// A figure of a match summary that the performance summary adds up.
pub enum SummaryStat {
    Kills,
    Deaths,
    Assists,
    Wins,
}

pub open spec fn summary_stat(g: MatchSummary, s: SummaryStat) -> nat {
    match s {
        SummaryStat::Kills => g.kills as nat,
        SummaryStat::Deaths => g.deaths as nat,
        SummaryStat::Assists => g.assists as nat,
        SummaryStat::Wins => if g.win {
            1
        } else {
            0
        },
    }
}

/// The sum of one figure over the matches.
pub open spec fn summary_total(games: Seq<MatchSummary>, s: SummaryStat) -> nat
    decreases games.len(),
{
    if games.len() == 0 {
        0
    } else {
        summary_total(games.drop_last(), s) + summary_stat(games.last(), s)
    }
}

/// How the last five matches went.
#[derive(Debug, Clone, Copy, PartialEq, Eq, Structural)]
pub enum RecentForm {
    Hot,
    Neutral,
    Cold,
}

/// The form after this many wins in the last five matches.
pub open spec fn form_of(recent_wins: nat) -> RecentForm {
    if recent_wins >= 4 {
        RecentForm::Hot
    } else if recent_wins <= 1 {
        RecentForm::Cold
    } else {
        RecentForm::Neutral
    }
}

/// The performance summary of recent matches, in whole numbers; averages are the
/// totals divided by `games_analyzed`.
#[derive(Debug, Clone)]
pub struct PerformanceSummary {
    pub games_analyzed: u64,
    pub total_kills: u128,
    pub total_deaths: u128,
    pub total_assists: u128,
    pub wins: u64,
    pub recent_form: RecentForm,
    pub traits: Vec<PlaystyleTrait>,
    /// An estimate: 18 points gained per win, 15 lost per loss.
    pub lp_gain: i128,
}

/// The playstyle labels of the performance summary, with the averages compared exactly.
pub open spec fn performance_traits(n: nat, kills: nat, deaths: nat, assists: nat) -> Seq<
    PlaystyleTrait,
> {
    when(kills > 8 * n, PlaystyleTrait::AggressivePlayer) + when(
        deaths < 3 * n,
        PlaystyleTrait::SafePlayer,
    ) + when(assists > 12 * n, PlaystyleTrait::TeamPlayer) + when(
        kills + assists > 15 * n,
        PlaystyleTrait::HighImpact,
    )
}

/// Summarises recent matches, newest first: totals, wins, the form of the first
/// five (neutral when there is no match), playstyle labels (none when there is no
/// match) and an estimate of ranked points won.
pub fn performance_summary(games: &Vec<MatchSummary>) -> (r: PerformanceSummary)
    ensures
        r.games_analyzed == games.len(),
        r.total_kills == summary_total(games@, SummaryStat::Kills),
        r.total_deaths == summary_total(games@, SummaryStat::Deaths),
        r.total_assists == summary_total(games@, SummaryStat::Assists),
        r.wins == summary_total(games@, SummaryStat::Wins),
        games.len() == 0 ==> r.recent_form == RecentForm::Neutral,
        games.len() > 0 ==> r.recent_form == form_of(
            summary_total(games@.take(vstd::math::min(5, games.len() as int)), SummaryStat::Wins),
        ),
        games.len() == 0 ==> r.traits@.len() == 0,
        games.len() > 0 ==> r.traits@ == performance_traits(
            games.len() as nat,
            r.total_kills as nat,
            r.total_deaths as nat,
            r.total_assists as nat,
        ),
        r.lp_gain == 18 * r.wins - 15 * (games.len() - r.wins),
{
    let n = games.len();
    let mut kills: u128 = 0;
    let mut deaths: u128 = 0;
    let mut assists: u128 = 0;
    let mut wins: u64 = 0;
    let mut recent_wins: u64 = 0;
    let mut i: usize = 0;
    while i < n
        invariant
            n == games.len(),
            i <= n,
            kills == summary_total(games@.take(i as int), SummaryStat::Kills),
            deaths == summary_total(games@.take(i as int), SummaryStat::Deaths),
            assists == summary_total(games@.take(i as int), SummaryStat::Assists),
            wins == summary_total(games@.take(i as int), SummaryStat::Wins),
            recent_wins == summary_total(
                games@.take(vstd::math::min(5, i as int)),
                SummaryStat::Wins,
            ),
            kills <= i * (u32::MAX as nat),
            deaths <= i * (u32::MAX as nat),
            assists <= i * (u32::MAX as nat),
            wins <= i,
            recent_wins <= 5,
        decreases n - i,
    {
        let g = games[i];
        let ghost t = games@.take(i + 1);
        assert(t.drop_last() =~= games@.take(i as int));
        assert(t.last() == g);
        assert(i * (u32::MAX as nat) + u32::MAX as nat <= (i + 1) * (u32::MAX as nat))
            by (nonlinear_arith);
        assert((i + 1) * (u32::MAX as nat) <= usize::MAX as nat * (u32::MAX as nat))
            by (nonlinear_arith)
            requires
                i + 1 <= usize::MAX,
        ;
        kills = kills + g.kills as u128;
        deaths = deaths + g.deaths as u128;
        assists = assists + g.assists as u128;
        if g.win {
            wins = wins + 1;
        }
        if i < 5 {
            if g.win {
                recent_wins = recent_wins + 1;
            }
        } else {
            assert(games@.take(vstd::math::min(5, i + 1)) =~= games@.take(vstd::math::min(5, i as int)));
        }
        i = i + 1;
    }
    assert(games@.take(n as int) =~= games@);
    let recent_form = if n == 0 {
        RecentForm::Neutral
    } else if recent_wins >= 4 {
        RecentForm::Hot
    } else if recent_wins <= 1 {
        RecentForm::Cold
    } else {
        RecentForm::Neutral
    };
    let mut traits: Vec<PlaystyleTrait> = Vec::new();
    if n > 0 {
        let m = n as u128;
        if kills > 8 * m {
            traits.push(PlaystyleTrait::AggressivePlayer);
        }
        if deaths < 3 * m {
            traits.push(PlaystyleTrait::SafePlayer);
        }
        if assists > 12 * m {
            traits.push(PlaystyleTrait::TeamPlayer);
        }
        if kills + assists > 15 * m {
            traits.push(PlaystyleTrait::HighImpact);
        }
        assert(traits@ =~= performance_traits(n as nat, kills as nat, deaths as nat, assists as nat));
    }
    let lp_gain: i128 = 18 * (wins as i128) - 15 * ((n as u64 - wins) as i128);
    PerformanceSummary {
        games_analyzed: n as u64,
        total_kills: kills,
        total_deaths: deaths,
        total_assists: assists,
        wins,
        recent_form,
        traits,
        lp_gain,
    }
}

/// The tracked player's figures in one match, as the trait rules read them.
#[derive(Debug, Clone, Copy)]
pub struct MatchLine {
    pub kills: i32,
    pub deaths: i32,
    pub assists: i32,
    pub vision_score: i32,
    pub damage_to_champions: i32,
    pub gold_earned: i32,
    /// Lane minions and neutral monsters killed.
    pub creep_score: i32,
    pub penta_kills: i32,
    pub win: bool,
    pub duration_secs: i64,
}

/// A figure of a match line that the trait rules add up.
pub enum LineStat {
    Kills,
    Deaths,
    Assists,
    Vision,
    Damage,
    Gold,
    CreepScore,
    Wins,
    LongGames,
    PentaGames,
}

pub open spec fn line_stat(m: MatchLine, s: LineStat) -> int {
    match s {
        LineStat::Kills => m.kills as int,
        LineStat::Deaths => m.deaths as int,
        LineStat::Assists => m.assists as int,
        LineStat::Vision => m.vision_score as int,
        LineStat::Damage => m.damage_to_champions as int,
        LineStat::Gold => m.gold_earned as int,
        LineStat::CreepScore => m.creep_score as int,
        LineStat::Wins => if m.win {
            1
        } else {
            0
        },
        LineStat::LongGames => if m.duration_secs > 1800 {
            1
        } else {
            0
        },
        LineStat::PentaGames => if m.penta_kills > 0 {
            1
        } else {
            0
        },
    }
}

/// The sum of one figure over the matches.
pub open spec fn line_total(lines: Seq<MatchLine>, s: LineStat) -> int
    decreases lines.len(),
{
    if lines.len() == 0 {
        0
    } else {
        line_total(lines.drop_last(), s) + line_stat(lines.last(), s)
    }
}

/// The labels of the short trait check: poor vision when the average vision score
/// is under 20, and a finisher when any match had a pentakill.
pub open spec fn basic_traits_of(lines: Seq<MatchLine>) -> Seq<PlaystyleTrait> {
    if lines.len() == 0 {
        seq![]
    } else {
        when(line_total(lines, LineStat::Vision) < 20 * lines.len(), PlaystyleTrait::BadVision)
            + when(line_total(lines, LineStat::PentaGames) > 0, PlaystyleTrait::ClutchFinisher)
    }
}

/// `seq![t1]` when `b1` holds, else `seq![t2]` when `b2` holds, else nothing.
#[verifier::opaque]
pub open spec fn either(b1: bool, t1: PlaystyleTrait, b2: bool, t2: PlaystyleTrait) -> Seq<
    PlaystyleTrait,
> {
    if b1 {
        seq![t1]
    } else {
        when(b2, t2)
    }
}

/// The labels of the full trait analysis from the totals over `n` matches, with
/// every average compared exactly (`k`, `d`, `a`: kills, deaths, assists; `v`:
/// vision; `cs`: creep score; `dmg`: damage to champions; `w`: wins; `long`:
/// matches over 30 minutes).
pub open spec fn traits_from_totals(
    n: int,
    k: int,
    d: int,
    a: int,
    v: int,
    cs: int,
    dmg: int,
    gold: int,
    w: int,
    long: int,
) -> Seq<PlaystyleTrait> {
    let worst = if d > n {
        d
    } else {
        n
    };
    if n == 0 {
        seq![]
    } else {
        either(
            k > 8 * n && d < 6 * n,
            PlaystyleTrait::AggressivePlaymaker,
            k > 6 * n,
            PlaystyleTrait::HighImpactPlayer,
        ) + either(2 * d < 7 * n, PlaystyleTrait::PositioningExpert, d > 7 * n, PlaystyleTrait::RiskTaker)
            + either(a > 12 * n, PlaystyleTrait::TeamFightSpecialist, a > 8 * n, PlaystyleTrait::TeamPlayer)
            + either(
            v > 35 * n,
            PlaystyleTrait::VisionControlMaster,
            v < 15 * n,
            PlaystyleTrait::NeedsVisionImprovement,
        ) + either(cs > 420 * n, PlaystyleTrait::FarmingMachine, cs < 300 * n, PlaystyleTrait::FocusOnCs)
            + when(dmg > 25000 * n, PlaystyleTrait::DamageDealer)
            + when(gold > 14000 * n, PlaystyleTrait::GoldEfficient)
            + either(
            100 * w > 65 * n,
            PlaystyleTrait::ConsistentWinner,
            100 * w < 45 * n,
            PlaystyleTrait::NeedsStrategicFocus,
        ) + when(long > n / 2, PlaystyleTrait::LateGameSpecialist)
            + when(k + a > 3 * worst, PlaystyleTrait::ClutchPerformer) + either(
            k > a && k > 6 * n,
            PlaystyleTrait::SoloCarryPotential,
            a > 2 * k,
            PlaystyleTrait::SupportMinded,
        )
    }
}

/// The labels of the full trait analysis of the matches.
pub open spec fn enhanced_traits_of(lines: Seq<MatchLine>) -> Seq<PlaystyleTrait> {
    traits_from_totals(
        lines.len() as int,
        line_total(lines, LineStat::Kills),
        line_total(lines, LineStat::Deaths),
        line_total(lines, LineStat::Assists),
        line_total(lines, LineStat::Vision),
        line_total(lines, LineStat::CreepScore),
        line_total(lines, LineStat::Damage),
        line_total(lines, LineStat::Gold),
        line_total(lines, LineStat::Wins),
        line_total(lines, LineStat::LongGames),
    )
}

/// Running sums of every figure over the first matches.
struct LineTotals {
    kills: i128,
    deaths: i128,
    assists: i128,
    vision: i128,
    damage: i128,
    gold: i128,
    creep_score: i128,
    wins: i128,
    long_games: i128,
    penta_games: i128,
}

/// Adds up every figure over the matches.
fn line_totals(lines: &Vec<MatchLine>) -> (r: LineTotals)
    ensures
        r.kills == line_total(lines@, LineStat::Kills),
        r.deaths == line_total(lines@, LineStat::Deaths),
        r.assists == line_total(lines@, LineStat::Assists),
        r.vision == line_total(lines@, LineStat::Vision),
        r.damage == line_total(lines@, LineStat::Damage),
        r.gold == line_total(lines@, LineStat::Gold),
        r.creep_score == line_total(lines@, LineStat::CreepScore),
        r.wins == line_total(lines@, LineStat::Wins),
        r.long_games == line_total(lines@, LineStat::LongGames),
        r.penta_games == line_total(lines@, LineStat::PentaGames),
        -(lines.len() * 0x8000_0000) <= r.kills <= lines.len() * 0x8000_0000,
        -(lines.len() * 0x8000_0000) <= r.deaths <= lines.len() * 0x8000_0000,
        -(lines.len() * 0x8000_0000) <= r.assists <= lines.len() * 0x8000_0000,
        -(lines.len() * 0x8000_0000) <= r.vision <= lines.len() * 0x8000_0000,
        -(lines.len() * 0x8000_0000) <= r.damage <= lines.len() * 0x8000_0000,
        -(lines.len() * 0x8000_0000) <= r.gold <= lines.len() * 0x8000_0000,
        -(lines.len() * 0x8000_0000) <= r.creep_score <= lines.len() * 0x8000_0000,
        0 <= r.wins <= lines.len(),
        0 <= r.long_games <= lines.len(),
        0 <= r.penta_games <= lines.len(),
{
    let n = lines.len();
    let mut t = LineTotals {
        kills: 0,
        deaths: 0,
        assists: 0,
        vision: 0,
        damage: 0,
        gold: 0,
        creep_score: 0,
        wins: 0,
        long_games: 0,
        penta_games: 0,
    };
    let mut i: usize = 0;
    while i < n
        invariant
            n == lines.len(),
            i <= n,
            t.kills == line_total(lines@.take(i as int), LineStat::Kills),
            t.deaths == line_total(lines@.take(i as int), LineStat::Deaths),
            t.assists == line_total(lines@.take(i as int), LineStat::Assists),
            t.vision == line_total(lines@.take(i as int), LineStat::Vision),
            t.damage == line_total(lines@.take(i as int), LineStat::Damage),
            t.gold == line_total(lines@.take(i as int), LineStat::Gold),
            t.creep_score == line_total(lines@.take(i as int), LineStat::CreepScore),
            t.wins == line_total(lines@.take(i as int), LineStat::Wins),
            t.long_games == line_total(lines@.take(i as int), LineStat::LongGames),
            t.penta_games == line_total(lines@.take(i as int), LineStat::PentaGames),
            -(i * 0x8000_0000) <= t.kills <= i * 0x8000_0000,
            -(i * 0x8000_0000) <= t.deaths <= i * 0x8000_0000,
            -(i * 0x8000_0000) <= t.assists <= i * 0x8000_0000,
            -(i * 0x8000_0000) <= t.vision <= i * 0x8000_0000,
            -(i * 0x8000_0000) <= t.damage <= i * 0x8000_0000,
            -(i * 0x8000_0000) <= t.gold <= i * 0x8000_0000,
            -(i * 0x8000_0000) <= t.creep_score <= i * 0x8000_0000,
            0 <= t.wins <= i,
            0 <= t.long_games <= i,
            0 <= t.penta_games <= i,
        decreases n - i,
    {
        let m = lines[i];
        let ghost s = lines@.take(i + 1);
        assert(s.drop_last() =~= lines@.take(i as int));
        assert(s.last() == m);
        assert((i + 1) * 0x8000_0000 == i * 0x8000_0000 + 0x8000_0000) by (nonlinear_arith);
        assert((i + 1) * 0x8000_0000 <= 0x1_0000_0000_0000_0000 * 0x8000_0000) by (nonlinear_arith)
            requires
                i + 1 <= usize::MAX,
        ;
        t.kills = t.kills + m.kills as i128;
        t.deaths = t.deaths + m.deaths as i128;
        t.assists = t.assists + m.assists as i128;
        t.vision = t.vision + m.vision_score as i128;
        t.damage = t.damage + m.damage_to_champions as i128;
        t.gold = t.gold + m.gold_earned as i128;
        t.creep_score = t.creep_score + m.creep_score as i128;
        if m.win {
            t.wins = t.wins + 1;
        }
        if m.duration_secs > 1800 {
            t.long_games = t.long_games + 1;
        }
        if m.penta_kills > 0 {
            t.penta_games = t.penta_games + 1;
        }
        i = i + 1;
    }
    assert(lines@.take(n as int) =~= lines@);
    t
}

/// The short trait check of a player's recent matches: poor vision, and whether
/// any match had a pentakill.
pub fn basic_traits(lines: &Vec<MatchLine>) -> (r: Vec<PlaystyleTrait>)
    ensures
        r@ == basic_traits_of(lines@),
{
    let mut out: Vec<PlaystyleTrait> = Vec::new();
    let n = lines.len();
    if n == 0 {
        assert(out@ =~= basic_traits_of(lines@));
        return out;
    }
    let t = line_totals(lines);
    let m = n as i128;
    if t.vision < 20 * m {
        out.push(PlaystyleTrait::BadVision);
    }
    if t.penta_games > 0 {
        out.push(PlaystyleTrait::ClutchFinisher);
    }
    assert(out@ =~= basic_traits_of(lines@));
    out
}

proof fn lemma_either_alone(b: bool, t: PlaystyleTrait)
    ensures
        either(b, t, false, t) == when(b, t),
{
    reveal(either);
}

/// Appends `t1` when `b1` holds, else `t2` when `b2` holds.
fn push_either(out: &mut Vec<PlaystyleTrait>, b1: bool, t1: PlaystyleTrait, b2: bool, t2: PlaystyleTrait)
    ensures
        final(out)@ == old(out)@ + either(b1, t1, b2, t2),
{
    reveal(either);
    if b1 {
        out.push(t1);
    } else if b2 {
        out.push(t2);
    }
    assert(out@ =~= old(out)@ + either(b1, t1, b2, t2));
}

/// The labels of the full trait analysis, from the totals.
#[verifier::rlimit(40)]
fn traits_for_totals(n: i128, t: &LineTotals) -> (r: Vec<PlaystyleTrait>)
    requires
        1 <= n <= usize::MAX,
        -(n * 0x8000_0000) <= t.kills <= n * 0x8000_0000,
        -(n * 0x8000_0000) <= t.deaths <= n * 0x8000_0000,
        -(n * 0x8000_0000) <= t.assists <= n * 0x8000_0000,
        -(n * 0x8000_0000) <= t.vision <= n * 0x8000_0000,
        -(n * 0x8000_0000) <= t.damage <= n * 0x8000_0000,
        -(n * 0x8000_0000) <= t.gold <= n * 0x8000_0000,
        -(n * 0x8000_0000) <= t.creep_score <= n * 0x8000_0000,
        0 <= t.wins <= n,
        0 <= t.long_games <= n,
    ensures
        r@ == traits_from_totals(
            n as int,
            t.kills as int,
            t.deaths as int,
            t.assists as int,
            t.vision as int,
            t.creep_score as int,
            t.damage as int,
            t.gold as int,
            t.wins as int,
            t.long_games as int,
        ),
{
    let m = n;
    let mut out: Vec<PlaystyleTrait> = Vec::new();
    push_either(&mut out, t.kills > 8 * m && t.deaths < 6 * m, PlaystyleTrait::AggressivePlaymaker,
        t.kills > 6 * m, PlaystyleTrait::HighImpactPlayer);
    assert(out@ =~= either(t.kills > 8 * m && t.deaths < 6 * m, PlaystyleTrait::AggressivePlaymaker,
        t.kills > 6 * m, PlaystyleTrait::HighImpactPlayer));
    push_either(&mut out, 2 * t.deaths < 7 * m, PlaystyleTrait::PositioningExpert, t.deaths > 7 * m,
        PlaystyleTrait::RiskTaker);
    push_either(&mut out, t.assists > 12 * m, PlaystyleTrait::TeamFightSpecialist, t.assists > 8 * m,
        PlaystyleTrait::TeamPlayer);
    push_either(&mut out, t.vision > 35 * m, PlaystyleTrait::VisionControlMaster, t.vision < 15 * m,
        PlaystyleTrait::NeedsVisionImprovement);
    push_either(&mut out, t.creep_score > 420 * m, PlaystyleTrait::FarmingMachine, t.creep_score < 300
        * m, PlaystyleTrait::FocusOnCs);
    push_either(&mut out, t.damage > 25000 * m, PlaystyleTrait::DamageDealer, false,
        PlaystyleTrait::DamageDealer);
    push_either(&mut out, t.gold > 14000 * m, PlaystyleTrait::GoldEfficient, false,
        PlaystyleTrait::GoldEfficient);
    push_either(&mut out, 100 * t.wins > 65 * m, PlaystyleTrait::ConsistentWinner, 100 * t.wins < 45
        * m, PlaystyleTrait::NeedsStrategicFocus);
    push_either(&mut out, t.long_games > m / 2, PlaystyleTrait::LateGameSpecialist, false,
        PlaystyleTrait::LateGameSpecialist);
    let worst = if t.deaths > m {
        t.deaths
    } else {
        m
    };
    push_either(&mut out, t.kills + t.assists > 3 * worst, PlaystyleTrait::ClutchPerformer, false,
        PlaystyleTrait::ClutchPerformer);
    push_either(&mut out, t.kills > t.assists && t.kills > 6 * m, PlaystyleTrait::SoloCarryPotential,
        t.assists > 2 * t.kills, PlaystyleTrait::SupportMinded);
    proof {
        lemma_either_alone(t.damage > 25000 * m, PlaystyleTrait::DamageDealer);
        lemma_either_alone(t.gold > 14000 * m, PlaystyleTrait::GoldEfficient);
        lemma_either_alone(t.long_games > m / 2, PlaystyleTrait::LateGameSpecialist);
        lemma_either_alone(t.kills + t.assists > 3 * worst, PlaystyleTrait::ClutchPerformer);
    }
    out
}

/// The full trait analysis of a player's recent matches: aggression, safety,
/// teamwork, vision, farming, damage, gold, results, game length, and kill share.
pub fn enhanced_traits(lines: &Vec<MatchLine>) -> (r: Vec<PlaystyleTrait>)
    ensures
        r@ == enhanced_traits_of(lines@),
{
    let n = lines.len();
    if n == 0 {
        let out: Vec<PlaystyleTrait> = Vec::new();
        assert(out@ =~= enhanced_traits_of(lines@));
        return out;
    }
    let t = line_totals(lines);
    traits_for_totals(n as i128, &t)
}

} // verus!
