use vstd::prelude::*;
use crate::rate_limit::{RateLimitCache, is_limited, after_check};

verus! {

/// Attempts of the live-game lookup inside one detection.
pub const LIVE_LOOKUP_ATTEMPTS: u32 = 3;

/// The first pause between live-game lookups, in milliseconds; it doubles after each.
pub const LIVE_LOOKUP_BASE_MS: u64 = 500;

/// How a detection reached its verdict.
#[derive(Debug, Clone, Copy, PartialEq, Eq, Structural)]
pub enum DetectionMethod {
    /// The live-game lookup answered.
    SpectatorApi,
    /// The live-game lookup failed; a conservative estimate stands in.
    Fallback,
    /// The check was refused by the cooldown.
    RateLimited,
    /// Demonstration mode: no remote call was made.
    Mock,
}

/// The verdict of one live-match detection. Confidence is in percent.
#[derive(Debug, Clone)]
pub struct LiveMatchDetection {
    pub is_in_game: bool,
    pub confidence_pct: u32,
    pub method: DetectionMethod,
    pub next_check_in_secs: u64,
    pub api_errors: Vec<String>,
}

impl LiveMatchDetection {
    /// The verdict has these values and no recorded errors.
    pub open spec fn plain(&self, in_game: bool, pct: nat, method: DetectionMethod, next: nat) -> bool {
        &&& self.is_in_game == in_game
        &&& self.confidence_pct == pct
        &&& self.method == method
        &&& self.next_check_in_secs == next
        &&& self.api_errors@.len() == 0
    }
}

/// What the live-game lookup, with its retries, came back with.
#[derive(Debug, Clone)]
pub enum LiveLookup {
    InGame,
    NotInGame,
    /// The lookup failed; the text describes the last failure.
    Failed(String),
}

/// The canned verdict of demonstration mode: not in game.
pub fn mock_detection() -> (r: LiveMatchDetection)
    ensures
        r.plain(false, 100, DetectionMethod::Mock, 120),
{
    LiveMatchDetection {
        is_in_game: false,
        confidence_pct: 100,
        method: DetectionMethod::Mock,
        next_check_in_secs: 120,
        api_errors: Vec::new(),
    }
}

/// The verdict of a check that the cooldown refused: nothing known.
pub fn rate_limited_detection() -> (r: LiveMatchDetection)
    ensures
        r.plain(false, 0, DetectionMethod::RateLimited, 30),
{
    LiveMatchDetection {
        is_in_game: false,
        confidence_pct: 0,
        method: DetectionMethod::RateLimited,
        next_check_in_secs: 30,
        api_errors: Vec::new(),
    }
}

/// The verdict after the live-game lookup: a running game is certain and is
/// checked again in 30 s; no game is near certain and is checked again in 60 s; a
/// failed lookup gives a low-confidence "not in game", checked again in 120 s, with
/// the failure recorded.
pub fn detection_from_lookup(lookup: LiveLookup) -> (r: LiveMatchDetection)
    ensures
        lookup is InGame ==> r.plain(true, 100, DetectionMethod::SpectatorApi, 30),
        lookup is NotInGame ==> r.plain(false, 90, DetectionMethod::SpectatorApi, 60),
        lookup matches LiveLookup::Failed(e) ==> {
            &&& !r.is_in_game
            &&& r.confidence_pct == 30
            &&& r.method == DetectionMethod::Fallback
            &&& r.next_check_in_secs == 120
            &&& r.api_errors@ == seq![e]
        },
{
    match lookup {
        LiveLookup::InGame => LiveMatchDetection {
            is_in_game: true,
            confidence_pct: 100,
            method: DetectionMethod::SpectatorApi,
            next_check_in_secs: 30,
            api_errors: Vec::new(),
        },
        LiveLookup::NotInGame => LiveMatchDetection {
            is_in_game: false,
            confidence_pct: 90,
            method: DetectionMethod::SpectatorApi,
            next_check_in_secs: 60,
            api_errors: Vec::new(),
        },
        LiveLookup::Failed(e) => {
            let mut api_errors: Vec<String> = Vec::new();
            api_errors.push(e);
            assert(api_errors@ =~= seq![e]);
            LiveMatchDetection {
                is_in_game: false,
                confidence_pct: 30,
                method: DetectionMethod::Fallback,
                next_check_in_secs: 120,
                api_errors,
            }
        },
    }
}

/// The first steps of a detection, before any remote call: in demonstration mode
/// the canned verdict, with the cache untouched; else the cooldown check, which
/// gives the rate-limited verdict when it refuses. `None` means the lookups go ahead,
/// and the check's time has been recorded.
pub fn begin_detection(demo: bool, cache: &mut RateLimitCache, fingerprint: &str, now_ms: u64) -> (r:
    Option<LiveMatchDetection>)
    requires
        old(cache).wf(),
    ensures
        final(cache).wf(),
        demo ==> final(cache)@ == old(cache)@ && (r matches Some(d) && d.plain(
            false,
            100,
            DetectionMethod::Mock,
            120,
        )),
        !demo ==> final(cache)@ == after_check(old(cache)@, fingerprint@, now_ms),
        !demo && is_limited(old(cache)@, fingerprint@, now_ms) ==> (r matches Some(d) && d.plain(
            false,
            0,
            DetectionMethod::RateLimited,
            30,
        )),
        !demo && !is_limited(old(cache)@, fingerprint@, now_ms) ==> r is None,
{
    if demo {
        return Some(mock_detection());
    }
    if cache.check_and_record(fingerprint, now_ms) {
        Some(rate_limited_detection())
    } else {
        None
    }
}

/// After failed live-game lookup number `attempts` (counting from one): the pause
/// before the next one in milliseconds, or `None` when no attempt is left.
pub fn live_lookup_pause(attempts: u32) -> (r: Option<u64>)
    requires
        attempts >= 1,
    ensures
        attempts >= LIVE_LOOKUP_ATTEMPTS ==> r is None,
        attempts == 1 ==> r == Some(500u64),
        attempts == 2 ==> r == Some(1000u64),
{
    if attempts >= LIVE_LOOKUP_ATTEMPTS {
        None
    } else if attempts == 1 {
        Some(LIVE_LOOKUP_BASE_MS)
    } else {
        Some(LIVE_LOOKUP_BASE_MS * 2)
    }
}

/// What a round of continuous monitoring found.
#[derive(Debug, Clone, Copy, PartialEq, Eq, Structural)]
pub enum MonitorResult {
    InGame,
    NotInGame,
    Failed,
}

/// Seconds before the first round of continuous monitoring.
pub const MONITOR_FIRST_SECS: u64 = 30;

/// Seconds between rounds of monitoring in demonstration mode.
pub const MONITOR_DEMO_SECS: u64 = 120;

/// Seconds before the next round of continuous monitoring: sooner during a game,
/// later outside one, and later still after a failure.
pub fn monitor_interval(result: MonitorResult) -> (r: u64)
    ensures
        result == MonitorResult::InGame ==> r == 15,
        result == MonitorResult::NotInGame ==> r == 60,
        result == MonitorResult::Failed ==> r == 120,
{
    match result {
        MonitorResult::InGame => 15,
        MonitorResult::NotInGame => 60,
        MonitorResult::Failed => 120,
    }
}

} // verus!
