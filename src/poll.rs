use vstd::prelude::*;
use crate::retry::ConnectionErrorType;

verus! {

/// Seconds between two checks when the last one went through.
pub const NORMAL_INTERVAL_SECS: u64 = 10;

/// From this many failures in a row on, the loop waits a flat pause.
pub const MAX_CONSECUTIVE_FAILURES: u32 = 10;

/// The flat pause after too many failures in a row, in seconds.
pub const FAILURE_CEILING_SECS: u64 = 30;

/// A notification that the poll loop sends to the presentation layer.
#[derive(Debug, Clone, Copy, PartialEq, Eq, Structural)]
pub enum Signal {
    GameStarted,
    MatchData,
    GameEnded,
    NoGame,
    ConnectionError,
}

/// What one check for a running game found.
#[derive(Debug, Clone, Copy, PartialEq, Eq, Structural)]
pub enum ActiveGameCheck {
    /// The player is in a game.
    Game,
    /// The player is not in a game.
    NoGame,
    /// The check failed, after its retries, with this kind of failure.
    Failed(ConnectionErrorType),
}

/// What the loop does after one cycle.
#[derive(Debug, Clone)]
pub struct PollOutcome {
    /// Whether the player is now taken to be in a game.
    pub in_game: bool,
    /// Failed checks in a row, this one included.
    pub consecutive_failures: u32,
    /// The notifications to send, in order. `MatchData` comes after the
    /// lookups for every participant have finished.
    pub signals: Vec<Signal>,
    /// How long to sleep before the next cycle, in seconds.
    pub sleep_secs: u64,
}

/// The pause after a failed check, given the failures in a row so far, this one included.
pub open spec fn failure_pause(kind: ConnectionErrorType, failures: nat) -> nat {
    if failures >= MAX_CONSECUTIVE_FAILURES {
        FAILURE_CEILING_SECS as nat
    } else {
        match kind {
            ConnectionErrorType::Network => 20 + 5 * failures,
            ConnectionErrorType::ServerError => 15 + 3 * failures,
            _ => 10,
        }
    }
}

/// The notifications of one cycle.
pub open spec fn cycle_signals(in_game: bool, check: Option<ActiveGameCheck>) -> Seq<Signal> {
    match check {
        None => seq![],
        Some(ActiveGameCheck::Game) => if in_game {
            seq![]
        } else {
            seq![Signal::GameStarted, Signal::MatchData]
        },
        Some(ActiveGameCheck::NoGame) => if in_game {
            seq![Signal::GameEnded]
        } else {
            seq![Signal::NoGame]
        },
        Some(ActiveGameCheck::Failed(_)) => seq![Signal::ConnectionError],
    }
}

/// Whether the player is taken to be in a game after the cycle.
pub open spec fn cycle_in_game(in_game: bool, check: Option<ActiveGameCheck>) -> bool {
    match check {
        Some(ActiveGameCheck::Game) => true,
        Some(ActiveGameCheck::NoGame) => false,
        _ => in_game,
    }
}

/// Failed checks in a row after the cycle (held at `u32::MAX`).
pub open spec fn cycle_failures(failures: u32, check: Option<ActiveGameCheck>) -> nat {
    match check {
        None => failures as nat,
        Some(ActiveGameCheck::Failed(_)) => if failures == u32::MAX {
            u32::MAX as nat
        } else {
            (failures + 1) as nat
        },
        Some(_) => 0,
    }
}

/// The sleep after the cycle.
pub open spec fn cycle_sleep(failures: u32, check: Option<ActiveGameCheck>) -> nat {
    match check {
        Some(ActiveGameCheck::Failed(kind)) => failure_pause(kind, cycle_failures(failures, check)),
        _ => NORMAL_INTERVAL_SECS as nat,
    }
}

/// One cycle of the background poll. `check` is `None` when no player is tracked
/// yet, and otherwise what the check for a running game found. A game start is
/// announced once, on the change into a game; while no game runs, every cycle
/// says so.
pub fn poll_step(in_game: bool, consecutive_failures: u32, check: Option<ActiveGameCheck>) -> (r:
    PollOutcome)
    ensures
        r.in_game == cycle_in_game(in_game, check),
        r.consecutive_failures == cycle_failures(consecutive_failures, check),
        r.signals@ == cycle_signals(in_game, check),
        r.sleep_secs == cycle_sleep(consecutive_failures, check),
{
    let mut signals: Vec<Signal> = Vec::new();
    match check {
        None => {
            PollOutcome {
                in_game,
                consecutive_failures,
                signals,
                sleep_secs: NORMAL_INTERVAL_SECS,
            }
        },
        Some(ActiveGameCheck::Game) => {
            if !in_game {
                signals.push(Signal::GameStarted);
                signals.push(Signal::MatchData);
            }
            assert(signals@ =~= cycle_signals(in_game, check));
            PollOutcome { in_game: true, consecutive_failures: 0, signals, sleep_secs: NORMAL_INTERVAL_SECS }
        },
        Some(ActiveGameCheck::NoGame) => {
            if in_game {
                signals.push(Signal::GameEnded);
            } else {
                signals.push(Signal::NoGame);
            }
            assert(signals@ =~= cycle_signals(in_game, check));
            PollOutcome {
                in_game: false,
                consecutive_failures: 0,
                signals,
                sleep_secs: NORMAL_INTERVAL_SECS,
            }
        },
        Some(ActiveGameCheck::Failed(kind)) => {
            let failures = if consecutive_failures == u32::MAX {
                u32::MAX
            } else {
                consecutive_failures + 1
            };
            signals.push(Signal::ConnectionError);
            assert(signals@ =~= cycle_signals(in_game, check));
            let sleep_secs: u64 = if failures >= MAX_CONSECUTIVE_FAILURES {
                FAILURE_CEILING_SECS
            } else {
                match kind {
                    ConnectionErrorType::Network => 20 + 5 * failures as u64,
                    ConnectionErrorType::ServerError => 15 + 3 * failures as u64,
                    _ => 10,
                }
            };
            PollOutcome { in_game, consecutive_failures: failures, signals, sleep_secs }
        },
    }
}

/// Over any run of cycles, "game started" is sent exactly on the cycles that find
/// a game while none was known, and "game ended" exactly on those that find none
/// while one was known: the flag that the cycles carry from one to the next
/// changes on those cycles and no others.
pub proof fn lemma_edge_triggered(in_game: bool, check: Option<ActiveGameCheck>)
    ensures
        cycle_signals(in_game, check).contains(Signal::GameStarted) <==> (!in_game && cycle_in_game(
            in_game,
            check,
        )),
        cycle_signals(in_game, check).contains(Signal::GameEnded) <==> (in_game && !cycle_in_game(
            in_game,
            check,
        )),
{
    let s = cycle_signals(in_game, check);
    match check {
        None => {},
        Some(ActiveGameCheck::Game) => {
            if !in_game {
                assert(s[0] == Signal::GameStarted);
            }
        },
        Some(ActiveGameCheck::NoGame) => {
            if in_game {
                assert(s[0] == Signal::GameEnded);
            }
        },
        Some(ActiveGameCheck::Failed(_)) => {},
    }
}

/// Assembles the per-participant results of a game-start fan-out: one entry per
/// participant, in order, where a lookup that failed (`None`) gives an empty list.
pub fn participant_batch<T>(results: Vec<Option<Vec<T>>>) -> (r: Vec<Vec<T>>)
    ensures
        r.len() == results.len(),
        forall|i: int|
            0 <= i < results.len() ==> match #[trigger] results@[i] {
                Some(v) => r@[i] == v,
                None => r@[i]@.len() == 0,
            },
{
    let ghost orig = results@;
    let mut rest = results;
    let mut out: Vec<Vec<T>> = Vec::new();
    while rest.len() > 0
        invariant
            out.len() + rest.len() == orig.len(),
            rest@ == orig.subrange(out.len() as int, orig.len() as int),
            forall|i: int|
                0 <= i < out.len() ==> match #[trigger] orig[i] {
                    Some(v) => out@[i] == v,
                    None => out@[i]@.len() == 0,
                },
        decreases rest.len(),
    {
        let item = rest.remove(0);
        let ghost k = out.len() as int;
        assert(item == orig[k]);
        match item {
            Some(v) => out.push(v),
            None => out.push(Vec::new()),
        }
        assert(rest@ =~= orig.subrange(out.len() as int, orig.len() as int));
    }
    out
}

} // verus!
