//! The batch walker: pagination state for one room's history.
//!
//! A walk starts from no cursor (most-recent history) and requests pages
//! backward. Each response carries a continuation cursor; the walk ends when
//! the cursor equals the terminal sentinel. A response that cannot be decoded
//! is retried with bounded exponential backoff; exhausting the retry budget
//! fails the walk for that room alone.
//!
//! The walker itself performs no request: the caller fetches and feeds the
//! outcome of each request back in, so every decision here is verified.

use vstd::prelude::*;
use crate::event::RawEvent;
use crate::spec_is_terminal;
use crate::is_terminal_cursor;

verus! {

/// Retry and backoff settings of a walk.
pub struct WalkConfig {
    /// How many times one request may be reissued after a bad response.
    pub max_retries: u32,
    /// Delay before the first retry, in milliseconds.
    pub base_delay_ms: u64,
    /// Upper bound on any retry delay, in milliseconds.
    pub cap_delay_ms: u64,
}

/// What one request against the message endpoint came back as.
pub enum FetchOutcome {
    /// A well-formed page: its events, newest first, and the next cursor.
    Page { events: Vec<RawEvent>, end: String },
    /// A response that could not be used (network failure or malformed body).
    BadResponse,
}

/// The walker's state between requests.
pub enum WalkState {
    /// A request is owed, continuing from `from` (`None`: most recent).
    Requesting { from: Option<String>, retries: u32 },
    /// History is exhausted; `last` is the terminal cursor observed.
    Done { last: String },
    /// The retry budget was exhausted; the walk failed.
    Failed,
}

/// What the caller must do after feeding one outcome in.
pub enum WalkStep {
    /// Consume the page's events, then request again from `next_from`.
    Advance { events: Vec<RawEvent>, next_from: String },
    /// Consume the page's events; the walk is complete.
    Finish { events: Vec<RawEvent> },
    /// Reissue the same request after waiting `delay_ms`.
    Retry { delay_ms: u64 },
    /// Stop: the walk failed for this room.
    GiveUp,
}

/// The exponential backoff schedule: the delay starts at `base`, doubles with
/// every further retry, and never exceeds `cap`.
pub open spec fn spec_backoff(retry: nat, base: u64, cap: u64) -> u64
    decreases retry,
{
    if retry == 0 {
        if base <= cap {
            base
        } else {
            cap
        }
    } else {
        let prev = spec_backoff((retry - 1) as nat, base, cap);
        if prev > cap / 2 {
            cap
        } else {
            (2 * prev) as u64
        }
    }
}

/// Computes the backoff delay before retry number `retry`.
pub fn backoff_delay_ms(retry: u32, base_ms: u64, cap_ms: u64) -> (r: u64)
    ensures
        r == spec_backoff(retry as nat, base_ms, cap_ms),
{
    let mut d: u64 = if base_ms <= cap_ms {
        base_ms
    } else {
        cap_ms
    };
    let mut i: u32 = 0;
    while i < retry
        invariant
            i <= retry,
            d == spec_backoff(i as nat, base_ms, cap_ms),
        decreases retry - i,
    {
        if d > cap_ms / 2 {
            d = cap_ms;
        } else {
            d = 2 * d;
        }
        i = i + 1;
    }
    d
}

/// The transition relation of the walker, one request outcome at a time.
pub open spec fn spec_walk_step(s: WalkState, o: FetchOutcome, cfg: WalkConfig) -> (WalkState,
    WalkStep) {
    match s {
        WalkState::Requesting { from, retries } => match o {
            FetchOutcome::Page { events, end } => {
                if spec_is_terminal(end@) {
                    (WalkState::Done { last: end }, WalkStep::Finish { events })
                } else {
                    (
                        WalkState::Requesting { from: Some(end), retries: 0 },
                        WalkStep::Advance { events, next_from: end },
                    )
                }
            },
            FetchOutcome::BadResponse => {
                if retries < cfg.max_retries {
                    (
                        WalkState::Requesting { from, retries: (retries + 1) as u32 },
                        WalkStep::Retry {
                            delay_ms: spec_backoff(retries as nat, cfg.base_delay_ms, cfg.cap_delay_ms),
                        },
                    )
                } else {
                    (WalkState::Failed, WalkStep::GiveUp)
                }
            },
        },
        _ => (s, WalkStep::GiveUp),
    }
}

/// Feeds one request outcome into the walker and takes the transition.
///
/// A walk that has reached `Done` or `Failed` is over; the caller issues no
/// further request, so those states are left out here.
pub fn walk_step(s: WalkState, o: FetchOutcome, cfg: &WalkConfig) -> (r: (WalkState, WalkStep))
    requires
        s is Requesting,
    ensures
        r == spec_walk_step(s, o, *cfg),
{
    match s {
        WalkState::Requesting { from, retries } => match o {
            FetchOutcome::Page { events, end } => {
                if is_terminal_cursor(&end) {
                    (WalkState::Done { last: end }, WalkStep::Finish { events })
                } else {
                    let next = end.clone();
                    (
                        WalkState::Requesting { from: Some(end), retries: 0 },
                        WalkStep::Advance { events, next_from: next },
                    )
                }
            },
            FetchOutcome::BadResponse => {
                if retries < cfg.max_retries {
                    let delay = backoff_delay_ms(retries, cfg.base_delay_ms, cfg.cap_delay_ms);
                    (
                        WalkState::Requesting { from, retries: retries + 1 },
                        WalkStep::Retry { delay_ms: delay },
                    )
                } else {
                    (WalkState::Failed, WalkStep::GiveUp)
                }
            },
        },
        WalkState::Done { last } => (WalkState::Done { last }, WalkStep::GiveUp),
        WalkState::Failed => (WalkState::Failed, WalkStep::GiveUp),
    }
}

/// How a finished walk ended.
pub enum WalkStatus {
    /// The terminal cursor was observed; history is exhausted.
    Done,
    /// The retry budget ran out on one request.
    Failed,
    /// The supplied outcomes ran out before the walk ended.
    Starved,
}

/// Everything one walk produced: the events of every consumed page in arrival
/// order, every cursor observed in order, and how the walk ended.
pub struct WalkRun {
    pub events: Vec<RawEvent>,
    pub cursors: Vec<String>,
    pub status: WalkStatus,
}

/// What a walk produces from a given sequence of request outcomes, starting
/// with `retries` retries already spent on the pending request: the events
/// collected, the cursors observed, and the final status.
pub open spec fn spec_run(script: Seq<FetchOutcome>, retries: nat, cfg: WalkConfig) -> (Seq<
    RawEvent>, Seq<String>, WalkStatus)
    decreases script.len(),
{
    if script.len() == 0 {
        (Seq::<RawEvent>::empty(), Seq::<String>::empty(), WalkStatus::Starved)
    } else {
        match script[0] {
            FetchOutcome::Page { events, end } => {
                if spec_is_terminal(end@) {
                    (events@, seq![end], WalkStatus::Done)
                } else {
                    let rest = spec_run(script.drop_first(), 0, cfg);
                    (events@ + rest.0, seq![end] + rest.1, rest.2)
                }
            },
            FetchOutcome::BadResponse => {
                if retries < cfg.max_retries {
                    spec_run(script.drop_first(), retries + 1, cfg)
                } else {
                    (Seq::<RawEvent>::empty(), Seq::<String>::empty(), WalkStatus::Failed)
                }
            },
        }
    }
}

/// Walking terminates: against any finite sequence of request outcomes the
/// walk consumes outcomes one by one and ends; in a completed walk the
/// cursors observed are finite, none but the last is terminal, and the last
/// equals the terminal sentinel.
pub proof fn lemma_walk_terminates(script: Seq<FetchOutcome>, retries: nat, cfg: WalkConfig)
    ensures
        spec_run(script, retries, cfg).2 is Done ==> {
            let cursors = spec_run(script, retries, cfg).1;
            &&& cursors.len() > 0
            &&& spec_is_terminal(cursors.last()@)
        },
        forall|i: int|
            0 <= i < spec_run(script, retries, cfg).1.len() - 1 ==> !spec_is_terminal(
                #[trigger] spec_run(script, retries, cfg).1[i]@,
            ),
    decreases script.len(),
{
    if script.len() > 0 {
        match script[0] {
            FetchOutcome::Page { events, end } => {
                if !spec_is_terminal(end@) {
                    lemma_walk_terminates(script.drop_first(), 0, cfg);
                }
            },
            FetchOutcome::BadResponse => {
                if retries < cfg.max_retries {
                    lemma_walk_terminates(script.drop_first(), retries + 1, cfg);
                }
            },
        }
    }
}

/// Runs a whole walk against a given sequence of request outcomes.
///
/// This is the walker with its request loop made explicit: the caller that
/// talks to the network feeds outcomes through `walk_step` one at a time and
/// obtains exactly this.
pub fn run_walk(script: Vec<FetchOutcome>, cfg: &WalkConfig) -> (r: WalkRun)
    ensures
        r.events@ == spec_run(script@, 0, *cfg).0,
        r.cursors@ == spec_run(script@, 0, *cfg).1,
        r.status == spec_run(script@, 0, *cfg).2,
        r.status is Done ==> r.cursors@.len() > 0 && spec_is_terminal(r.cursors@.last()@),
        forall|i: int|
            0 <= i < r.cursors@.len() - 1 ==> !spec_is_terminal(#[trigger] r.cursors@[i]@),
{
    let ghost whole: Seq<FetchOutcome> = script@;
    let mut events: Vec<RawEvent> = Vec::new();
    let mut cursors: Vec<String> = Vec::new();
    let mut state = WalkState::Requesting { from: None, retries: 0 };
    let mut rest = script;
    loop
        invariant
            whole == script@,
            state is Requesting,
            state matches WalkState::Requesting { from, retries } ==> {
                let tail = spec_run(rest@, retries as nat, *cfg);
                spec_run(whole, 0, *cfg) == (events@ + tail.0, cursors@ + tail.1, tail.2)
            },
        decreases rest@.len(),
    {
        if rest.len() == 0 {
            proof {
                assert(spec_run(rest@, state->Requesting_retries as nat, *cfg).0
                    =~= Seq::<RawEvent>::empty());
                assert(events@ + Seq::<RawEvent>::empty() =~= events@);
                assert(cursors@ + Seq::<String>::empty() =~= cursors@);
                assert((events@, cursors@, WalkStatus::Starved) =~= spec_run(whole, 0, *cfg));
            }
            let r = WalkRun { events, cursors, status: WalkStatus::Starved };
            proof {
                lemma_walk_terminates(whole, 0, *cfg);
            }
            return r;
        }
        let ghost old_rest = rest@;
        let ghost retries_now: nat = state->Requesting_retries as nat;
        let outcome = rest.remove(0);
        proof {
            assert(rest@ =~= old_rest.drop_first());
        }
        let (next_state, step) = walk_step(state, outcome, cfg);
        state = next_state;
        match step {
            WalkStep::Advance { events: page_events, next_from } => {
                let mut page_events = page_events;
                events.append(&mut page_events);
                cursors.push(next_from);
                proof {
                    let tail = spec_run(rest@, 0, *cfg);
                    assert(events@ + tail.0 =~= spec_run(whole, 0, *cfg).0);
                    assert(cursors@ + tail.1 =~= spec_run(whole, 0, *cfg).1);
                }
            },
            WalkStep::Finish { events: page_events } => {
                let mut page_events = page_events;
                events.append(&mut page_events);
                let last = match &state {
                    WalkState::Done { last } => last.clone(),
                    _ => String::new(),
                };
                cursors.push(last);
                proof {
                    assert(events@ =~= spec_run(whole, 0, *cfg).0);
                    assert(cursors@ =~= spec_run(whole, 0, *cfg).1);
                    assert((events@, cursors@, WalkStatus::Done) =~= spec_run(whole, 0, *cfg));
                    lemma_walk_terminates(whole, 0, *cfg);
                }
                return WalkRun { events, cursors, status: WalkStatus::Done };
            },
            WalkStep::Retry { delay_ms: _ } => {
            },
            WalkStep::GiveUp => {
                proof {
                    assert(events@ =~= spec_run(whole, 0, *cfg).0);
                    assert(cursors@ =~= spec_run(whole, 0, *cfg).1);
                    assert((events@, cursors@, WalkStatus::Failed) =~= spec_run(whole, 0, *cfg));
                    lemma_walk_terminates(whole, 0, *cfg);
                }
                return WalkRun { events, cursors, status: WalkStatus::Failed };
            },
        }
    }
}

} // verus!
