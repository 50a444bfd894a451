//! The cycle driver: a state machine that decides, and leaves every outside effect to its
//! caller.
//!
//! The caller holds the state, performs the action that a step returns, and reports what
//! came of it as the next event:
//!
//! ```text
//! Idle -> Fetching -> Estimating -> Deciding -> Recording | Skipping -> Sleeping -> Idle
//! ```
//!
//! No failure inside a cycle ends the machine: a failed fetch becomes a zero quote, a
//! degenerate estimate is skipped, and a failed write is followed by the usual sleep.

use crate::config::Config;
use crate::estimator::{estimate, estimate_of, EstimateError, ProfitEstimate};
use crate::policy::{decision, lemma_sentinel_is_rejected};
use crate::quote::{realized_output_of, resolve_quote, resolved_quote, Quote, Reply};
use crate::recorder::{draft, drafted, local_timestamp, Opportunity, PersistenceError};
use vstd::prelude::*;

verus! {

/// The two legs of the round trip.
#[derive(Clone, Copy, Debug, PartialEq, Eq)]
pub enum Leg {
    /// Base token to quote token, on the first venue.
    First,
    /// Quote token back to base token, on the second venue.
    Second,
}

/// Where a cycle stands.
#[derive(Debug, PartialEq, Eq)]
pub enum CycleState {
    /// Between two cycles.
    Idle,
    /// Waiting for a venue: for the first while `first` is empty, for the second after.
    Fetching { first: Option<Quote> },
    /// Both quotes are in.
    Estimating { quote1: Quote, quote2: Quote },
    /// The estimator has run.
    Deciding { outcome: Result<ProfitEstimate, EstimateError> },
    /// A record has been handed out and the store has not answered yet.
    Recording,
    /// The cycle ends without a record.
    Skipping { outcome: Result<ProfitEstimate, EstimateError> },
    /// Waiting for the polling interval to pass.
    Sleeping,
}

/// What the caller reports.
#[derive(Debug, PartialEq, Eq)]
pub enum Event {
    /// Nothing happened outside; the machine may go on.
    Proceed,
    /// A venue answered, or failed to.
    QuoteReply(Reply),
    /// The store took the record, or failed to.
    StoreReply(Result<(), PersistenceError>),
    /// The polling interval has passed.
    Wake,
}

/// What the caller is asked to do before the next step.
#[derive(Debug, PartialEq, Eq)]
pub enum Action {
    /// Nothing: report [`Event::Proceed`].
    Proceed,
    /// Ask the venue of `leg` what `input_amount` yields, and report the reply.
    FetchQuote { leg: Leg, input_amount: u128 },
    /// Append the record to the store, and report the outcome.
    Store(Opportunity),
    /// Sleep, then report [`Event::Wake`].
    Sleep { seconds: u64 },
    /// The event is not the one that the state waits for; the state is unchanged.
    Rejected,
}

/// The transition function. `now` is the timestamp that a record gets if one is drafted in
/// this step; no other step reads it.
pub open spec fn next(config: Config, state: CycleState, event: Event, now: String) -> (
    CycleState,
    Action,
) {
    match state {
        CycleState::Idle => match event {
            Event::Proceed => (
                CycleState::Fetching { first: None },
                Action::FetchQuote { leg: Leg::First, input_amount: config.trade_amount },
            ),
            _ => (state, Action::Rejected),
        },
        CycleState::Fetching { first: None } => match event {
            Event::QuoteReply(reply) => {
                let quote1 = resolved_quote(reply, config.trade_amount, config.first_venue);
                (
                    CycleState::Fetching { first: Some(quote1) },
                    Action::FetchQuote { leg: Leg::Second, input_amount: quote1.output_amount },
                )
            },
            _ => (state, Action::Rejected),
        },
        CycleState::Fetching { first: Some(quote1) } => match event {
            Event::QuoteReply(reply) => {
                let quote2 = resolved_quote(reply, quote1.output_amount, config.second_venue);
                (CycleState::Estimating { quote1, quote2 }, Action::Proceed)
            },
            _ => (state, Action::Rejected),
        },
        CycleState::Estimating { quote1, quote2 } => match event {
            Event::Proceed => (
                CycleState::Deciding { outcome: estimate_of(quote1, quote2, config) },
                Action::Proceed,
            ),
            _ => (state, Action::Rejected),
        },
        CycleState::Deciding { outcome } => match event {
            Event::Proceed => match outcome {
                Ok(estimate) => match drafted(
                    estimate,
                    config.profit_threshold,
                    config.first_venue,
                    config.second_venue,
                    now,
                ) {
                    Some(record) => (CycleState::Recording, Action::Store(record)),
                    None => (CycleState::Skipping { outcome }, Action::Proceed),
                },
                Err(_) => (CycleState::Skipping { outcome }, Action::Proceed),
            },
            _ => (state, Action::Rejected),
        },
        CycleState::Recording => match event {
            Event::StoreReply(_) => (
                CycleState::Sleeping,
                Action::Sleep { seconds: config.polling_interval_seconds },
            ),
            _ => (state, Action::Rejected),
        },
        CycleState::Skipping { outcome } => match event {
            Event::Proceed => (
                CycleState::Sleeping,
                Action::Sleep { seconds: config.polling_interval_seconds },
            ),
            _ => (state, Action::Rejected),
        },
        CycleState::Sleeping => match event {
            Event::Wake => (CycleState::Idle, Action::Proceed),
            _ => (state, Action::Rejected),
        },
    }
}

/// The order of the states within a cycle.
pub open spec fn follows(from: CycleState, to: CycleState) -> bool {
    match from {
        CycleState::Idle => to == (CycleState::Fetching { first: None }),
        CycleState::Fetching { first: None } => to matches CycleState::Fetching {
            first: Some(_),
        },
        CycleState::Fetching { first: Some(_) } => to is Estimating,
        CycleState::Estimating { .. } => to is Deciding,
        CycleState::Deciding { .. } => to is Recording || to is Skipping,
        CycleState::Recording => to is Sleeping,
        CycleState::Skipping { .. } => to is Sleeping,
        CycleState::Sleeping => to is Idle,
    }
}

/// The event that a state waits for.
pub open spec fn awaited(state: CycleState, event: Event) -> bool {
    match state {
        CycleState::Fetching { .. } => event is QuoteReply,
        CycleState::Recording => event is StoreReply,
        CycleState::Sleeping => event is Wake,
        _ => event is Proceed,
    }
}

/// Every step either moves the cycle one state forward, or rejects the event and leaves
/// the state as it was. The awaited event is never rejected, whatever it carries, so no
/// state is a dead end.
pub proof fn lemma_step_follows_the_cycle(
    config: Config,
    state: CycleState,
    event: Event,
    now: String,
)
    ensures
        awaited(state, event) ==> follows(state, next(config, state, event, now).0) && next(
            config,
            state,
            event,
            now,
        ).1 != Action::Rejected,
        !awaited(state, event) ==> next(config, state, event, now) == (state, Action::Rejected),
{
}

/// A record is handed out only from the deciding state, only for an accepted estimate,
/// which is an actionable one, and its profit is strictly greater than the configured
/// threshold.
pub proof fn lemma_store_only_above_threshold(
    config: Config,
    state: CycleState,
    event: Event,
    now: String,
)
    ensures
        next(config, state, event, now).1 matches Action::Store(record) ==> {
            &&& state matches CycleState::Deciding { outcome }
            &&& decision(outcome, config.profit_threshold)
            &&& outcome matches Ok(estimate) && estimate.actionable
            &&& record.profit.exceeds(config.profit_threshold as int)
            &&& next(config, state, event, now).0 is Recording
        },
        state matches CycleState::Deciding { outcome } ==> (event is Proceed ==> (next(
            config,
            state,
            event,
            now,
        ).0 is Recording <==> decision(outcome, config.profit_threshold))),
{
}

/// A failed write does not stop the machine: whatever the store reports, the cycle goes
/// to sleep for the polling interval, and the wake-up that follows starts the next cycle
/// with the first fetch.
pub proof fn lemma_store_failure_is_survived(
    config: Config,
    reply: Result<(), PersistenceError>,
    now: String,
)
    ensures
        next(config, CycleState::Recording, Event::StoreReply(reply), now) == (
            CycleState::Sleeping,
            Action::Sleep { seconds: config.polling_interval_seconds },
        ),
        next(config, CycleState::Sleeping, Event::Wake, now) == (
            CycleState::Idle,
            Action::Proceed,
        ),
        next(config, CycleState::Idle, Event::Proceed, now) == (
            CycleState::Fetching { first: None },
            Action::FetchQuote { leg: Leg::First, input_amount: config.trade_amount },
        ),
{
}

/// A failed fetch leads to no record, whatever the threshold. Whichever of the two
/// replies fails, the quote that stands for it is the zero sentinel, and the cycle goes
/// through estimating and deciding to skipping.
pub proof fn lemma_failed_fetch_is_skipped(
    config: Config,
    reply1: Reply,
    reply2: Reply,
    now: String,
)
    requires
        config.wf(),
        realized_output_of(reply1) is Err || realized_output_of(reply2) is Err,
    ensures
        ({
            let fetching = next(
                config,
                CycleState::Fetching { first: None },
                Event::QuoteReply(reply1),
                now,
            ).0;
            let estimating = next(config, fetching, Event::QuoteReply(reply2), now).0;
            let deciding = next(config, estimating, Event::Proceed, now).0;
            let last = next(config, deciding, Event::Proceed, now);
            &&& estimating is Estimating
            &&& estimating->quote1.is_sentinel() || estimating->quote2.is_sentinel()
            &&& deciding is Deciding
            &&& last.0 is Skipping
            &&& last.1 == Action::Proceed
        }),
{
    let quote1 = resolved_quote(reply1, config.trade_amount, config.first_venue);
    let quote2 = resolved_quote(reply2, quote1.output_amount, config.second_venue);
    lemma_sentinel_is_rejected(quote1, quote2, config);
}

/// The timestamp matters to one step only, the one that decides.
pub proof fn lemma_timestamp_only_marks_records(
    config: Config,
    state: CycleState,
    event: Event,
    now: String,
    other: String,
)
    requires
        !(state is Deciding),
    ensures
        next(config, state, event, now) == next(config, state, event, other),
{
}

/// Takes one step with a given timestamp.
pub fn advance(config: &Config, state: CycleState, event: Event, now: String) -> (r: (
    CycleState,
    Action,
))
    requires
        config.wf(),
    ensures
        r == next(*config, state, event, now),
{
    match state {
        CycleState::Idle => match event {
            Event::Proceed => (
                CycleState::Fetching { first: None },
                Action::FetchQuote { leg: Leg::First, input_amount: config.trade_amount },
            ),
            _ => (CycleState::Idle, Action::Rejected),
        },
        CycleState::Fetching { first: None } => match event {
            Event::QuoteReply(reply) => {
                let quote1 = resolve_quote(&reply, config.trade_amount, config.first_venue.clone());
                let input_amount = quote1.output_amount;
                (
                    CycleState::Fetching { first: Some(quote1) },
                    Action::FetchQuote { leg: Leg::Second, input_amount },
                )
            },
            _ => (CycleState::Fetching { first: None }, Action::Rejected),
        },
        CycleState::Fetching { first: Some(quote1) } => match event {
            Event::QuoteReply(reply) => {
                let quote2 = resolve_quote(
                    &reply,
                    quote1.output_amount,
                    config.second_venue.clone(),
                );
                (CycleState::Estimating { quote1, quote2 }, Action::Proceed)
            },
            _ => (CycleState::Fetching { first: Some(quote1) }, Action::Rejected),
        },
        CycleState::Estimating { quote1, quote2 } => match event {
            Event::Proceed => {
                let outcome = estimate(&quote1, &quote2, config);
                (CycleState::Deciding { outcome }, Action::Proceed)
            },
            _ => (CycleState::Estimating { quote1, quote2 }, Action::Rejected),
        },
        CycleState::Deciding { outcome } => match event {
            Event::Proceed => match outcome {
                Ok(estimate) => match draft(
                    &estimate,
                    config.profit_threshold,
                    config.first_venue.clone(),
                    config.second_venue.clone(),
                    now,
                ) {
                    Some(record) => (CycleState::Recording, Action::Store(record)),
                    None => (CycleState::Skipping { outcome }, Action::Proceed),
                },
                Err(_) => (CycleState::Skipping { outcome }, Action::Proceed),
            },
            _ => (CycleState::Deciding { outcome }, Action::Rejected),
        },
        CycleState::Recording => match event {
            Event::StoreReply(_) => (
                CycleState::Sleeping,
                Action::Sleep { seconds: config.polling_interval_seconds },
            ),
            _ => (CycleState::Recording, Action::Rejected),
        },
        CycleState::Skipping { outcome } => match event {
            Event::Proceed => (
                CycleState::Sleeping,
                Action::Sleep { seconds: config.polling_interval_seconds },
            ),
            _ => (CycleState::Skipping { outcome }, Action::Rejected),
        },
        CycleState::Sleeping => match event {
            Event::Wake => (CycleState::Idle, Action::Proceed),
            _ => (CycleState::Sleeping, Action::Rejected),
        },
    }
}

/// Takes one step. Where the step drafts a record, the record carries the local time of
/// the call; everything else is fixed by the state and the event.
///
/// The clock is read in the deciding state only. Reading it unwinds where the clock of
/// the machine stands before 1970, or where no local offset from UTC can be found for
/// the current time. [`advance`] takes the timestamp as an argument and never unwinds.
pub fn step(config: &Config, state: CycleState, event: Event) -> (r: (CycleState, Action))
    requires
        config.wf(),
    ensures
        exists|now: String| r == next(*config, state, event, now),
{
    let now = match &state {
        CycleState::Deciding { .. } => local_timestamp(),
        _ => String::new(),
    };
    let r = advance(config, state, event, now);
    assert(r == next(*config, state, event, now));
    r
}

} // verus!
