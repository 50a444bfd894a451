//! The opportunity recorder: promotes an accepted estimate to the record that is persisted.

use crate::estimator::{Profit, ProfitEstimate, Ratio};
use crate::policy::{accepted, accepts};
use vstd::prelude::*;

verus! {

/// Why the store did not take a record. None of these ends the process.
#[derive(Clone, Copy, Debug, PartialEq, Eq)]
pub enum PersistenceError {
    /// The store could not be reached.
    StorageUnavailable,
    /// The store does not have the expected columns.
    SchemaMismatch,
    /// The store refused the row.
    WriteRejected,
}

/// The record of a cycle whose simulated profit exceeded the threshold. Records are only
/// ever appended.
#[derive(Clone, Debug, PartialEq, Eq)]
pub struct Opportunity {
    /// The wall-clock time at which the record was drafted.
    pub timestamp: String,
    /// The simulated profit, in base units of the quote token.
    pub profit: Profit,
    /// The label of the venue of the first leg.
    pub buy_venue: String,
    /// The label of the venue of the second leg.
    pub sell_venue: String,
    /// The implied buy price of the estimate.
    pub buy_price: Ratio,
    /// The implied sell price of the estimate.
    pub sell_price: Ratio,
}

/// What [`draft`] returns: a record with the figures of the estimate where the estimate is
/// accepted, and nothing where it is not.
pub open spec fn drafted(
    estimate: ProfitEstimate,
    threshold: i128,
    buy_venue: String,
    sell_venue: String,
    timestamp: String,
) -> Option<Opportunity> {
    if accepted(estimate, threshold) {
        Some(
            Opportunity {
                timestamp,
                profit: estimate.simulated_profit,
                buy_venue,
                sell_venue,
                buy_price: estimate.implied_buy_price,
                sell_price: estimate.implied_sell_price,
            },
        )
    } else {
        None
    }
}

/// Drafts the record of an estimate. This is the only place where a record is made, and
/// it makes none unless the estimate is actionable and its profit exceeds the threshold.
pub fn draft(
    estimate: &ProfitEstimate,
    threshold: i128,
    buy_venue: String,
    sell_venue: String,
    timestamp: String,
) -> (r: Option<Opportunity>)
    ensures
        r == drafted(*estimate, threshold, buy_venue, sell_venue, timestamp),
{
    if accepts(estimate, threshold) {
        Some(
            Opportunity {
                timestamp,
                profit: estimate.simulated_profit,
                buy_venue,
                sell_venue,
                buy_price: estimate.implied_buy_price,
                sell_price: estimate.implied_sell_price,
            },
        )
    } else {
        None
    }
}

/// Every record that is drafted has a profit strictly greater than the threshold that was
/// in force when it was drafted and rests on an actionable estimate, and a record is
/// drafted for every accepted estimate.
pub proof fn lemma_drafted_exceeds_threshold(
    estimate: ProfitEstimate,
    threshold: i128,
    buy_venue: String,
    sell_venue: String,
    timestamp: String,
)
    ensures
        drafted(estimate, threshold, buy_venue, sell_venue, timestamp) is Some <==> accepted(
            estimate,
            threshold,
        ),
        drafted(estimate, threshold, buy_venue, sell_venue, timestamp) matches Some(record)
            ==> record.profit.exceeds(threshold as int) && estimate.actionable,
{
}

/// Calls `chrono::Local::now` and renders the result with `to_string`: date, time and
/// offset from UTC.
///
/// Trusted, and nothing is claimed of the text: it depends on the clock and the time zone
/// of the machine. The outside function unwinds where the clock stands before 1970, or
/// where no local offset from UTC can be found for the current time.
#[verifier::external_body]
pub(crate) fn local_timestamp() -> String {
    chrono::Local::now().to_string()
}

} // verus!
