//! The opportunity policy: an estimate is accepted when, and only when, it is actionable
//! and its simulated profit is strictly greater than the threshold.

use crate::config::Config;
use crate::estimator::{
    actionable, degenerate, estimate_of, lemma_estimate_figures, profit_numerator,
    EstimateError, ProfitEstimate,
};
use crate::quote::Quote;
use crate::wide::Wide;
use vstd::prelude::*;

verus! {

/// Whether an estimate is accepted: it rests on two quotes that carry a signal, and its
/// profit is strictly greater than the threshold.
pub open spec fn accepted(estimate: ProfitEstimate, threshold: i128) -> bool {
    estimate.actionable && estimate.simulated_profit.exceeds(threshold as int)
}

/// The decision on the outcome of the estimator: an actionable estimate is accepted when
/// its profit exceeds the threshold, and a failed estimate is never accepted.
pub open spec fn decision(outcome: Result<ProfitEstimate, EstimateError>, threshold: i128) -> bool {
    match outcome {
        Ok(estimate) => accepted(estimate, threshold),
        Err(_) => false,
    }
}

/// The magnitude of a threshold.
fn magnitude_of(threshold: i128) -> (r: u128)
    ensures
        r == vstd::math::abs(threshold as int),
{
    if threshold >= 0 {
        threshold as u128
    } else if threshold == i128::MIN {
        0x8000_0000_0000_0000_0000_0000_0000_0000
    } else {
        (-threshold) as u128
    }
}

/// Decides whether an estimate is an opportunity. Equal values are rejected, and so is
/// every estimate that is not actionable.
pub fn accepts(estimate: &ProfitEstimate, threshold: i128) -> (r: bool)
    ensures
        r == accepted(*estimate, threshold),
{
    let profit = &estimate.simulated_profit;
    let size = magnitude_of(threshold);
    let bar = Wide::product(size, profit.scale);
    proof {
        let t = threshold as int;
        let s = profit.scale as int;
        assert(t >= 0 ==> t * s == size as int * s);
        assert(t < 0 ==> t * s == -(size as int * s)) by (nonlinear_arith)
            requires
                t < 0 ==> size as int == -t,
        ;
        assert(bar@ == size as int * s);
    }
    if !estimate.actionable {
        false
    } else if threshold >= 0 {
        !profit.negative && profit.magnitude.exceeds(&bar)
    } else if profit.negative {
        bar.exceeds(&profit.magnitude)
    } else {
        let nothing = Wide::from_u128(0);
        profit.magnitude.exceeds(&nothing) || bar.exceeds(&nothing)
    }
}

/// Decides on the outcome of the estimator.
pub fn decide(outcome: &Result<ProfitEstimate, EstimateError>, threshold: i128) -> (r: bool)
    ensures
        r == decision(*outcome, threshold),
{
    match outcome {
        Ok(estimate) => accepts(estimate, threshold),
        Err(_) => false,
    }
}

/// The boundary is strict. An actionable estimate whose profit is exactly `value` base
/// units is accepted when, and only when, `value` is greater than the threshold: at
/// equality it is rejected, one unit above the threshold it is accepted. An estimate that
/// is not actionable is rejected on either side of the boundary.
pub proof fn lemma_boundary_is_strict(estimate: ProfitEstimate, value: int, threshold: i128)
    requires
        estimate.wf(),
        estimate.simulated_profit.equals(value),
    ensures
        decision(Ok(estimate), threshold) <==> estimate.actionable && value > threshold,
        value == threshold ==> !accepted(estimate, threshold),
{
    let s = estimate.simulated_profit.scale as int;
    let t = threshold as int;
    assert(value * s > t * s <==> value > t) by (nonlinear_arith)
        requires
            s > 0,
    ;
}

/// Lowering the threshold never turns an accepted estimate into a rejected one.
pub proof fn lemma_decision_monotonic(estimate: ProfitEstimate, threshold: i128, lower: i128)
    requires
        estimate.wf(),
        lower <= threshold,
        accepted(estimate, threshold),
    ensures
        accepted(estimate, lower),
{
    let s = estimate.simulated_profit.scale as int;
    assert(lower * s <= threshold * s) by (nonlinear_arith)
        requires
            lower <= threshold,
            s > 0,
    ;
}

/// A quote with a zero output yields no opportunity, whatever the threshold. Either the
/// quotes are degenerate and there is no estimate, or the estimate is computed all the
/// same, with the negated cost offset as its profit, and is marked as not actionable.
pub proof fn lemma_sentinel_is_rejected(quote1: Quote, quote2: Quote, config: Config)
    requires
        config.wf(),
        quote1.is_sentinel() || quote2.is_sentinel(),
    ensures
        !decision(estimate_of(quote1, quote2, config), config.profit_threshold),
        forall|threshold: i128| !#[trigger] decision(estimate_of(quote1, quote2, config), threshold),
        estimate_of(quote1, quote2, config) matches Ok(estimate) ==> {
            &&& !estimate.actionable
            &&& estimate.simulated_profit.scale == quote1.input_amount
            &&& estimate.simulated_profit.numerator() == -(config.cost_offset
                * quote1.input_amount)
        },
{
    if !degenerate(quote1, quote2) {
        lemma_estimate_figures(quote1, quote2, config);
        let n = profit_numerator(quote1, quote2, config);
        let s = quote1.input_amount as int;
        let c = config.cost_offset as int;
        assert(quote2.output_amount == 0);
        assert(n == -(c * s)) by (nonlinear_arith)
            requires
                n == 0 * quote1.output_amount - c * s,
        ;
    }
}

/// The mark follows the quotes: an estimate is actionable when, and only when, neither
/// quote is the zero sentinel.
pub proof fn lemma_actionable_follows_the_quotes(quote1: Quote, quote2: Quote, config: Config)
    ensures
        estimate_of(quote1, quote2, config) matches Ok(estimate) ==> (estimate.actionable
            <==> actionable(quote1, quote2)),
        actionable(quote1, quote2) && quote1.input_amount > 0 && quote2.input_amount > 0
            ==> estimate_of(quote1, quote2, config) is Ok,
{
}

} // verus!
