//! The profit estimator: from two quotes to an exact simulated round-trip profit.
//!
//! The first leg sells the trade amount of the base token for the quote token; the second
//! leg buys the base token back with the proceeds. Whatever the second leg returns above
//! the trade amount is valued at the first leg's price, and the cost offset is taken off.
//! Nothing is rounded: every figure is a fraction of two integers.
//!
//! A quote with a zero output stands for a fetch that failed. The figures are computed
//! from it like from any other quote, but the estimate is marked as not actionable, and
//! no threshold turns such an estimate into an opportunity.

use crate::config::Config;
use crate::quote::Quote;
use crate::units::{pow10, scale_factor};
use crate::wide::{lemma_product_fits, radix, Wide};
use vstd::prelude::*;

verus! {

/// Why two quotes give no estimate.
#[derive(Clone, Copy, Debug, PartialEq, Eq)]
pub enum EstimateError {
    /// An amount that a price divides by is zero.
    DegenerateQuote,
}

/// A non-negative fraction.
#[derive(Clone, Copy, Debug, PartialEq, Eq)]
pub struct Ratio {
    pub numerator: Wide,
    pub denominator: Wide,
}

/// A signed fraction, counted in base units of the quote token: the sign, the magnitude
/// of the numerator, and the denominator. The profit it stands for is
/// `numerator() / scale`.
#[derive(Clone, Copy, Debug, PartialEq, Eq)]
pub struct Profit {
    pub negative: bool,
    pub magnitude: Wide,
    pub scale: u128,
}

impl Profit {
    /// The signed numerator.
    pub open spec fn numerator(&self) -> int {
        if self.negative {
            -(self.magnitude@ as int)
        } else {
            self.magnitude@ as int
        }
    }

    /// Whether the profit is strictly greater than `threshold` base units of the quote
    /// token. The denominator is positive, so the comparison is made after multiplying
    /// both sides by it.
    pub open spec fn exceeds(&self, threshold: int) -> bool {
        self.numerator() > threshold * self.scale
    }

    /// Whether the profit is exactly `value` base units of the quote token.
    pub open spec fn equals(&self, value: int) -> bool {
        self.numerator() == value * self.scale
    }

    /// A profit is well formed when its denominator is positive.
    pub open spec fn wf(&self) -> bool {
        self.scale > 0
    }
}

impl Ratio {
    /// A fraction is well formed when its denominator is positive.
    pub open spec fn wf(&self) -> bool {
        self.denominator@ > 0
    }
}

/// What the estimator derives from two quotes.
#[derive(Clone, Copy, Debug, PartialEq, Eq)]
pub struct ProfitEstimate {
    /// The simulated profit of the round trip.
    pub simulated_profit: Profit,
    /// The reciprocal of the first leg's price, in whole base tokens per whole quote token.
    pub implied_buy_price: Ratio,
    /// The second leg's price: its output amount over its input amount.
    pub implied_sell_price: Ratio,
    /// Whether both quotes carried a signal: false where either had a zero output.
    pub actionable: bool,
}

impl ProfitEstimate {
    /// An estimate is well formed when each of its three fractions is.
    pub open spec fn wf(&self) -> bool {
        &&& self.simulated_profit.wf()
        &&& self.implied_buy_price.wf()
        &&& self.implied_sell_price.wf()
    }
}

/// What the second leg returns above the trade amount, floored at zero.
pub open spec fn round_trip_delta(quote2: Quote, config: Config) -> nat {
    if quote2.output_amount > config.trade_amount {
        (quote2.output_amount - config.trade_amount) as nat
    } else {
        0
    }
}

/// The numerator of the simulated profit over the denominator `quote1.input_amount`:
/// the round-trip delta valued at the first leg's price, less the cost offset.
pub open spec fn profit_numerator(quote1: Quote, quote2: Quote, config: Config) -> int {
    round_trip_delta(quote2, config) * quote1.output_amount - config.cost_offset
        * quote1.input_amount
}

/// Two quotes are degenerate when a price would divide by zero: the first leg's price by
/// its input, its reciprocal by its output, the second leg's price by its input.
pub open spec fn degenerate(quote1: Quote, quote2: Quote) -> bool {
    quote1.input_amount == 0 || quote1.output_amount == 0 || quote2.input_amount == 0
}

/// Whether two quotes both carry a signal: neither is the zero sentinel.
pub open spec fn actionable(quote1: Quote, quote2: Quote) -> bool {
    !quote1.is_sentinel() && !quote2.is_sentinel()
}

/// What [`estimate`] returns.
pub open spec fn estimate_of(quote1: Quote, quote2: Quote, config: Config) -> Result<
    ProfitEstimate,
    EstimateError,
> {
    if degenerate(quote1, quote2) {
        Err(EstimateError::DegenerateQuote)
    } else {
        let numerator = profit_numerator(quote1, quote2, config);
        Ok(
            ProfitEstimate {
                simulated_profit: Profit {
                    negative: numerator < 0,
                    magnitude: Wide::of(vstd::math::abs(numerator)),
                    scale: quote1.input_amount,
                },
                implied_buy_price: Ratio {
                    numerator: Wide::of(
                        quote1.input_amount as nat * pow10(config.quote_decimals as nat),
                    ),
                    denominator: Wide::of(
                        quote1.output_amount as nat * pow10(config.base_decimals as nat),
                    ),
                },
                implied_sell_price: Ratio {
                    numerator: Wide::of(quote2.output_amount as nat),
                    denominator: Wide::of(quote2.input_amount as nat),
                },
                actionable: actionable(quote1, quote2),
            },
        )
    }
}

/// Estimates the profit of the round trip that two quotes describe.
pub fn estimate(quote1: &Quote, quote2: &Quote, config: &Config) -> (r: Result<
    ProfitEstimate,
    EstimateError,
>)
    requires
        config.wf(),
    ensures
        r == estimate_of(*quote1, *quote2, *config),
        r is Err <==> degenerate(*quote1, *quote2),
        r matches Ok(e) ==> e.wf(),
{
    proof {
        if !degenerate(*quote1, *quote2) {
            lemma_estimate_figures(*quote1, *quote2, *config);
        }
    }
    if quote1.input_amount == 0 || quote1.output_amount == 0 || quote2.input_amount == 0 {
        return Err(EstimateError::DegenerateQuote);
    }
    let delta: u128 = if quote2.output_amount > config.trade_amount {
        quote2.output_amount - config.trade_amount
    } else {
        0
    };
    let gain = Wide::product(delta, quote1.output_amount);
    let cost = Wide::product(config.cost_offset, quote1.input_amount);
    let (magnitude, negative) = gain.abs_diff(&cost);
    let base_scale = scale_factor(config.base_decimals);
    let quote_scale = scale_factor(config.quote_decimals);
    Ok(
        ProfitEstimate {
            simulated_profit: Profit { negative, magnitude, scale: quote1.input_amount },
            implied_buy_price: Ratio {
                numerator: Wide::product(quote1.input_amount, quote_scale),
                denominator: Wide::product(quote1.output_amount, base_scale),
            },
            implied_sell_price: Ratio {
                numerator: Wide::from_u128(quote2.output_amount),
                denominator: Wide::from_u128(quote2.input_amount),
            },
            actionable: quote2.output_amount != 0,
        },
    )
}

/// The figures of an estimate, read as numbers: for quotes that are not degenerate the
/// estimate exists, its profit is `profit_numerator / quote1.input_amount`, the reciprocal
/// of its buy price is the first leg's output over its input, each scaled to whole tokens,
/// its sell price is the second leg's output over its input, and it is actionable unless
/// the second quote is the zero sentinel.
pub proof fn lemma_estimate_figures(quote1: Quote, quote2: Quote, config: Config)
    requires
        config.wf(),
        !degenerate(quote1, quote2),
    ensures
        estimate_of(quote1, quote2, config) is Ok,
        ({
            let e = estimate_of(quote1, quote2, config)->Ok_0;
            &&& e.wf()
            &&& e.simulated_profit.numerator() == profit_numerator(quote1, quote2, config)
            &&& e.simulated_profit.scale == quote1.input_amount
            &&& e.implied_buy_price.numerator@ == quote1.input_amount * pow10(
                config.quote_decimals as nat,
            )
            &&& e.implied_buy_price.denominator@ == quote1.output_amount * pow10(
                config.base_decimals as nat,
            )
            &&& e.implied_sell_price.numerator@ == quote2.output_amount
            &&& e.implied_sell_price.denominator@ == quote2.input_amount
            &&& e.actionable == !quote2.is_sentinel()
        }),
{
    let delta = round_trip_delta(quote2, config);
    let gain = delta * quote1.output_amount;
    let cost = config.cost_offset as nat * quote1.input_amount as nat;
    let n = profit_numerator(quote1, quote2, config);
    assert(delta <= u128::MAX);
    lemma_product_fits(delta as u128, quote1.output_amount);
    lemma_product_fits(config.cost_offset, quote1.input_amount);
    assert(n == gain - cost);
    assert(vstd::math::abs(n) < radix() * radix());
    Wide::lemma_of_denotes(vstd::math::abs(n) as nat);

    let base_scale = pow10(config.base_decimals as nat);
    let quote_scale = pow10(config.quote_decimals as nat);
    crate::units::lemma_pow10_monotonic(config.base_decimals as nat, 38);
    crate::units::lemma_pow10_monotonic(config.quote_decimals as nat, 38);
    crate::units::lemma_pow10_max();
    lemma_product_fits(quote1.input_amount, quote_scale as u128);
    lemma_product_fits(quote1.output_amount, base_scale as u128);
    Wide::lemma_of_denotes(quote1.input_amount as nat * quote_scale);
    Wide::lemma_of_denotes(quote1.output_amount as nat * base_scale);
    assert(quote1.output_amount as nat * base_scale > 0) by (nonlinear_arith)
        requires
            quote1.output_amount > 0,
            base_scale > 0,
    ;
    Wide::lemma_of_denotes(quote2.output_amount as nat);
    Wide::lemma_of_denotes(quote2.input_amount as nat);
}

/// Estimating is a function of its inputs: any two results for the same quotes and the
/// same settings are one and the same, and for quotes whose amounts are all positive that
/// result is an estimate, not an error.
pub proof fn lemma_estimate_deterministic(
    quote1: Quote,
    quote2: Quote,
    config: Config,
    first: Result<ProfitEstimate, EstimateError>,
    second: Result<ProfitEstimate, EstimateError>,
)
    requires
        first == estimate_of(quote1, quote2, config),
        second == estimate_of(quote1, quote2, config),
    ensures
        first == second,
        quote1.input_amount > 0 && quote1.output_amount > 0 && quote2.input_amount > 0
            ==> first is Ok,
{
}

} // verus!
