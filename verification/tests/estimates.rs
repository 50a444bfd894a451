use dex_arbitrage::config::Config;
use dex_arbitrage::estimator::{estimate, EstimateError, Profit, ProfitEstimate, Ratio};
use dex_arbitrage::policy::{accepts, decide};
use dex_arbitrage::quote::Quote;
use dex_arbitrage::recorder::{draft, Opportunity};
use dex_arbitrage::wide::Wide;

const ONE_BASE: u128 = 1_000_000_000_000_000_000;
const ONE_QUOTE: u128 = 1_000_000;

fn config(threshold: i128) -> Config {
    Config::new(
        ONE_BASE,
        threshold,
        500_000,
        30,
        18,
        6,
        "Uniswap V3".to_string(),
        "QuickSwap V2".to_string(),
    )
    .unwrap()
}

fn quote(input_amount: u128, output_amount: u128, venue: &str) -> Quote {
    Quote { input_amount, output_amount, venue_id: venue.to_string() }
}

fn first_leg() -> Quote {
    quote(ONE_BASE, 3_000 * ONE_QUOTE, "Uniswap V3")
}

fn second_leg() -> Quote {
    quote(3_000 * ONE_QUOTE, 1_020_000_000_000_000_000, "QuickSwap V2")
}

fn as_float(wide: &Wide) -> f64 {
    wide.hi as f64 * 2f64.powi(128) + wide.lo as f64
}

fn gcd(a: u128, b: u128) -> u128 {
    if b == 0 {
        a
    } else {
        gcd(b, a % b)
    }
}

/// The profit as a float, for profits whose numerator fits in one word.
fn profit_in_quote_tokens(profit: &Profit) -> f64 {
    assert_eq!(profit.magnitude.hi, 0);
    let numerator = profit.magnitude.lo;
    let denominator = profit.scale * ONE_QUOTE;
    let common = gcd(numerator, denominator);
    let value = (numerator / common) as f64 / (denominator / common) as f64;
    if profit.negative {
        -value
    } else {
        value
    }
}

#[test]
fn profitable_round_trip_is_estimated_exactly() {
    let estimate = estimate(&first_leg(), &second_leg(), &config(10_000_000)).unwrap();
    // (0.02 * 10^18) * (3000 * 10^6) - 500000 * 10^18 = 59.5 * 10^6 * 10^18
    assert_eq!(
        estimate.simulated_profit,
        Profit {
            negative: false,
            magnitude: Wide { hi: 0, lo: 59_500_000 * ONE_BASE },
            scale: ONE_BASE,
        }
    );
    assert_eq!(profit_in_quote_tokens(&estimate.simulated_profit), 59.5);
}

#[test]
fn first_leg_price_is_three_thousand() {
    let estimate = estimate(&first_leg(), &second_leg(), &config(10_000_000)).unwrap();
    // The buy price is the reciprocal of the first leg's price.
    let buy = estimate.implied_buy_price;
    assert_eq!(buy.numerator, Wide { hi: 0, lo: ONE_BASE * ONE_QUOTE });
    assert_eq!(buy.denominator, Wide { hi: 0, lo: 3_000 * ONE_QUOTE * ONE_BASE });
    assert_eq!(buy.denominator.lo, 3_000 * buy.numerator.lo);
    assert_eq!(as_float(&buy.denominator) / as_float(&buy.numerator), 3000.0);
}

#[test]
fn sell_price_is_the_second_leg_ratio() {
    let estimate = estimate(&first_leg(), &second_leg(), &config(10_000_000)).unwrap();
    assert_eq!(
        estimate.implied_sell_price,
        Ratio {
            numerator: Wide { hi: 0, lo: 1_020_000_000_000_000_000 },
            denominator: Wide { hi: 0, lo: 3_000 * ONE_QUOTE },
        }
    );
}

#[test]
fn profitable_round_trip_is_accepted_and_recorded() {
    let settings = config(10_000_000);
    let estimate = estimate(&first_leg(), &second_leg(), &settings).unwrap();
    assert!(accepts(&estimate, settings.profit_threshold));
    let record = draft(
        &estimate,
        settings.profit_threshold,
        settings.first_venue.clone(),
        settings.second_venue.clone(),
        "2024-05-01 12:00:00 +00:00".to_string(),
    );
    assert_eq!(
        record,
        Some(Opportunity {
            timestamp: "2024-05-01 12:00:00 +00:00".to_string(),
            profit: estimate.simulated_profit,
            buy_venue: "Uniswap V3".to_string(),
            sell_venue: "QuickSwap V2".to_string(),
            buy_price: estimate.implied_buy_price,
            sell_price: estimate.implied_sell_price,
        })
    );
    assert_eq!(profit_in_quote_tokens(&record.unwrap().profit), 59.5);
}

#[test]
fn failed_second_venue_costs_the_offset_and_is_rejected() {
    let settings = config(10_000_000);
    let failed = quote(3_000 * ONE_QUOTE, 0, "QuickSwap V2");
    let estimate = estimate(&first_leg(), &failed, &settings).unwrap();
    assert_eq!(
        estimate.simulated_profit,
        Profit {
            negative: true,
            magnitude: Wide { hi: 0, lo: 500_000 * ONE_BASE },
            scale: ONE_BASE,
        }
    );
    assert_eq!(profit_in_quote_tokens(&estimate.simulated_profit), -0.5);
    assert!(!estimate.actionable);
    assert!(!accepts(&estimate, settings.profit_threshold));
    assert!(!accepts(&estimate, 0));
    assert_eq!(
        draft(&estimate, settings.profit_threshold, "a".to_string(), "b".to_string(), "t".to_string()),
        None
    );
}

#[test]
fn failed_first_venue_is_degenerate_and_rejected() {
    let settings = config(10_000_000);
    let failed = quote(ONE_BASE, 0, "Uniswap V3");
    let second = quote(0, 0, "QuickSwap V2");
    let outcome = estimate(&failed, &second, &settings);
    assert_eq!(outcome, Err(EstimateError::DegenerateQuote));
    assert!(!decide(&outcome, settings.profit_threshold));
    assert!(!decide(&outcome, i128::MIN));
}

#[test]
fn each_zero_divisor_is_degenerate() {
    let settings = config(0);
    assert_eq!(
        estimate(&quote(0, 5, "a"), &quote(5, 5, "b"), &settings),
        Err(EstimateError::DegenerateQuote)
    );
    assert_eq!(
        estimate(&quote(5, 0, "a"), &quote(5, 5, "b"), &settings),
        Err(EstimateError::DegenerateQuote)
    );
    assert_eq!(
        estimate(&quote(5, 5, "a"), &quote(0, 5, "b"), &settings),
        Err(EstimateError::DegenerateQuote)
    );
    assert!(estimate(&quote(5, 5, "a"), &quote(5, 0, "b"), &settings).is_ok());
}

#[test]
fn threshold_equal_to_the_profit_is_rejected() {
    let estimate = estimate(&first_leg(), &second_leg(), &config(59_500_000)).unwrap();
    assert!(!accepts(&estimate, 59_500_000));
    assert_eq!(
        draft(&estimate, 59_500_000, "a".to_string(), "b".to_string(), "t".to_string()),
        None
    );
}

#[test]
fn threshold_one_unit_either_side_of_the_profit() {
    let estimate = estimate(&first_leg(), &second_leg(), &config(0)).unwrap();
    assert!(accepts(&estimate, 59_499_999));
    assert!(!accepts(&estimate, 59_500_000));
    assert!(!accepts(&estimate, 59_500_001));
}

#[test]
fn profit_between_two_units_is_compared_exactly() {
    // Trade 3 units; the round trip returns 1 unit more, valued at 10/3 quote units, at no
    // cost: the profit is three and a third quote units.
    let settings = Config::new(3, 0, 0, 1, 0, 0, "a".to_string(), "b".to_string()).unwrap();
    let estimate = estimate(&quote(3, 10, "a"), &quote(10, 4, "b"), &settings).unwrap();
    assert_eq!(
        estimate.simulated_profit,
        Profit { negative: false, magnitude: Wide { hi: 0, lo: 10 }, scale: 3 }
    );
    assert!(accepts(&estimate, 3));
    assert!(!accepts(&estimate, 4));
}

#[test]
fn loss_on_the_round_trip_is_floored_at_zero() {
    let settings = config(0);
    let losing = quote(3_000 * ONE_QUOTE, ONE_BASE / 2, "QuickSwap V2");
    let break_even = quote(3_000 * ONE_QUOTE, ONE_BASE, "QuickSwap V2");
    let lost = estimate(&first_leg(), &losing, &settings).unwrap();
    let even = estimate(&first_leg(), &break_even, &settings).unwrap();
    assert_eq!(lost.simulated_profit, even.simulated_profit);
    assert_eq!(profit_in_quote_tokens(&lost.simulated_profit), -0.5);
}

#[test]
fn negative_threshold_is_compared_with_its_sign() {
    let settings = config(0);
    // The second venue answers, with less than the trade amount: the profit is -0.5.
    let losing = quote(3_000 * ONE_QUOTE, ONE_BASE / 2, "QuickSwap V2");
    let estimate = estimate(&first_leg(), &losing, &settings).unwrap();
    assert!(estimate.actionable);
    assert_eq!(profit_in_quote_tokens(&estimate.simulated_profit), -0.5);
    assert!(accepts(&estimate, -500_001));
    assert!(!accepts(&estimate, -500_000));
    assert!(!accepts(&estimate, -499_999));
    assert!(accepts(&estimate, i128::MIN));
    assert!(!accepts(&estimate, i128::MAX));
}

#[test]
fn failed_second_venue_is_rejected_at_every_threshold() {
    let settings = config(-1_000_000);
    let failed = quote(3_000 * ONE_QUOTE, 0, "QuickSwap V2");
    let outcome = estimate(&first_leg(), &failed, &settings);
    let estimate = outcome.unwrap();
    // The figures are computed all the same: -0.5 quote tokens.
    assert!(!estimate.actionable);
    assert_eq!(profit_in_quote_tokens(&estimate.simulated_profit), -0.5);
    for threshold in [i128::MIN, -1_000_000, -500_001, -500_000, 0, 1, i128::MAX] {
        assert!(!accepts(&estimate, threshold), "threshold {}", threshold);
        assert!(!decide(&outcome, threshold), "threshold {}", threshold);
        assert_eq!(
            draft(&estimate, threshold, "a".to_string(), "b".to_string(), "t".to_string()),
            None
        );
    }
}

#[test]
fn estimate_is_actionable_when_both_quotes_have_an_output() {
    let settings = config(0);
    assert!(estimate(&first_leg(), &second_leg(), &settings).unwrap().actionable);
    assert!(estimate(&quote(5, 5, "a"), &quote(5, 1, "b"), &settings).unwrap().actionable);
    assert!(!estimate(&quote(5, 5, "a"), &quote(5, 0, "b"), &settings).unwrap().actionable);
}

#[test]
fn estimate_that_is_not_actionable_is_rejected_whatever_its_profit() {
    let settings = config(0);
    let mut estimate = estimate(&first_leg(), &second_leg(), &settings).unwrap();
    assert!(accepts(&estimate, 10_000_000));
    estimate.actionable = false;
    assert!(!accepts(&estimate, 10_000_000));
    assert!(!accepts(&estimate, i128::MIN));
}

#[test]
fn zero_profit_against_zero_and_negative_thresholds() {
    let settings = Config::new(5, 0, 0, 1, 0, 0, "a".to_string(), "b".to_string()).unwrap();
    let estimate = estimate(&quote(5, 5, "a"), &quote(5, 5, "b"), &settings).unwrap();
    assert_eq!(
        estimate.simulated_profit,
        Profit { negative: false, magnitude: Wide { hi: 0, lo: 0 }, scale: 5 }
    );
    assert!(!accepts(&estimate, 0));
    assert!(accepts(&estimate, -1));
    assert!(!accepts(&estimate, 1));
}

#[test]
fn largest_amounts_do_not_overflow() {
    let settings = Config::new(1, i128::MAX, u128::MAX, 1, 38, 38, "a".to_string(), "b".to_string())
        .unwrap();
    let q1 = quote(u128::MAX, u128::MAX, "a");
    let q2 = quote(u128::MAX, u128::MAX, "b");
    let estimate = estimate(&q1, &q2, &settings).unwrap();
    // (2^128 - 2) * (2^128 - 1) - (2^128 - 1)^2 = -(2^128 - 1)
    assert_eq!(
        estimate.simulated_profit,
        Profit { negative: true, magnitude: Wide { hi: 0, lo: u128::MAX }, scale: u128::MAX }
    );
    assert!(!accepts(&estimate, -1));
    assert!(accepts(&estimate, -2));
    assert!(!accepts(&estimate, i128::MAX));
    assert!(accepts(&estimate, i128::MIN));
}

#[test]
fn estimating_twice_gives_the_same_estimate() {
    let settings = config(10_000_000);
    let first: Result<ProfitEstimate, EstimateError> =
        estimate(&first_leg(), &second_leg(), &settings);
    let second = estimate(&first_leg(), &second_leg(), &settings);
    assert_eq!(first, second);
    assert!(first.is_ok());
}

#[test]
fn decide_follows_the_estimate() {
    let settings = config(10_000_000);
    let outcome = estimate(&first_leg(), &second_leg(), &settings);
    assert!(decide(&outcome, 10_000_000));
    assert!(!decide(&outcome, 59_500_000));
    assert!(!decide(&Err(EstimateError::DegenerateQuote), -1));
}
