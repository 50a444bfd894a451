//! The settings of a monitor: loaded once, validated once, never changed afterwards.

use crate::units::{parse_amount, parsed_amount, SignedAmount, MAX_DECIMALS};
use vstd::prelude::*;

verus! {

/// Why a set of values is no usable configuration. Each of these is fatal at startup.
#[derive(Clone, Copy, Debug, PartialEq, Eq)]
pub enum ConfigError {
    /// A token precision is above [`MAX_DECIMALS`].
    UnsupportedPrecision,
    /// The trade amount is no decimal number, is below or equal to zero, or is too large.
    InvalidTradeAmount,
    /// The profit threshold is no decimal number or is too large.
    InvalidThreshold,
    /// The cost offset is no decimal number, is below zero, or is too large.
    InvalidCostOffset,
    /// The polling interval is zero.
    InvalidInterval,
}

/// The settings that the cycle reads.
#[derive(Clone, Debug, PartialEq, Eq)]
pub struct Config {
    /// The fixed size of the simulated trade, in base units of the base token.
    pub trade_amount: u128,
    /// The profit that an estimate must exceed, in base units of the quote token.
    pub profit_threshold: i128,
    /// The constant cost charged to every round trip, in base units of the quote token.
    pub cost_offset: u128,
    /// The pause between two cycles.
    pub polling_interval_seconds: u64,
    /// The number of decimal places of the base token.
    pub base_decimals: u8,
    /// The number of decimal places of the quote token.
    pub quote_decimals: u8,
    /// The label of the venue that quotes the first leg, base token to quote token.
    pub first_venue: String,
    /// The label of the venue that quotes the second leg, quote token to base token.
    pub second_venue: String,
}

impl Config {
    /// A configuration is well formed when the trade amount and the polling interval are
    /// positive and both precisions are supported.
    pub open spec fn wf(&self) -> bool {
        &&& self.trade_amount > 0
        &&& self.polling_interval_seconds > 0
        &&& self.base_decimals <= MAX_DECIMALS
        &&& self.quote_decimals <= MAX_DECIMALS
    }

    /// Tells whether the settings are well formed. A value made by [`Config::new`] or
    /// [`Config::from_text`] is; one whose fields were written afterwards may not be.
    pub fn is_well_formed(&self) -> (r: bool)
        ensures
            r == self.wf(),
    {
        self.trade_amount > 0 && self.polling_interval_seconds > 0 && self.base_decimals
            <= MAX_DECIMALS && self.quote_decimals <= MAX_DECIMALS
    }

    /// The longest that a venue is given to answer, in milliseconds: half the polling
    /// interval, so that a venue that stalls cannot hold up the next cycle.
    pub open spec fn fetch_timeout(&self) -> nat {
        self.polling_interval_seconds as nat * 500
    }

    /// The fetch timeout in milliseconds, capped at the largest `u64`.
    pub fn fetch_timeout_millis(&self) -> (r: u64)
        ensures
            r == if self.fetch_timeout() <= u64::MAX {
                self.fetch_timeout()
            } else {
                u64::MAX as nat
            },
    {
        if self.polling_interval_seconds <= u64::MAX / 500 {
            self.polling_interval_seconds * 500
        } else {
            u64::MAX
        }
    }

    /// What [`Config::new`] returns.
    pub open spec fn validated(
        trade_amount: u128,
        profit_threshold: i128,
        cost_offset: u128,
        polling_interval_seconds: u64,
        base_decimals: u8,
        quote_decimals: u8,
        first_venue: String,
        second_venue: String,
    ) -> Result<Config, ConfigError> {
        if base_decimals > MAX_DECIMALS || quote_decimals > MAX_DECIMALS {
            Err(ConfigError::UnsupportedPrecision)
        } else if trade_amount == 0 {
            Err(ConfigError::InvalidTradeAmount)
        } else if polling_interval_seconds == 0 {
            Err(ConfigError::InvalidInterval)
        } else {
            Ok(
                Config {
                    trade_amount,
                    profit_threshold,
                    cost_offset,
                    polling_interval_seconds,
                    base_decimals,
                    quote_decimals,
                    first_venue,
                    second_venue,
                },
            )
        }
    }

    /// Builds a configuration from amounts that are already in base units.
    pub fn new(
        trade_amount: u128,
        profit_threshold: i128,
        cost_offset: u128,
        polling_interval_seconds: u64,
        base_decimals: u8,
        quote_decimals: u8,
        first_venue: String,
        second_venue: String,
    ) -> (r: Result<Config, ConfigError>)
        ensures
            r == Config::validated(
                trade_amount,
                profit_threshold,
                cost_offset,
                polling_interval_seconds,
                base_decimals,
                quote_decimals,
                first_venue,
                second_venue,
            ),
            r matches Ok(config) ==> config.wf(),
    {
        if base_decimals > MAX_DECIMALS || quote_decimals > MAX_DECIMALS {
            Err(ConfigError::UnsupportedPrecision)
        } else if trade_amount == 0 {
            Err(ConfigError::InvalidTradeAmount)
        } else if polling_interval_seconds == 0 {
            Err(ConfigError::InvalidInterval)
        } else {
            Ok(
                Config {
                    trade_amount,
                    profit_threshold,
                    cost_offset,
                    polling_interval_seconds,
                    base_decimals,
                    quote_decimals,
                    first_venue,
                    second_venue,
                },
            )
        }
    }

    /// The trade amount that a parsed text stands for: it must be positive.
    pub open spec fn trade_amount_of(parsed: Option<SignedAmount>) -> Option<u128> {
        match parsed {
            Some(amount) if amount.value() > 0 => Some(amount.magnitude),
            _ => None,
        }
    }

    /// The threshold that a parsed text stands for: it must fit in an `i128`.
    pub open spec fn threshold_of(parsed: Option<SignedAmount>) -> Option<i128> {
        match parsed {
            Some(amount) if i128::MIN <= amount.value() <= i128::MAX => Some(
                amount.value() as i128,
            ),
            _ => None,
        }
    }

    /// The cost offset that a parsed text stands for: it must not be below zero.
    pub open spec fn cost_offset_of(parsed: Option<SignedAmount>) -> Option<u128> {
        match parsed {
            Some(amount) if amount.value() >= 0 => Some(amount.magnitude),
            _ => None,
        }
    }

    /// What [`Config::from_text`] returns: the three amounts are read at the precision of
    /// their token and the first value that is not usable decides the error.
    pub open spec fn parsed(
        trade_amount: Seq<char>,
        profit_threshold: Seq<char>,
        cost_offset: Seq<char>,
        polling_interval_seconds: u64,
        base_decimals: u8,
        quote_decimals: u8,
        first_venue: String,
        second_venue: String,
    ) -> Result<Config, ConfigError> {
        let trade = Config::trade_amount_of(parsed_amount(trade_amount, base_decimals));
        let threshold = Config::threshold_of(parsed_amount(profit_threshold, quote_decimals));
        let cost = Config::cost_offset_of(parsed_amount(cost_offset, quote_decimals));
        if base_decimals > MAX_DECIMALS || quote_decimals > MAX_DECIMALS {
            Err(ConfigError::UnsupportedPrecision)
        } else if trade is None {
            Err(ConfigError::InvalidTradeAmount)
        } else if threshold is None {
            Err(ConfigError::InvalidThreshold)
        } else if cost is None {
            Err(ConfigError::InvalidCostOffset)
        } else {
            Config::validated(
                trade->0,
                threshold->0,
                cost->0,
                polling_interval_seconds,
                base_decimals,
                quote_decimals,
                first_venue,
                second_venue,
            )
        }
    }

    /// Builds a configuration from decimal amounts as they are written in a settings
    /// document: the trade amount in whole base tokens, threshold and cost offset in whole
    /// quote tokens.
    pub fn from_text(
        trade_amount: &str,
        profit_threshold: &str,
        cost_offset: &str,
        polling_interval_seconds: u64,
        base_decimals: u8,
        quote_decimals: u8,
        first_venue: String,
        second_venue: String,
    ) -> (r: Result<Config, ConfigError>)
        ensures
            r == Config::parsed(
                trade_amount@,
                profit_threshold@,
                cost_offset@,
                polling_interval_seconds,
                base_decimals,
                quote_decimals,
                first_venue,
                second_venue,
            ),
            r matches Ok(config) ==> config.wf(),
    {
        if base_decimals > MAX_DECIMALS || quote_decimals > MAX_DECIMALS {
            return Err(ConfigError::UnsupportedPrecision);
        }
        let trade = match parse_amount(trade_amount, base_decimals) {
            Some(amount) => {
                if amount.negative || amount.magnitude == 0 {
                    return Err(ConfigError::InvalidTradeAmount);
                }
                amount.magnitude
            },
            None => {
                return Err(ConfigError::InvalidTradeAmount);
            },
        };
        let threshold = match parse_amount(profit_threshold, quote_decimals) {
            Some(amount) => match amount.to_i128() {
                Some(value) => value,
                None => {
                    return Err(ConfigError::InvalidThreshold);
                },
            },
            None => {
                return Err(ConfigError::InvalidThreshold);
            },
        };
        let cost = match parse_amount(cost_offset, quote_decimals) {
            Some(amount) => match amount.to_u128() {
                Some(value) => value,
                None => {
                    return Err(ConfigError::InvalidCostOffset);
                },
            },
            None => {
                return Err(ConfigError::InvalidCostOffset);
            },
        };
        Config::new(
            trade,
            threshold,
            cost,
            polling_interval_seconds,
            base_decimals,
            quote_decimals,
            first_venue,
            second_venue,
        )
    }
}

} // verus!
