//! Venue quotes, and the rule that a failed fetch becomes a zero quote instead of an error.

use vstd::prelude::*;

verus! {

/// Why a venue gave no usable quote.
#[derive(Clone, Copy, Debug, PartialEq, Eq)]
pub enum QuoteError {
    /// The venue could not be reached, timed out, or answered with something unreadable.
    QuoteUnavailable,
    /// The venue answered, but the answer holds no output amount.
    QuoteEmpty,
}

/// One venue's answer to the question how much comes out for a given input.
#[derive(Clone, Debug, PartialEq, Eq)]
pub struct Quote {
    /// What goes in, in base units of the input token.
    pub input_amount: u128,
    /// What comes out, in base units of the output token.
    pub output_amount: u128,
    /// The label of the venue that answered.
    pub venue_id: String,
}

impl Quote {
    /// A quote with a zero output stands for a fetch that failed: it carries no signal.
    pub open spec fn is_sentinel(&self) -> bool {
        self.output_amount == 0
    }
}

/// A venue's reply: the amounts along the path, or the reason why there are none.
pub type Reply = Result<Vec<u128>, QuoteError>;

/// The output amount that a reply realizes: the last of the amounts along the path. A
/// path has at least two tokens, so a reply with fewer amounts is empty.
pub open spec fn realized_output_of(reply: Reply) -> Result<u128, QuoteError> {
    match reply {
        Ok(amounts) => if amounts@.len() >= 2 {
            Ok(amounts@[amounts@.len() - 1])
        } else {
            Err(QuoteError::QuoteEmpty)
        },
        Err(error) => Err(error),
    }
}

/// Reads the realized output amount from a reply.
pub fn realized_output(reply: &Reply) -> (r: Result<u128, QuoteError>)
    ensures
        r == realized_output_of(*reply),
{
    match reply {
        Ok(amounts) => {
            if amounts.len() >= 2 {
                Ok(amounts[amounts.len() - 1])
            } else {
                Err(QuoteError::QuoteEmpty)
            }
        },
        Err(error) => Err(*error),
    }
}

/// The quote that a reply resolves to: its realized output, or the zero sentinel where the
/// fetch failed.
pub open spec fn resolved_quote(reply: Reply, input_amount: u128, venue_id: String) -> Quote {
    Quote {
        input_amount,
        output_amount: match realized_output_of(reply) {
            Ok(output) => output,
            Err(_) => 0,
        },
        venue_id,
    }
}

/// Turns a reply into a quote. A failure is not passed on: it yields the zero sentinel, so
/// that an outage of one venue never stops the cycle.
pub fn resolve_quote(reply: &Reply, input_amount: u128, venue_id: String) -> (r: Quote)
    ensures
        r == resolved_quote(*reply, input_amount, venue_id),
        realized_output_of(*reply) is Err ==> r.is_sentinel(),
{
    let output_amount = match realized_output(reply) {
        Ok(output) => output,
        Err(_) => 0,
    };
    Quote { input_amount, output_amount, venue_id }
}

} // verus!
