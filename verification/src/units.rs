//! Decimal scaling: the one place where decimal text and token precisions are turned into
//! integer amounts.

use ethers_core::utils::ParseUnits;
use vstd::prelude::*;

verus! {

/// The largest token precision supported: ten to this power still fits in a `u128`.
pub const MAX_DECIMALS: u8 = 38;

/// The longest decimal text, digits and precision together, that is parsed.
pub const MAX_PARSE_WIDTH: usize = 76;

/// Ten to the power `n`.
pub open spec fn pow10(n: nat) -> nat
    decreases n,
{
    if n == 0 {
        1
    } else {
        10 * pow10((n - 1) as nat)
    }
}

/// Powers of ten grow with the exponent.
pub proof fn lemma_pow10_monotonic(i: nat, j: nat)
    requires
        i <= j,
    ensures
        0 < pow10(i) <= pow10(j),
    decreases j,
{
    if j == 0 {
    } else if i == j {
        lemma_pow10_monotonic((i - 1) as nat, (j - 1) as nat);
    } else {
        lemma_pow10_monotonic(i, (j - 1) as nat);
    }
}

/// The largest supported scale factor, written out.
pub proof fn lemma_pow10_max()
    ensures
        pow10(MAX_DECIMALS as nat) == 100_000_000_000_000_000_000_000_000_000_000_000_000,
        pow10(MAX_DECIMALS as nat) <= u128::MAX,
{
    reveal_with_fuel(pow10, 39);
}

/// The number of base units in one whole token of the given precision.
pub fn scale_factor(decimals: u8) -> (r: u128)
    requires
        decimals <= MAX_DECIMALS,
    ensures
        r == pow10(decimals as nat),
        r > 0,
{
    let mut r: u128 = 1;
    let mut i: u8 = 0;
    while i < decimals
        invariant
            i <= decimals <= MAX_DECIMALS,
            r == pow10(i as nat),
        decreases decimals - i,
    {
        proof {
            lemma_pow10_monotonic((i + 1) as nat, MAX_DECIMALS as nat);
            lemma_pow10_max();
        }
        r = r * 10;
        i = i + 1;
    }
    proof {
        lemma_pow10_monotonic(0, decimals as nat);
    }
    r
}

/// A signed amount in base units, as sign and magnitude.
#[derive(Clone, Copy, Debug, PartialEq, Eq)]
pub struct SignedAmount {
    pub negative: bool,
    pub magnitude: u128,
}

impl SignedAmount {
    /// The integer that sign and magnitude denote.
    pub open spec fn value(&self) -> int {
        if self.negative {
            -(self.magnitude as int)
        } else {
            self.magnitude as int
        }
    }

    /// The amount as a signed word, where it fits.
    pub fn to_i128(&self) -> (r: Option<i128>)
        ensures
            r == if i128::MIN <= self.value() <= i128::MAX {
                Some(self.value() as i128)
            } else {
                None
            },
    {
        if !self.negative {
            if self.magnitude <= i128::MAX as u128 {
                Some(self.magnitude as i128)
            } else {
                None
            }
        } else if self.magnitude <= i128::MAX as u128 {
            Some(-(self.magnitude as i128))
        } else if self.magnitude == i128::MAX as u128 + 1 {
            Some(i128::MIN)
        } else {
            None
        }
    }

    /// The amount as an unsigned word, where it is not below zero.
    pub fn to_u128(&self) -> (r: Option<u128>)
        ensures
            r == if self.value() >= 0 {
                Some(self.value() as u128)
            } else {
                None
            },
    {
        if !self.negative || self.magnitude == 0 {
            Some(self.magnitude)
        } else {
            None
        }
    }
}

/// What `ethers_core::utils::parse_units` makes of a decimal text and a precision: nothing
/// where it reports an error, else whether the number came back as a signed integer, and
/// the four 64-bit words of its 256-bit representation, least significant first.
pub uninterp spec fn parse_units_result(amount: Seq<char>, decimals: u32) -> Option<(bool, Seq<u64>)>;

/// Calls `ethers_core::utils::parse_units`, which reads `amount` as a decimal number and
/// multiplies it by ten to the power `decimals`.
///
/// Trusted: the result is a function of the two arguments alone. An unsigned result is
/// handed on as its words; a signed one as the words of its two's complement form. The
/// text must be ASCII, because the outside function cuts it at byte offsets, and text and
/// precision together must stay within [`MAX_PARSE_WIDTH`], because its 256-bit
/// multiplication panics on overflow.
#[verifier::external_body]
fn parse_units_words(amount: &str, decimals: u32) -> (r: Option<(bool, [u64; 4])>)
    requires
        vstd::utf8::is_ascii_chars(amount@),
        amount@.len() + decimals <= MAX_PARSE_WIDTH,
    ensures
        match r {
            Some((signed, words)) => parse_units_result(amount@, decimals) == Some(
                (signed, words@),
            ),
            None => parse_units_result(amount@, decimals) is None,
        },
{
    match ethers_core::utils::parse_units(amount, decimals) {
        Ok(ParseUnits::U256(value)) => Some((false, value.0)),
        Ok(ParseUnits::I256(value)) => Some((true, value.into_raw().0)),
        Err(_) => None,
    }
}

/// The unsigned number that four 64-bit words denote, least significant first.
pub open spec fn words_value(words: Seq<u64>) -> nat {
    words[0] as nat + words[1] as nat * 0x1_0000_0000_0000_0000 + words[2] as nat
        * 0x1_0000_0000_0000_0000_0000_0000_0000_0000 + words[3] as nat
        * 0x1_0000_0000_0000_0000_0000_0000_0000_0000_0000_0000_0000_0000
}

/// The integer that four words denote: read as two's complement where `signed` is set,
/// as an unsigned number where it is not.
pub open spec fn words_integer(signed: bool, words: Seq<u64>) -> int {
    if signed && words[3] >= 0x8000_0000_0000_0000 {
        words_value(words)
            - 0x1_0000_0000_0000_0000_0000_0000_0000_0000_0000_0000_0000_0000_0000_0000_0000_0000
    } else {
        words_value(words) as int
    }
}

/// The amount that four words denote, where its magnitude fits in a `u128`.
pub open spec fn amount_of_words(signed: bool, words: Seq<u64>) -> Option<SignedAmount> {
    let value = words_integer(signed, words);
    if words.len() == 4 && -(u128::MAX as int) <= value <= u128::MAX as int {
        Some(SignedAmount { negative: value < 0, magnitude: vstd::math::abs(value) as u128 })
    } else {
        None
    }
}

/// Narrows a 256-bit integer, given as four 64-bit words with the least significant
/// first, to a [`SignedAmount`].
pub fn amount_from_words(signed: bool, words: &[u64; 4]) -> (r: Option<SignedAmount>)
    ensures
        r == amount_of_words(signed, words@),
        r matches Some(amount) ==> amount.value() == words_integer(signed, words@),
{
    let low: u128 = (words[1] as u128) * 0x1_0000_0000_0000_0000 + words[0] as u128;
    if !signed || words[3] < 0x8000_0000_0000_0000 {
        if words[2] == 0 && words[3] == 0 {
            Some(SignedAmount { negative: false, magnitude: low })
        } else {
            None
        }
    } else if words[2] == u64::MAX && words[3] == u64::MAX && low != 0 {
        Some(SignedAmount { negative: true, magnitude: (u128::MAX - low) + 1 })
    } else {
        None
    }
}

/// The amount in base units that a decimal text denotes at a given precision.
///
/// There is none where the text is not ASCII, the precision is above [`MAX_DECIMALS`],
/// text and precision together are wider than [`MAX_PARSE_WIDTH`], the text is no decimal
/// number, or the scaled magnitude does not fit in a `u128`.
pub open spec fn parsed_amount(text: Seq<char>, decimals: u8) -> Option<SignedAmount> {
    if !vstd::utf8::is_ascii_chars(text) || decimals > MAX_DECIMALS || text.len() + decimals
        > MAX_PARSE_WIDTH {
        None
    } else {
        match parse_units_result(text, decimals as u32) {
            Some((signed, words)) => amount_of_words(signed, words),
            None => None,
        }
    }
}

/// Reads a decimal text such as `"1.5"` as an amount in base units of a token with
/// `decimals` decimal places.
pub fn parse_amount(text: &str, decimals: u8) -> (r: Option<SignedAmount>)
    ensures
        r == parsed_amount(text@, decimals),
{
    if !text.is_ascii() || decimals > MAX_DECIMALS {
        return None;
    }
    proof {
        vstd::utf8::is_ascii_chars_encode_utf8(text@);
        assert(vstd::utf8::encode_utf8(text@).len() == text@.len());
    }
    if text.as_bytes().len() > MAX_PARSE_WIDTH - decimals as usize {
        return None;
    }
    match parse_units_words(text, decimals as u32) {
        Some((signed, words)) => amount_from_words(signed, &words),
        None => None,
    }
}

} // verus!
