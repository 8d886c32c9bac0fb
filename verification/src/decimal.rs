//! Exact base-10 fixed-point prices and quantities.
//!
//! Wire prices arrive as decimal text and are never held as binary floating
//! point: a value is a 96-bit integer mantissa together with a power-of-ten
//! scale. Parsing the text is delegated to the `rust_decimal` crate; the
//! library holds the parsed parts as plain integers.
use vstd::prelude::*;

verus! {

/// A base-10 fixed-point number: `mantissa / 10^scale`.
#[derive(Clone, Copy, Debug, PartialEq, Eq, Structural)]
pub struct FixedDecimal {
    pub mantissa: i128,
    pub scale: u32,
}

impl FixedDecimal {
    /// The bounds `rust_decimal` documents: a 96-bit mantissa and a
    /// fractional scale of at most 28 digits.
    pub open spec fn wf(self) -> bool {
        &&& self.scale <= 28
        &&& -0x1000000000000000000000000 < self.mantissa < 0x1000000000000000000000000
    }

    pub open spec fn spec_zero() -> FixedDecimal {
        FixedDecimal { mantissa: 0, scale: 0 }
    }

    /// The value a price defaults to before any event has set it.
    pub fn zero() -> (r: FixedDecimal)
        ensures
            r == FixedDecimal::spec_zero(),
            r.wf(),
    {
        FixedDecimal { mantissa: 0, scale: 0 }
    }
}

/// What `rust_decimal` parses a given text to, if anything: a function of the
/// characters alone.
pub uninterp spec fn decimal_of(s: Seq<char>) -> Option<FixedDecimal>;

/// Relies on `rust_decimal::Decimal`'s `FromStr` and on its `mantissa` and
/// `scale` accessors: the parse is a function of the text alone, and every
/// parsed value has a 96-bit mantissa and a scale of at most 28.
#[verifier::external_body]
fn parse_decimal(s: &str) -> (r: Option<FixedDecimal>)
    ensures
        r == decimal_of(s@),
        r matches Some(d) ==> d.wf(),
{
    match s.parse::<rust_decimal::Decimal>() {
        Ok(d) => Some(FixedDecimal { mantissa: d.mantissa(), scale: d.scale() }),
        Err(_) => None,
    }
}

/// The decoded form of a wire price: the parsed value, or zero where the text
/// does not parse.
pub open spec fn spec_price_or_zero(s: Seq<char>) -> FixedDecimal {
    match decimal_of(s) {
        Some(d) => d,
        None => FixedDecimal::spec_zero(),
    }
}

/// Decode a wire price. A missing or unparsable price defaults to zero rather
/// than failing the batch it arrived in.
pub fn parse_price_or_zero(s: &str) -> (r: FixedDecimal)
    ensures
        r == spec_price_or_zero(s@),
        r.wf(),
{
    match parse_decimal(s) {
        Some(d) => d,
        None => FixedDecimal::zero(),
    }
}

} // verus!
