//! The `Price` value object: a unit label and an amount held at exactly two
//! fractional digits.

use vstd::prelude::*;
use crate::decimal::{Amount, AmountView, numeral, parsed_decimal, representable};
use vstd::arithmetic::div_mod::lemma_div_denominator;
use crate::text::concat;

verus! {

/// Marker of immutable domain values compared by content.
pub trait ValueObject {

}

/// Number of fractional digits of every price.
pub const PRICE_SCALE: u32 = 2;

pub const UNIT_LABEL: &'static str = "unit:";

pub const VALUE_LABEL: &'static str = " value:";

/// Mathematical model of a `Price`: its unit, and its amount counted in
/// hundredths.
pub ghost struct PriceView {
    pub unit: Seq<char>,
    pub cents: int,
}

/// A decimal numeral that is not a valid amount.
#[derive(Debug, PartialEq, Eq, Structural)]
pub struct ParseError;

/// The canonical two-decimal numeral of a price's amount.
pub open spec fn price_numeral(p: PriceView) -> Seq<char> {
    numeral(p.cents, PRICE_SCALE as nat)
}

/// The descriptive text of a price: `unit:<unit> value:<amount>`.
pub open spec fn price_text(p: PriceView) -> Seq<char> {
    UNIT_LABEL@ + p.unit + VALUE_LABEL@ + price_numeral(p)
}

/// `10^n`.
pub open spec fn pow10(n: nat) -> nat
    decreases n,
{
    if n == 0 {
        1
    } else {
        10 * pow10((n - 1) as nat)
    }
}

/// `mantissa / 10^scale` counted in hundredths: padded with zeros when it has
/// fewer than two fractional digits, the digits past the second dropped
/// (towards zero) when it has more.
pub open spec fn hundredths(mantissa: int, scale: nat) -> int {
    if scale <= 2 {
        mantissa * pow10((2 - scale) as nat)
    } else if mantissa >= 0 {
        mantissa / pow10((scale - 2) as nat) as int
    } else {
        -((-mantissa) / pow10((scale - 2) as nat) as int)
    }
}

proof fn lemma_pow10_positive(n: nat)
    ensures
        pow10(n) >= 1,
    decreases n,
{
    if n > 0 {
        lemma_pow10_positive((n - 1) as nat);
    }
}

/// Re-reading a price's own amount, which has two fractional digits, keeps
/// every hundredth: `from_amount` gives back the same price.
pub proof fn lemma_hundredths_at_price_scale(cents: int)
    ensures
        hundredths(cents, PRICE_SCALE as nat) == cents,
{
    assert(pow10(0) == 1);
    assert(cents * 1 == cents);
}

/// A unit label and an amount with exactly two fractional digits.
#[derive(Debug)]
pub struct Price {
    unit: String,
    value: Amount,
}

impl View for Price {
    type V = PriceView;

    closed spec fn view(&self) -> PriceView {
        PriceView { unit: self.unit@, cents: self.value@.mantissa }
    }
}

impl ValueObject for Price {

}

impl Price {
    #[verifier::type_invariant]
    spec fn inv(&self) -> bool {
        self.value@.scale == PRICE_SCALE
    }

    /// A price of `value` hundredths of the unit (`1` is `0.01`).
    pub fn new(unit: &str, value: i64) -> (r: Price)
        ensures
            r@ == (PriceView { unit: unit@, cents: value as int }),
    {
        Price { unit: unit.to_owned(), value: Amount::new(value, PRICE_SCALE) }
    }

    /// A price whose amount is `value` with its scale forced to two: the
    /// mantissa is kept, so `1` becomes `0.01`.
    pub fn from_dec(unit: &str, value: Amount) -> (r: Price)
        ensures
            r@ == (PriceView { unit: unit@, cents: value@.mantissa }),
    {
        Price { unit: unit.to_owned(), value: value.with_scale(PRICE_SCALE) }
    }

    /// A price read from a decimal numeral, its scale then forced to two as
    /// `from_dec` does; an error where `value` is not a valid numeral.
    pub fn from_str(unit: &str, value: &str) -> (r: Result<Price, ParseError>)
        ensures
            r is Err <==> parsed_decimal(value@) is None,
            r matches Ok(p) ==> p@ == (PriceView {
                unit: unit@,
                cents: parsed_decimal(value@)->0.mantissa,
            }),
    {
        match Amount::parse(value) {
            Some(amount) => Ok(Price::from_dec(unit, amount)),
            None => Err(ParseError),
        }
    }

    /// A price of the same value as `value`, normalized to two fractional
    /// digits: padded with zeros, or with the digits past the second dropped
    /// (towards zero). `None` where the padded amount does not fit.
    pub fn from_amount(unit: &str, value: &Amount) -> (r: Option<Price>)
        ensures
            r is Some <==> representable(
                hundredths(value@.mantissa, value@.scale),
                PRICE_SCALE as nat,
            ),
            r matches Some(p) ==> p@ == (PriceView {
                unit: unit@,
                cents: hundredths(value@.mantissa, value@.scale),
            }),
    {
        let m = value.mantissa();
        let s = value.scale();
        let negative = m < 0;
        let magnitude: u128 = if negative {
            (-m) as u128
        } else {
            m as u128
        };
        let ghost orig = magnitude as int;
        let ghost h = hundredths(m as int, s as nat);
        let mut mag: u128 = magnitude;
        if s == 0 {
            proof {
                assert(pow10(2) == 100) by {
                    reveal_with_fuel(pow10, 3);
                }
                assert(h == m * 100);
            }
            // `MAX_MANTISSA / 100`: the largest magnitude that still fits once padded.
            if mag > 792281625142643375935439503 {
                return None;
            }
            mag = mag * 100;
        } else if s == 1 {
            proof {
                assert(pow10(1) == 10) by {
                    reveal_with_fuel(pow10, 2);
                }
                assert(h == m * 10);
            }
            // `MAX_MANTISSA / 10`: the largest magnitude that still fits once padded.
            if mag > 7922816251426433759354395033 {
                return None;
            }
            mag = mag * 10;
        } else if s > 2 {
            let mut k: u32 = s - 2;
            proof {
                assert(pow10(0) == 1);
                assert(orig / 1 == orig);
            }
            while k > 0
                invariant
                    k <= s - 2,
                    mag as int == orig / pow10((s - 2 - k) as nat) as int,
                    mag <= orig,
                decreases k,
            {
                proof {
                    let d = (s - 2 - k) as nat;
                    lemma_pow10_positive(d);
                    lemma_div_denominator(orig, pow10(d) as int, 10);
                    assert(pow10(d + 1) == 10 * pow10(d));
                    assert(pow10(d) as int * 10 == pow10(d + 1) as int);
                }
                mag = mag / 10;
                k = k - 1;
            }
        } else {
            proof {
                assert(pow10(0) == 1);
                assert(h == m * 1);
            }
        }
        proof {
            assert(mag as int == if negative {
                -h
            } else {
                h
            });
        }
        let cents: i128 = if negative {
            -(mag as i128)
        } else {
            mag as i128
        };
        Some(Price { unit: unit.to_owned(), value: Amount::from_i128_with_scale(cents, PRICE_SCALE) })
    }

    /// The canonical two-decimal numeral of the amount (`"0.01"`, `"25.00"`).
    pub fn get_value_formatted(&self) -> (r: String)
        ensures
            r@ == price_numeral(self@),
    {
        proof {
            use_type_invariant(self);
        }
        self.value.to_text()
    }

    /// The amount, at scale two.
    pub fn get_value(&self) -> (r: Amount)
        ensures
            r@ == (AmountView { mantissa: self@.cents, scale: PRICE_SCALE as nat }),
    {
        proof {
            use_type_invariant(self);
        }
        self.value.duplicate()
    }

    pub fn get_unit(&self) -> (r: &str)
        ensures
            r@ == self@.unit,
    {
        self.unit.as_str()
    }

    /// The descriptive text `unit:<unit> value:<amount>`.
    pub fn to_string(&self) -> (r: String)
        ensures
            r@ == price_text(self@),
    {
        let head = concat(UNIT_LABEL, self.unit.as_str());
        let head = concat(head.as_str(), VALUE_LABEL);
        let amount = self.get_value_formatted();
        concat(head.as_str(), amount.as_str())
    }

    /// A copy of the price.
    pub fn duplicate(&self) -> (r: Price)
        ensures
            r@ == self@,
    {
        proof {
            use_type_invariant(self);
        }
        Price { unit: self.unit.clone(), value: self.value.duplicate() }
    }
}

/// Models of a sequence of prices, in order.
pub open spec fn price_views(prices: Seq<Price>) -> Seq<PriceView> {
    prices.map_values(|p: Price| p@)
}

/// Copies of the prices, in order.
pub(crate) fn copy_prices(prices: &Vec<Price>) -> (r: Vec<Price>)
    ensures
        price_views(r@) == price_views(prices@),
{
    let mut out: Vec<Price> = Vec::new();
    let mut i: usize = 0;
    while i < prices.len()
        invariant
            i <= prices@.len(),
            out@.len() == i,
            forall|j: int| 0 <= j < i ==> #[trigger] out@[j]@ == prices@[j]@,
        decreases prices@.len() - i,
    {
        let p = prices[i].duplicate();
        out.push(p);
        i = i + 1;
    }
    assert(price_views(out@) =~= price_views(prices@));
    out
}

/// The descriptive text of each price, in order.
pub(crate) fn prices_to_strings(prices: &Vec<Price>) -> (r: Vec<String>)
    ensures
        r@.len() == prices@.len(),
        forall|i: int| 0 <= i < r@.len() ==> #[trigger] r@[i]@ == price_text(prices@[i]@),
{
    let mut out: Vec<String> = Vec::new();
    let mut i: usize = 0;
    while i < prices.len()
        invariant
            i <= prices@.len(),
            out@.len() == i,
            forall|j: int| 0 <= j < i ==> #[trigger] out@[j]@ == price_text(prices@[j]@),
        decreases prices@.len() - i,
    {
        let s = prices[i].to_string();
        out.push(s);
        i = i + 1;
    }
    out
}

} // verus!
