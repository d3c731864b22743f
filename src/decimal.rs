//! Fixed-point decimal amounts: an integer mantissa `m` and a scale `s`
//! standing for `m / 10^s`, as `rust_decimal` represents them.

use vstd::prelude::*;
use rust_decimal::Decimal;

verus! {

/// Largest magnitude of a mantissa: 96 bits.
pub const MAX_MANTISSA: i128 = 0xFFFF_FFFF_FFFF_FFFF_FFFF_FFFF;

/// Largest scale: 28 fractional digits.
pub const MAX_SCALE: u32 = 28;

/// Mathematical model of an `Amount`: the value `mantissa / 10^scale`,
/// written with exactly `scale` fractional digits.
pub ghost struct AmountView {
    pub mantissa: int,
    pub scale: nat,
}

/// Whether a mantissa and a scale are representable.
pub open spec fn representable(mantissa: int, scale: nat) -> bool {
    -(MAX_MANTISSA as int) <= mantissa <= MAX_MANTISSA as int && scale <= MAX_SCALE as nat
}

/// A decimal amount `mantissa / 10^scale`.
#[derive(Debug, PartialEq, Eq, Structural)]
pub struct Amount {
    mantissa: i128,
    scale: u32,
}

impl View for Amount {
    type V = AmountView;

    closed spec fn view(&self) -> AmountView {
        AmountView { mantissa: self.mantissa as int, scale: self.scale as nat }
    }
}

/// Decimal digit of `d`, for `0 <= d < 10`.
pub open spec fn decimal_digit(d: int) -> char {
    seq!['0', '1', '2', '3', '4', '5', '6', '7', '8', '9'][d]
}

/// The decimal digits of `n`, most significant first, without leading zeros
/// (empty for zero).
pub open spec fn decimal_digits(n: nat) -> Seq<char>
    decreases n,
{
    if n == 0 {
        Seq::empty()
    } else {
        decimal_digits(n / 10).push(decimal_digit((n % 10) as int))
    }
}

/// `d` with zeros prepended up to `width` characters.
pub open spec fn zero_padded(d: Seq<char>, width: nat) -> Seq<char> {
    if d.len() < width {
        Seq::new((width - d.len()) as nat, |i: int| '0') + d
    } else {
        d
    }
}

/// The numeral of `n / 10^scale` for a natural `n`: the whole part ("0" when
/// it has no digit), then, when `scale > 0`, a '.' and exactly `scale`
/// fractional digits.
pub open spec fn unsigned_numeral(n: nat, scale: nat) -> Seq<char> {
    let d = zero_padded(decimal_digits(n), scale);
    let whole = d.subrange(0, d.len() - scale);
    let whole_text = if whole.len() == 0 {
        seq!['0']
    } else {
        whole
    };
    if scale == 0 {
        whole_text
    } else {
        whole_text + seq!['.'] + d.subrange(d.len() - scale, d.len() as int)
    }
}

/// The numeral of `mantissa / 10^scale`, with a leading '-' when negative.
pub open spec fn numeral(mantissa: int, scale: nat) -> Seq<char> {
    if mantissa < 0 {
        seq!['-'] + unsigned_numeral((-mantissa) as nat, scale)
    } else {
        unsigned_numeral(mantissa as nat, scale)
    }
}

/// What `Decimal::from_str_exact` yields on a string: `None` where it fails.
pub uninterp spec fn parsed_decimal(s: Seq<char>) -> Option<AmountView>;

/// Relies on `rust_decimal::Decimal::from_i128_with_scale` and the `Display`
/// of `Decimal`: the digits of the mantissa with the point placed `scale`
/// digits from the right, a leading "0" before a bare point, and a '-' for a
/// negative value.
#[verifier::external_body]
fn decimal_text(mantissa: i128, scale: u32) -> (r: String)
    requires
        representable(mantissa as int, scale as nat),
    ensures
        r@ == numeral(mantissa as int, scale as nat),
{
    Decimal::from_i128_with_scale(mantissa, scale).to_string()
}

/// Relies on `rust_decimal::Decimal::from_str_exact` and on `mantissa` and
/// `scale` of the `Decimal` it returns, which are always representable.
#[verifier::external_body]
fn parse_decimal_exact(s: &str) -> (r: Option<(i128, u32)>)
    ensures
        r is None <==> parsed_decimal(s@) is None,
        r matches Some(p) ==> representable(p.0 as int, p.1 as nat) && parsed_decimal(s@) == Some(
            AmountView { mantissa: p.0 as int, scale: p.1 as nat },
        ),
{
    match Decimal::from_str_exact(s) {
        Ok(d) => Some((d.mantissa(), d.scale())),
        Err(_) => None,
    }
}

impl Amount {
    #[verifier::type_invariant]
    spec fn inv(&self) -> bool {
        representable(self.mantissa as int, self.scale as nat)
    }

    /// `num / 10^scale`.
    pub fn new(num: i64, scale: u32) -> (r: Amount)
        requires
            scale <= MAX_SCALE,
        ensures
            r@ == (AmountView { mantissa: num as int, scale: scale as nat }),
    {
        Amount { mantissa: num as i128, scale }
    }

    /// `num / 10^scale`, for a representable mantissa and scale.
    pub fn from_i128_with_scale(num: i128, scale: u32) -> (r: Amount)
        requires
            representable(num as int, scale as nat),
        ensures
            r@ == (AmountView { mantissa: num as int, scale: scale as nat }),
    {
        Amount { mantissa: num, scale }
    }

    /// Parses a decimal numeral, exactly; `None` where it is not one or does
    /// not fit.
    pub fn parse(s: &str) -> (r: Option<Amount>)
        ensures
            r is None <==> parsed_decimal(s@) is None,
            r matches Some(a) ==> parsed_decimal(s@) == Some(a@),
    {
        match parse_decimal_exact(s) {
            Some((m, sc)) => Some(Amount { mantissa: m, scale: sc }),
            None => None,
        }
    }

    pub fn mantissa(&self) -> (r: i128)
        ensures
            r == self@.mantissa,
            -MAX_MANTISSA <= r <= MAX_MANTISSA,
    {
        proof {
            use_type_invariant(self);
        }
        self.mantissa
    }

    pub fn scale(&self) -> (r: u32)
        ensures
            r == self@.scale,
            r <= MAX_SCALE,
    {
        proof {
            use_type_invariant(self);
        }
        self.scale
    }

    /// The same mantissa read at another scale (`1` at scale 2 is `0.01`).
    pub fn with_scale(&self, scale: u32) -> (r: Amount)
        requires
            scale <= MAX_SCALE,
        ensures
            r@ == (AmountView { mantissa: self@.mantissa, scale: scale as nat }),
    {
        proof {
            use_type_invariant(self);
        }
        Amount { mantissa: self.mantissa, scale }
    }

    /// A copy of the amount.
    pub fn duplicate(&self) -> (r: Amount)
        ensures
            r@ == self@,
    {
        proof {
            use_type_invariant(self);
        }
        Amount { mantissa: self.mantissa, scale: self.scale }
    }

    /// The canonical numeral of the amount, with exactly `scale` fractional
    /// digits.
    pub fn to_text(&self) -> (r: String)
        ensures
            r@ == numeral(self@.mantissa, self@.scale),
    {
        proof {
            use_type_invariant(self);
        }
        decimal_text(self.mantissa, self.scale)
    }
}

} // verus!
