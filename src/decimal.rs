//! Scaled decimals: an integer mantissa and a count of decimal places.
use vstd::prelude::*;

use crate::error::ConversionError;
use crate::hugeint::{hugeint_from_i128, hugeint_of, Hugeint};
use crate::text::nat_digits;

verus! {

/// The largest scale that a decimal can have.
pub const MAX_SCALE: u32 = 28;

/// The largest magnitude of a mantissa: 2^96 - 1.
pub const MAX_MANTISSA: i128 = 0xFFFF_FFFF_FFFF_FFFF_FFFF_FFFF;

/// The number `mantissa / 10^scale`.
#[derive(Clone, Copy, Debug, PartialEq, Eq, Structural)]
pub struct DecimalValue {
    pub mantissa: i128,
    pub scale: u32,
}

/// Whether a mantissa and a scale make a decimal without loss.
pub open spec fn representable(mantissa: int, scale: int) -> bool {
    0 <= scale <= MAX_SCALE && -MAX_MANTISSA <= mantissa <= MAX_MANTISSA
}

/// Relies on rust_decimal's `Decimal::try_from_i128_with_scale`, which refuses a scale above
/// 28 and a mantissa beyond 2^96 - 1 in magnitude and otherwise keeps both, as `mantissa` and
/// `scale` then return.
#[verifier::external_body]
fn checked_decimal(mantissa: i128, scale: u32) -> (r: Option<(i128, u32)>)
    ensures
        r is Some <==> representable(mantissa as int, scale as int),
        r matches Some(p) ==> p.0 == mantissa && p.1 == scale,
{
    rust_decimal::Decimal::try_from_i128_with_scale(mantissa, scale).ok().map(
        |d| (d.mantissa(), d.scale()),
    )
}

/// A decimal from its mantissa and scale, or `PrecisionLoss` where it cannot be held.
pub fn decimal_from_parts(mantissa: i128, scale: u32) -> (r: Result<DecimalValue, ConversionError>)
    ensures
        r is Ok <==> representable(mantissa as int, scale as int),
        r matches Ok(d) ==> d == (DecimalValue { mantissa, scale }),
        r matches Err(e) ==> e is PrecisionLoss,
{
    match checked_decimal(mantissa, scale) {
        Some(p) => Ok(DecimalValue { mantissa: p.0, scale: p.1 }),
        None => Err(ConversionError::PrecisionLoss("decimal out of range".to_owned())),
    }
}

/// A decimal as the engine takes it: total digits, digits after the point, and the unscaled
/// integer in two-limb form.
#[derive(Clone, Copy, Debug, PartialEq, Eq, Structural)]
pub struct NativeDecimal {
    pub width: u8,
    pub scale: u8,
    pub value: Hugeint,
}

/// Width given to the engine for a mantissa and a scale: the length of the mantissa's decimal
/// text (sign included), raised to one more than the scale when the scale reaches it, then
/// less one for a negative mantissa.
pub open spec fn native_width(mantissa: int, scale: int) -> int {
    let magnitude = if mantissa < 0 { -mantissa } else { mantissa };
    let text_len = nat_digits(magnitude as nat).len() + if mantissa < 0 { 1int } else { 0int };
    let w = if scale >= text_len { scale + 1 } else { text_len };
    if mantissa < 0 { w - 1 } else { w }
}

proof fn lemma_digits_len(n: nat)
    ensures
        1 <= nat_digits(n).len() <= n + 1,
    decreases n,
{
    if n >= 10 {
        lemma_digits_len(n / 10);
    }
}

fn digit_count(n: u128) -> (r: u128)
    ensures
        r == nat_digits(n as nat).len(),
    decreases n,
{
    proof {
        lemma_digits_len(n as nat);
    }
    if n < 10 {
        1
    } else {
        let d = digit_count(n / 10);
        proof {
            lemma_digits_len((n / 10) as nat);
        }
        d + 1
    }
}

impl DecimalValue {
    /// The decimal as the engine takes it, or `PrecisionLoss` where the scale or the width
    /// does not fit in a byte.
    pub fn to_native(&self) -> (r: Result<NativeDecimal, ConversionError>)
        ensures
            r is Ok <==> self.scale <= 255 && native_width(self.mantissa as int, self.scale as int) <= 255,
            r matches Ok(n) ==> n.scale == self.scale && n.width as int == native_width(
                self.mantissa as int,
                self.scale as int,
            ) && n.value == hugeint_of(self.mantissa as int),
            r matches Err(e) ==> e is PrecisionLoss,
    {
        if self.scale > 255 {
            return Err(
                ConversionError::PrecisionLoss("Decimal scale exceeds maximum value of u8".to_owned()),
            );
        }
        let m = self.mantissa;
        let magnitude: u128 = if m < 0 {
            (-(m + 1)) as u128 + 1
        } else {
            m as u128
        };
        let digits = digit_count(magnitude);
        proof {
            lemma_digits_len(magnitude as nat);
            assert(magnitude < 0x8000_0000_0000_0000_0000_0000_0000_0001);
        }
        let text_len: u128 = if m < 0 { digits + 1 } else { digits };
        let scale = self.scale as u128;
        let w: u128 = if scale >= text_len { scale + 1 } else { text_len };
        let width: u128 = if m < 0 { w - 1 } else { w };
        if width > 255 {
            return Err(ConversionError::PrecisionLoss("Decimal width exceeds 255 digits".to_owned()));
        }
        Ok(NativeDecimal { width: width as u8, scale: self.scale as u8, value: hugeint_from_i128(m) })
    }
}

} // verus!
