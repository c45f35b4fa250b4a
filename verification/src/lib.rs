//! A compact, quantized representation of a log probability.
//!
//! A log probability (the natural logarithm of a probability, a value in
//! `[-87.33655, 0]` nats) is stored as a 16-bit unsigned code, halving the
//! storage of a single-precision float where low precision can be tolerated.
//! Code 0 stands for log probability 0 (certainty); code 65535 stands for the
//! smallest representable log probability, about `-87.33655` nats — the
//! natural log of the smallest positive normal single-precision float.
//! Larger codes mean smaller (more negative) log probabilities.
//!
//! The codec itself works in fixed point: a log probability `x` is handed in
//! and out as `x * 100_000` rounded to an `i64`, that is, in units of
//! `1/100_000` nat (the constant [`UNITS_PER_NAT`]). One code step spans
//! about 133.27 such units (about `0.0013327` nats). Callers that hold log
//! probabilities as floats convert at the boundary; every special value a
//! float conversion can produce is absorbed by the codec's clamping.
//!
//! Out-of-range inputs are never an error: values below the floor saturate to
//! [`CoarseLogProb::min_value`], values at or above zero to
//! [`CoarseLogProb::unity`]. Rounding is to the nearest code, halves away
//! from zero (the divisors are odd, so exact halves cannot arise).

use vstd::prelude::*;

pub mod props;
pub mod rounding;

use rounding::round_div;
use rounding::round_div_u64;
use rounding::lemma_round_div_le;
use rounding::lemma_round_div_error;

verus! {

use core::cmp::Ordering;

/// Fixed-point units per nat: log probabilities enter and leave the codec
/// scaled by this factor.
pub const UNITS_PER_NAT: i64 = 100_000;

/// The lower clamp bound in fixed-point units: `-87.33655` nats, the natural
/// log of the smallest positive normal single-precision float, times
/// [`UNITS_PER_NAT`].
pub const MIN_LOG_UNITS: i64 = -8_733_655;

/// The number of codes above zero: quantization maps the span
/// `[MIN_LOG_UNITS, 0]` onto the codes `[65535, 0]`.
pub const CODE_SPAN: u16 = 65_535;

/// What decoding a log probability yields: the quantized code as an integer.
///
/// Values below the floor clamp to the highest code, values at or above zero
/// to code 0; in between, the value's share of the representable span is
/// rounded to the nearest code.
pub open spec fn quantize(units: int) -> int {
    if units < MIN_LOG_UNITS as int {
        CODE_SPAN as int
    } else if units >= 0 {
        0
    } else {
        round_div((-units) * (CODE_SPAN as int), -(MIN_LOG_UNITS as int))
    }
}

/// What encoding a code yields: the fixed-point log probability nearest to
/// the code's share of the representable span, never positive.
pub open spec fn unquantize(code: int) -> int {
    -round_div(code * -(MIN_LOG_UNITS as int), CODE_SPAN as int)
}

/// A log probability quantized to a 16-bit code.
///
/// The code is opaque: construction goes through [`CoarseLogProb::from_log_units`],
/// [`CoarseLogProb::from_code`], or the two canonical values
/// [`CoarseLogProb::min_value`] and [`CoarseLogProb::unity`]. Values are
/// immutable and freely copyable.
#[derive(Clone, Copy, Debug, PartialEq, Eq, Structural)]
pub struct CoarseLogProb(u16);

impl CoarseLogProb {
    /// The smallest representable log probability, about `-87.33655` nats:
    /// the canonical value holding the highest code.
    pub fn min_value() -> (r: CoarseLogProb)
        ensures
            r.code_spec() == CODE_SPAN,
    {
        CoarseLogProb(CODE_SPAN)
    }

    /// The unity probability (1 in real space, 0 in log space): the
    /// canonical value holding code 0.
    pub fn unity() -> (r: CoarseLogProb)
        ensures
            r.code_spec() == 0,
    {
        CoarseLogProb(0)
    }

    /// The stored code, for specification purposes.
    pub closed spec fn code_spec(self) -> u16 {
        self.0
    }

    /// Quantizes a fixed-point log probability (units of `1/100_000` nat).
    ///
    /// Values below [`MIN_LOG_UNITS`] clamp to [`CoarseLogProb::min_value`];
    /// values at or above zero clamp to [`CoarseLogProb::unity`]; in between,
    /// the nearest code is chosen. Total: no input is rejected.
    pub fn from_log_units(units: i64) -> (r: CoarseLogProb)
        ensures
            r.code_spec() as int == quantize(units as int),
    {
        if units < MIN_LOG_UNITS {
            CoarseLogProb(CODE_SPAN)
        } else if units >= 0 {
            CoarseLogProb(0)
        } else {
            let mag: u64 = (-units) as u64;
            let num: u64 = mag * 65_535;
            let code: u64 = round_div_u64(num, (-MIN_LOG_UNITS) as u64);
            proof {
                lemma_round_div_error(num as int, -(MIN_LOG_UNITS as int));
                lemma_round_div_le(num as int, -(MIN_LOG_UNITS as int), CODE_SPAN as int);
            }
            CoarseLogProb(code as u16)
        }
    }

    /// Recovers the fixed-point log probability nearest to the stored code.
    ///
    /// This is the lossy approximate inverse of [`CoarseLogProb::from_log_units`]:
    /// the result is within one code step of the value that was quantized
    /// (see [`props::lemma_round_trip_within_increment`]).
    pub fn to_log_units(self) -> (r: i64)
        ensures
            r as int == unquantize(self.code_spec() as int),
    {
        let prod: u64 = (self.0 as u64) * 8_733_655;
        let back: u64 = round_div_u64(prod, CODE_SPAN as u64);
        proof {
            lemma_round_div_error(prod as int, CODE_SPAN as int);
            lemma_round_div_le(prod as int, CODE_SPAN as int, -(MIN_LOG_UNITS as int));
        }
        -(back as i64)
    }

    /// Wraps a raw 16-bit code. Every code is valid.
    pub fn from_code(code: u16) -> (r: CoarseLogProb)
        ensures
            r.code_spec() == code,
    {
        CoarseLogProb(code)
    }

    /// The raw 16-bit code.
    pub fn code(self) -> (c: u16)
        ensures
            c == self.code_spec(),
    {
        self.0
    }
}

/// The order the codec induces on codes: a smaller code means a larger
/// (closer to zero) log probability, so raw code order is reversed.
pub open spec fn compare_codes(a: u16, b: u16) -> Ordering {
    if a < b {
        Ordering::Greater
    } else if a > b {
        Ordering::Less
    } else {
        Ordering::Equal
    }
}

impl PartialOrd for CoarseLogProb {
    /// Orders by the implied real-valued log probability, which is the
    /// reverse of raw code order: the smaller code is the greater value.
    fn partial_cmp(&self, other: &Self) -> (r: Option<Ordering>) {
        if self.0 < other.0 {
            Some(Ordering::Greater)
        } else if self.0 > other.0 {
            Some(Ordering::Less)
        } else {
            Some(Ordering::Equal)
        }
    }
}

impl vstd::std_specs::cmp::PartialOrdSpecImpl for CoarseLogProb {
    open spec fn obeys_partial_cmp_spec() -> bool {
        true
    }

    open spec fn partial_cmp_spec(&self, other: &Self) -> Option<Ordering> {
        Some(compare_codes(self.code_spec(), other.code_spec()))
    }
}

} // verus!
