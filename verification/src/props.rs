//! The codec's laws, stated and proved once for all inputs.

use vstd::prelude::*;

verus! {

use core::cmp::Ordering;
use vstd::std_specs::cmp::PartialOrdSpec;
use crate::CoarseLogProb;
use crate::CODE_SPAN;
use crate::MIN_LOG_UNITS;
use crate::quantize;
use crate::unquantize;
use crate::rounding::round_div;
use crate::rounding::lemma_round_div_error;
use crate::rounding::lemma_round_div_le;
use crate::rounding::lemma_round_div_ordered;
use crate::rounding::lemma_round_div_exact;

/// Clamping (floor): every value below the representable minimum decodes to
/// the highest code, the one `CoarseLogProb::min_value` holds.
pub proof fn lemma_decode_clamps_to_min(units: int)
    requires
        units < MIN_LOG_UNITS as int,
    ensures
        quantize(units) == CODE_SPAN as int,
{
}

/// Clamping (ceiling): every value at or above zero decodes to code 0, the
/// one `CoarseLogProb::unity` holds.
pub proof fn lemma_decode_clamps_to_unity(units: int)
    requires
        units >= 0,
    ensures
        quantize(units) == 0,
{
}

/// Every input decodes to a code within the 16-bit range.
pub proof fn lemma_quantize_in_range(units: int)
    ensures
        0 <= quantize(units),
        quantize(units) <= CODE_SPAN as int,
{
    if MIN_LOG_UNITS as int <= units < 0 {
        let num = (-units) * (CODE_SPAN as int);
        lemma_round_div_error(num, -(MIN_LOG_UNITS as int));
        lemma_round_div_le(num, -(MIN_LOG_UNITS as int), CODE_SPAN as int);
    }
}

/// Monotonicity: decoding never increases as the input increases — a larger
/// (less negative) log probability never gets a larger code.
pub proof fn lemma_decode_monotonic(v1: int, v2: int)
    requires
        v1 <= v2,
        v2 <= 0,
    ensures
        quantize(v1) >= quantize(v2),
{
    lemma_quantize_in_range(v1);
    lemma_quantize_in_range(v2);
    let m = -(MIN_LOG_UNITS as int);
    if MIN_LOG_UNITS as int <= v1 && v2 < 0 {
        lemma_round_div_ordered((-v2) * (CODE_SPAN as int), (-v1) * (CODE_SPAN as int), m);
    }
}

/// Approximate round trip: for an in-range value, encoding its decoded code
/// lands within one quantization increment of the value. One increment is
/// `-MIN_LOG_UNITS / CODE_SPAN` units (about 133.27, i.e. about 0.0013327
/// nats), so the difference, scaled by `CODE_SPAN`, stays within
/// `-MIN_LOG_UNITS`.
pub proof fn lemma_round_trip_within_increment(units: int)
    requires
        MIN_LOG_UNITS as int <= units,
        units <= 0,
    ensures
        (CODE_SPAN as int) * (unquantize(quantize(units)) - units) <= -(MIN_LOG_UNITS as int),
        (CODE_SPAN as int) * (units - unquantize(quantize(units))) <= -(MIN_LOG_UNITS as int),
{
    let span = CODE_SPAN as int;
    let m = -(MIN_LOG_UNITS as int);
    if units == 0 {
        lemma_round_div_exact(0, span);
    } else {
        let n = -units;
        let c = round_div(n * span, m);
        lemma_round_div_error(n * span, m);
        let e = round_div(c * m, span);
        lemma_round_div_error(c * m, span);
        assert(2 * (span * e - n * span) <= m + span);
        assert(-(m + span) <= 2 * (span * e - n * span));
        assert(span * (e - n) == span * e - n * span) by (nonlinear_arith);
    }
}

/// Constant consistency: encoding the canonical values is exact. Code 0
/// (unity) recovers log probability zero, and the highest code (the minimum)
/// recovers the clamp bound itself — so certainly within one code step of it.
/// Decoding the two bounds gives those codes back exactly.
pub proof fn lemma_constants_consistent()
    ensures
        unquantize(0) == 0,
        unquantize(CODE_SPAN as int) == MIN_LOG_UNITS as int,
        quantize(0) == 0,
        quantize(MIN_LOG_UNITS as int) == CODE_SPAN as int,
{
    lemma_round_div_exact(0, CODE_SPAN as int);
    lemma_round_div_exact(-(MIN_LOG_UNITS as int), CODE_SPAN as int);
    lemma_round_div_exact(CODE_SPAN as int, -(MIN_LOG_UNITS as int));
}

/// Reversed comparison law: comparison yields `Greater` exactly when the
/// first value's code is the smaller one, `Less` exactly when it is the
/// larger one, and `Equal` exactly on equal codes.
pub proof fn lemma_reversed_comparison(a: CoarseLogProb, b: CoarseLogProb)
    ensures
        (a.partial_cmp_spec(&b) == Some(Ordering::Greater)) <==> (a.code_spec() < b.code_spec()),
        (a.partial_cmp_spec(&b) == Some(Ordering::Less)) <==> (a.code_spec() > b.code_spec()),
        (a.partial_cmp_spec(&b) == Some(Ordering::Equal)) <==> (a.code_spec() == b.code_spec()),
{
}

} // verus!
