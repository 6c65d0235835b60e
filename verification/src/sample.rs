//! Audio samples and the reduction from raw chip output to 16-bit range.
//!
//! The chip emits stereo pairs of wide integers. One output sample is made by
//! shifting each raw value right by five bits (an arithmetic shift, i.e.
//! division by 32 rounding toward negative infinity) and then hard-clamping
//! into the signed 16-bit range — never wrapping.

use vstd::prelude::*;

verus! {

/// One stereo output sample. Both channels are within `[-32768, 32767]` by
/// construction of the type.
#[derive(Clone, Copy, Debug, PartialEq, Eq, Structural)]
pub struct SamplePair {
    pub left: i16,
    pub right: i16,
}

/// `v` clamped into the signed 16-bit range.
pub open spec fn clamp_i16(v: int) -> int {
    if v < -32768 {
        -32768
    } else if v > 32767 {
        32767
    } else {
        v
    }
}

/// The scaled value of one raw channel: an arithmetic right shift by five
/// bits (`/ 32` rounds toward negative infinity on `int`), then a hard
/// clamp.
pub open spec fn scale_raw(v: int) -> int {
    clamp_i16(v / 32)
}

/// Both channels of a raw pair scaled into one sample.
pub open spec fn scale_pair(out: (i32, i32)) -> SamplePair {
    SamplePair { left: scale_raw(out.0 as int) as i16, right: scale_raw(out.1 as int) as i16 }
}

/// The scaled value of any raw channel lies in the signed 16-bit range, and
/// whenever the shifted value already lies in that range the clamp returns it
/// unchanged: out-of-range values saturate, they never wrap.
pub proof fn lemma_scale_raw_in_range(v: int)
    ensures
        -32768 <= scale_raw(v) <= 32767,
        -32768 <= v / 32 <= 32767 ==> scale_raw(v) == v / 32,
{
}

/// Scale one raw chip channel into 16-bit range: shift right by five bits,
/// clamp on overflow.
pub fn scale_sample(raw: i32) -> (s: i16)
    ensures
        s as int == scale_raw(raw as int),
{
    if raw >= 0 {
        let q: i32 = raw / 32;
        if q > 32767 {
            32767
        } else {
            q as i16
        }
    } else {
        // floor division of a negative value: -((-v + 31) / 32), computed in
        // a wider type so that the negation cannot overflow
        let neg: i64 = -(raw as i64);
        let q: i64 = (neg + 31) / 32;
        proof {
            lemma_neg_div32(raw as int);
        }
        if q > 32768 {
            -32768
        } else {
            (-q) as i16
        }
    }
}

/// For negative `v`, division by 32 rounding toward negative infinity equals
/// the negated rounding-up division of the magnitude.
proof fn lemma_neg_div32(v: int)
    requires
        v < 0,
    ensures
        v / 32 == -((-v + 31) / 32),
{
    let d = v / 32;
    let r = v % 32;
    assert(v == 32 * d + r && 0 <= r < 32) by {
        vstd::arithmetic::div_mod::lemma_fundamental_div_mod(v, 32);
    }
    assert(-v + 31 == 32 * (-d) + (31 - r));
    assert((-v + 31) / 32 == -d && (-v + 31) % 32 == 31 - r) by {
        vstd::arithmetic::div_mod::lemma_fundamental_div_mod_converse(-v + 31, 32, -d, 31 - r);
    }
}

} // verus!
