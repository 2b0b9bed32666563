use vstd::prelude::*;

use vstd::arithmetic::div_mod::{lemma_div_is_ordered, lemma_div_multiples_vanish, lemma_div_pos_is_pos};
use vstd::math::abs;

verus! {

/// Unity gain in the Q15 fixed-point scale: 1.0 == 32768.
pub const UNITY_GAIN_Q15: u16 = 32768;

/// The gain multiplier for a whole-decibel volume between -60 and 0,
/// rounded to Q15 fixed point: 32768 * 10^(db/20). Zero outside that range.
pub open spec fn spec_gain_q15(db: int) -> int {
    if db == -60 {
        33
    } else if db == -59 {
        37
    } else if db == -58 {
        41
    } else if db == -57 {
        46
    } else if db == -56 {
        52
    } else if db == -55 {
        58
    } else if db == -54 {
        65
    } else if db == -53 {
        73
    } else if db == -52 {
        82
    } else if db == -51 {
        92
    } else if db == -50 {
        104
    } else if db == -49 {
        116
    } else if db == -48 {
        130
    } else if db == -47 {
        146
    } else if db == -46 {
        164
    } else if db == -45 {
        184
    } else if db == -44 {
        207
    } else if db == -43 {
        232
    } else if db == -42 {
        260
    } else if db == -41 {
        292
    } else if db == -40 {
        328
    } else if db == -39 {
        368
    } else if db == -38 {
        413
    } else if db == -37 {
        463
    } else if db == -36 {
        519
    } else if db == -35 {
        583
    } else if db == -34 {
        654
    } else if db == -33 {
        734
    } else if db == -32 {
        823
    } else if db == -31 {
        924
    } else if db == -30 {
        1036
    } else if db == -29 {
        1163
    } else if db == -28 {
        1305
    } else if db == -27 {
        1464
    } else if db == -26 {
        1642
    } else if db == -25 {
        1843
    } else if db == -24 {
        2068
    } else if db == -23 {
        2320
    } else if db == -22 {
        2603
    } else if db == -21 {
        2920
    } else if db == -20 {
        3277
    } else if db == -19 {
        3677
    } else if db == -18 {
        4125
    } else if db == -17 {
        4629
    } else if db == -16 {
        5193
    } else if db == -15 {
        5827
    } else if db == -14 {
        6538
    } else if db == -13 {
        7336
    } else if db == -12 {
        8231
    } else if db == -11 {
        9235
    } else if db == -10 {
        10362
    } else if db == -9 {
        11627
    } else if db == -8 {
        13045
    } else if db == -7 {
        14637
    } else if db == -6 {
        16423
    } else if db == -5 {
        18427
    } else if db == -4 {
        20675
    } else if db == -3 {
        23198
    } else if db == -2 {
        26029
    } else if db == -1 {
        29205
    } else if db == 0 {
        32768
    } else {
        0
    }
}

/// Looks up the Q15 gain for a volume in [-60, 0] dB.
pub fn gain_q15(db: i32) -> (g: u16)
    requires
        -60 <= db <= 0,
    ensures
        g == spec_gain_q15(db as int),
        0 < g <= UNITY_GAIN_Q15,
{
    match db {
        -60 => 33,
        -59 => 37,
        -58 => 41,
        -57 => 46,
        -56 => 52,
        -55 => 58,
        -54 => 65,
        -53 => 73,
        -52 => 82,
        -51 => 92,
        -50 => 104,
        -49 => 116,
        -48 => 130,
        -47 => 146,
        -46 => 164,
        -45 => 184,
        -44 => 207,
        -43 => 232,
        -42 => 260,
        -41 => 292,
        -40 => 328,
        -39 => 368,
        -38 => 413,
        -37 => 463,
        -36 => 519,
        -35 => 583,
        -34 => 654,
        -33 => 734,
        -32 => 823,
        -31 => 924,
        -30 => 1036,
        -29 => 1163,
        -28 => 1305,
        -27 => 1464,
        -26 => 1642,
        -25 => 1843,
        -24 => 2068,
        -23 => 2320,
        -22 => 2603,
        -21 => 2920,
        -20 => 3277,
        -19 => 3677,
        -18 => 4125,
        -17 => 4629,
        -16 => 5193,
        -15 => 5827,
        -14 => 6538,
        -13 => 7336,
        -12 => 8231,
        -11 => 9235,
        -10 => 10362,
        -9 => 11627,
        -8 => 13045,
        -7 => 14637,
        -6 => 16423,
        -5 => 18427,
        -4 => 20675,
        -3 => 23198,
        -2 => 26029,
        -1 => 29205,
        0 => 32768,
        _ => 0,
    }
}

/// A sample scaled by the volume's gain. At 0 dB scaling is skipped
/// entirely, so unity gain cannot introduce rounding loss; below that the
/// magnitude is scaled in Q15 and truncated toward zero.
pub open spec fn spec_scale(s: int, db: int) -> int {
    if db == 0 {
        s
    } else if s >= 0 {
        (s * spec_gain_q15(db)) / 32768
    } else {
        -((-s * spec_gain_q15(db)) / 32768)
    }
}

proof fn lemma_gain_in_range(db: int)
    requires
        -60 <= db <= 0,
    ensures
        0 < spec_gain_q15(db) <= 32768,
{
}

pub(crate) proof fn lemma_mul_bound(a: int, b: int, am: int, bm: int)
    requires
        0 <= a <= am,
        0 <= b <= bm,
    ensures
        a * b <= am * bm,
{
    assert(a * b <= am * bm) by (nonlinear_arith)
        requires
            0 <= a <= am,
            0 <= b <= bm,
    ;
}

proof fn lemma_scaled_le(s: int, g: int)
    requires
        0 <= s,
        0 <= g <= 32768,
    ensures
        0 <= (s * g) / 32768 <= s,
{
    assert(0 <= s * g) by (nonlinear_arith)
        requires
            0 <= s,
            0 <= g,
    ;
    assert(s * g <= 32768 * s) by (nonlinear_arith)
        requires
            0 <= s,
            g <= 32768,
    ;
    lemma_div_pos_is_pos(s * g, 32768);
    lemma_div_is_ordered(s * g, 32768 * s, 32768);
    lemma_div_multiples_vanish(s, 32768);
}

proof fn lemma_scaled_ordered(s: int, g1: int, g2: int)
    requires
        0 <= s,
        0 <= g1 <= g2,
    ensures
        (s * g1) / 32768 <= (s * g2) / 32768,
{
    assert(s * g1 <= s * g2) by (nonlinear_arith)
        requires
            0 <= s,
            g1 <= g2,
    ;
    lemma_div_is_ordered(s * g1, s * g2, 32768);
}

/// The gain never rises as the volume falls.
pub proof fn lemma_gain_monotone(d1: int, d2: int)
    requires
        -60 <= d1 <= d2 <= 0,
    ensures
        spec_gain_q15(d1) <= spec_gain_q15(d2),
{
}

/// At 0 dB scaling is the identity, so applying it any number of times
/// leaves every sample exactly as decoded: no drift from repeated no-op
/// scaling.
pub proof fn lemma_unity_gain_identity(s: int)
    ensures
        spec_scale(s, 0) == s,
        spec_scale(spec_scale(s, 0), 0) == s,
{
}

/// Scaling is monotonic in level: a lower volume never increases a sample's
/// amplitude, and no volume in [-60, 0] dB ever amplifies.
pub proof fn lemma_scale_monotone(s: int, d1: int, d2: int)
    requires
        -60 <= d1 <= d2 <= 0,
    ensures
        abs(spec_scale(s, d1)) <= abs(spec_scale(s, d2)) <= abs(s),
{
    lemma_gain_in_range(d1);
    lemma_gain_in_range(d2);
    lemma_gain_monotone(d1, d2);
    let g1 = spec_gain_q15(d1);
    let g2 = spec_gain_q15(d2);
    let m = if s >= 0 { s } else { -s };
    lemma_scaled_le(m, g1);
    lemma_scaled_le(m, g2);
    lemma_scaled_ordered(m, g1, g2);
    if d2 == 0 {
        if d1 < 0 {
            assert(abs(spec_scale(s, d1)) == (m * g1) / 32768);
        }
    } else {
        assert(abs(spec_scale(s, d1)) == (m * g1) / 32768);
        assert(abs(spec_scale(s, d2)) == (m * g2) / 32768);
    }
}

/// Scales one 16-bit sample by the volume's gain, truncating toward zero.
pub fn scale_sample_i16(s: i16, db: i32) -> (r: i16)
    requires
        -60 <= db <= 0,
    ensures
        r as int == spec_scale(s as int, db as int),
        db == 0 ==> r == s,
{
    if db == 0 {
        return s;
    }
    let g = gain_q15(db) as u64;
    if s >= 0 {
        proof {
            lemma_mul_bound(s as int, g as int, 32767, 32768);
        }
        let m = (s as u64 * g) / 32768;
        proof {
            lemma_scaled_le(s as int, g as int);
        }
        m as i16
    } else {
        let neg = (-(s as i64)) as u64;
        proof {
            lemma_mul_bound(neg as int, g as int, 32768, 32768);
        }
        let m = (neg * g) / 32768;
        proof {
            lemma_scaled_le(neg as int, g as int);
        }
        (-(m as i64)) as i16
    }
}

/// Scales one 32-bit-container sample by the volume's gain, truncating
/// toward zero.
pub fn scale_sample_i32(s: i32, db: i32) -> (r: i32)
    requires
        -60 <= db <= 0,
    ensures
        r as int == spec_scale(s as int, db as int),
        db == 0 ==> r == s,
{
    if db == 0 {
        return s;
    }
    let g = gain_q15(db) as u64;
    if s >= 0 {
        proof {
            lemma_mul_bound(s as int, g as int, 2147483647, 32768);
        }
        let m = (s as u64 * g) / 32768;
        proof {
            lemma_scaled_le(s as int, g as int);
        }
        m as i32
    } else {
        let neg = (-(s as i64)) as u64;
        proof {
            lemma_mul_bound(neg as int, g as int, 2147483648, 32768);
        }
        let m = (neg * g) / 32768;
        proof {
            lemma_scaled_le(neg as int, g as int);
        }
        (-(m as i64)) as i32
    }
}

} // verus!
