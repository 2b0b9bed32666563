use elitebox::volume::{gain_q15, scale_sample_i16, scale_sample_i32, UNITY_GAIN_Q15};

#[test]
fn gain_table_endpoints() {
    assert_eq!(gain_q15(0), UNITY_GAIN_Q15);
    assert_eq!(gain_q15(-60), 33);
    assert_eq!(gain_q15(-6), 16423);
    assert_eq!(gain_q15(-20), 3277);
}

#[test]
fn gain_is_monotone_over_the_whole_range() {
    let mut prev = 0u16;
    for db in -60..=0 {
        let g = gain_q15(db);
        assert!(g > prev);
        prev = g;
    }
}

#[test]
fn zero_db_is_identity_for_every_sample() {
    for s in [i16::MIN, -12345, -1, 0, 1, 12345, i16::MAX] {
        assert_eq!(scale_sample_i16(s, 0), s);
    }
    for s in [i32::MIN, -123456789, -1, 0, 1, 123456789, i32::MAX] {
        assert_eq!(scale_sample_i32(s, 0), s);
    }
}

#[test]
fn repeated_zero_db_scaling_never_drifts() {
    let mut s: i16 = 23456;
    for _ in 0..1000 {
        s = scale_sample_i16(s, 0);
    }
    assert_eq!(s, 23456);
}

#[test]
fn exact_scaled_values() {
    // 10000 * 16423 / 32768, truncated toward zero
    assert_eq!(scale_sample_i16(10000, -6), 5011);
    assert_eq!(scale_sample_i16(-10000, -6), -5011);
    // full-scale negative sample at the lowest volume
    assert_eq!(scale_sample_i16(i16::MIN, -60), -33);
    assert_eq!(scale_sample_i32(1_000_000, -20), 100_006_103 / 1000);
}

#[test]
fn lower_volume_never_increases_amplitude() {
    for s in [i16::MIN, -3000, -1, 0, 1, 3000, i16::MAX] {
        let mut prev_mag = i32::MAX;
        for db in [0, -1, -3, -10, -30, -60] {
            let mag = (scale_sample_i16(s, db) as i32).abs();
            assert!(mag <= prev_mag);
            assert!(mag <= (s as i32).abs());
            prev_mag = mag;
        }
    }
}

#[test]
fn scaling_preserves_sign() {
    for db in -60..=0 {
        assert!(scale_sample_i16(1000, db) >= 0);
        assert!(scale_sample_i16(-1000, db) <= 0);
        assert!(scale_sample_i32(-2_000_000_000, db) <= 0);
    }
}
