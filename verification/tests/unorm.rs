use acoustic_field_viewer::unorm::{
    drive_phase, unorm16, unorm8_floor, unorm8_round, UNORM16_ONE,
};

#[test]
fn round_exact_values() {
    assert_eq!(unorm8_round(0), 0);
    assert_eq!(unorm8_round(128), 0);
    assert_eq!(unorm8_round(129), 1);
    assert_eq!(unorm8_round(257), 1);
    assert_eq!(unorm8_round(32767), 127);
    assert_eq!(unorm8_round(32768), 128);
    assert_eq!(unorm8_round(65406), 254);
    assert_eq!(unorm8_round(65407), 255);
    assert_eq!(unorm8_round(UNORM16_ONE), 255);
}

#[test]
fn floor_exact_values() {
    assert_eq!(unorm8_floor(0), 0);
    assert_eq!(unorm8_floor(256), 0);
    assert_eq!(unorm8_floor(257), 1);
    assert_eq!(unorm8_floor(65534), 254);
    assert_eq!(unorm8_floor(UNORM16_ONE), 255);
}

#[test]
fn widen_exact_values() {
    assert_eq!(unorm16(0), 0);
    assert_eq!(unorm16(1), 257);
    assert_eq!(unorm16(128), 32896);
    assert_eq!(unorm16(255), UNORM16_ONE);
}

#[test]
fn round_trip_stays_within_one_step_of_eight_bits() {
    for v in 0..=u16::MAX {
        let back = unorm16(unorm8_round(v));
        let d = if back > v { back - v } else { v - back };
        assert!(d <= 128, "{} came back as {}", v, back);
        assert!(u32::from(d) * 255 <= 65535);
    }
}

#[test]
fn round_trip_in_real_units() {
    let tau = 2.0 * std::f64::consts::PI;
    for v in (0..=u16::MAX).step_by(97) {
        let phase = f64::from(v) / 65535.0 * tau;
        let decoded = f64::from(unorm8_round(v)) / 255.0 * tau;
        assert!((phase - decoded).abs() <= tau / 255.0);
        let amp = f64::from(v) / 65535.0;
        let decoded = f64::from(unorm8_round(v)) / 255.0;
        assert!((amp - decoded).abs() <= 1.0 / 255.0);
    }
}

#[test]
fn bytes_survive_widening() {
    for b in 0..=u8::MAX {
        assert_eq!(unorm8_round(unorm16(b)), b);
        assert_eq!(unorm8_floor(unorm16(b)), b);
    }
}

#[test]
fn device_phase_counts_backwards() {
    assert_eq!(drive_phase(0), UNORM16_ONE);
    assert_eq!(drive_phase(255), 0);
    assert_eq!(drive_phase(1), 65278);
    assert_eq!(drive_phase(128), 32639);
    for p in 0..=u8::MAX {
        assert_eq!(unorm8_round(drive_phase(p)), 255 - p);
    }
}
