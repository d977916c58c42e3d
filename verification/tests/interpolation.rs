use fs3000_rs::{interpolate, raw_to_velocity, CalPoint, DeviceType, FS3000_1005, FS3000_1015};

fn assert_close_1005(input: u16, expected: f64) {
    let result: f64 = raw_to_velocity::<FS3000_1005>(input) as f64 / 1e6;
    let diff: f64 = (result - expected).abs();
    assert!(
        diff < 1e-3,
        "Expected {} and got {}, which differs by {} (allowed error 1e-3) for input {}",
        expected,
        result,
        diff,
        input
    );
}

#[test]
fn test_raw_to_meters_per_second_1005() {
    // Use known datapoints for FS3000_1005.
    assert_close_1005(409, 0.0);
    assert_close_1005(915, 1.07);
    assert_close_1005(1522, 2.01);
    assert_close_1005(3686, 7.23);

    // Test interpolation between two points -- 50% between 915 and 1522.
    let mid: u16 = (915 + 1522) / 2;
    let expected: f64 = (1.07 + 2.01) / 2.0;
    assert_close_1005(mid, expected);
}

#[test]
fn test_midpoint_exact_micrometers() {
    // Halfway between (915, 1.07 m/s) and (1522, 2.01 m/s):
    // 1_070_000 + (1218 - 915) * 940_000 / 607, rounded down.
    assert_eq!(raw_to_velocity::<FS3000_1005>(1218), 1_539_225);
}

#[test]
fn test_floor_clamp() {
    // Below the first threshold (409 on both tables) the velocity is zero.
    assert_eq!(raw_to_velocity::<FS3000_1005>(0), 0);
    assert_eq!(raw_to_velocity::<FS3000_1005>(408), 0);
    assert_eq!(raw_to_velocity::<FS3000_1015>(0), 0);
    assert_eq!(raw_to_velocity::<FS3000_1015>(408), 0);
}

#[test]
fn test_ceiling_clamp() {
    // At or above the last threshold the last calibrated velocity holds.
    assert_eq!(raw_to_velocity::<FS3000_1005>(3686), 7_230_000);
    assert_eq!(raw_to_velocity::<FS3000_1005>(4095), 7_230_000);
    assert_eq!(raw_to_velocity::<FS3000_1005>(0xFFFF), 7_230_000);
    assert_eq!(raw_to_velocity::<FS3000_1015>(3686), 15_000_000);
    assert_eq!(raw_to_velocity::<FS3000_1015>(4095), 15_000_000);
}

#[test]
fn test_exact_points() {
    // Every calibration threshold converts to exactly its own velocity.
    for p in FS3000_1005::datapoints() {
        assert_eq!(raw_to_velocity::<FS3000_1005>(p.raw), p.velocity);
    }
    for p in FS3000_1015::datapoints() {
        assert_eq!(raw_to_velocity::<FS3000_1015>(p.raw), p.velocity);
    }
}

#[test]
fn test_interpolate_custom_table() {
    // A two-point table: 0 m/s at raw 100, 1 m/s at raw 200.
    let table = vec![
        CalPoint { raw: 100, velocity: 0 },
        CalPoint { raw: 200, velocity: 1_000_000 },
    ];
    assert_eq!(interpolate(99, &table), 0);
    assert_eq!(interpolate(100, &table), 0);
    assert_eq!(interpolate(150, &table), 500_000);
    assert_eq!(interpolate(175, &table), 750_000);
    assert_eq!(interpolate(200, &table), 1_000_000);
    assert_eq!(interpolate(250, &table), 1_000_000);
}

#[test]
fn test_monotonic_over_full_range() {
    // The conversion is non-decreasing over the whole 12-bit range.
    let mut prev: u32 = 0;
    let mut m: u16 = 0;
    while m <= 4095 {
        let v: u32 = raw_to_velocity::<FS3000_1005>(m);
        assert!(v >= prev, "velocity decreased at input {}", m);
        prev = v;
        m += 1;
    }
    let mut prev: u32 = 0;
    let mut m: u16 = 0;
    while m <= 4095 {
        let v: u32 = raw_to_velocity::<FS3000_1015>(m);
        assert!(v >= prev, "velocity decreased at input {}", m);
        prev = v;
        m += 1;
    }
}
