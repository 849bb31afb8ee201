use dsu_motion::decoder::{accel_from_buffer, gyro_from_buffer};
use dsu_motion::normalize::{
    convert_gyro_to_dps, smooth_accel, ACCEL_COUNTS_PER_G, GYRO_COUNTS_PER_DPS, SMOOTH_ONE,
};

const TEST_INPUT_A: [u8; 64] = [
    0x1, 0, 0x9, 0x40, 0xc8, 0x98, 0x0a, 0,
    0, 0, 0, 0, 0, 0, 0, 0,
    0, 0, 0, 0, 0, 0, 0, 0,
    0x2d, 0, 0xdc, 1, 0xcb, 0x3f, 8, 0,
    2, 0, 1, 0, 0x90, 0x77, 0x56, 0,
    0xec, 0xfe, 0x52, 0xd2, 0, 0, 0, 0,
    0x90, 3, 0xac, 0xfa, 0x16, 0xfd, 0x7d, 0xfe,
    0, 0, 0, 0, 0, 0, 0, 0,
];

const TEST_INPUT_B: [u8; 64] = [
    0x1, 0, 0x9, 0x40, 0xc8, 0x98, 0x0a, 0,
    0, 0, 0, 0, 0, 0, 0, 0,
    0, 0, 0, 0, 0, 0, 0, 0,
    0x46, 0, 0x3e, 1, 0x8b, 0x3f, 0xfc, 0xff,
    1, 0, 0xfe, 0xff, 0x90, 0x77, 0x56, 0,
    0xec, 0xfe, 0x52, 0xd2, 0, 0, 0, 0,
    0x90, 0x03, 0xac, 0xfa, 0x16, 0xfd, 0xa8, 0xfe,
    0, 0, 0, 0, 0, 0, 0, 0,
];

/// A smoothing state as an acceleration in g.
fn state_to_g(state: u64) -> f64 {
    state as f64 / (SMOOTH_ONE as f64 * ACCEL_COUNTS_PER_G as f64)
}

/// The blend branch of the filter, written out: 19/20 of the previous
/// state plus 1/20 of the current reading.
fn blend(prev: u64, curr: u16) -> u64 {
    (19 * prev + curr as u64 * SMOOTH_ONE) / 20
}

#[test]
fn test_smooth_accel() {
    // Buffer A from a zero filter state: the small x and y jumps blend,
    // the large z jump snaps to the current reading.
    let (ax, ay, az) = accel_from_buffer(&TEST_INPUT_A);
    let sx = smooth_accel(0, ax);
    let sy = smooth_accel(0, ay);
    let sz = smooth_accel(0, az);
    assert_eq!(sx, blend(0, 220));
    assert_eq!(sy, blend(0, 459));
    assert_eq!(sz, 16136 * SMOOTH_ONE);
    assert!((state_to_g(sx) - 0.0006713867).abs() < 1e-6);
    assert!((state_to_g(sy) - 0.0014007569).abs() < 1e-6);
    assert!((state_to_g(sz) - 0.9848633).abs() < 1e-6);

    // Buffer B smoothed against the raw readings of buffer A: all three
    // jumps are below the threshold and blend.
    let (bx, by, bz) = accel_from_buffer(&TEST_INPUT_B);
    let s2x = smooth_accel(ax as u64 * SMOOTH_ONE, bx);
    let s2y = smooth_accel(ay as u64 * SMOOTH_ONE, by);
    let s2z = smooth_accel(az as u64 * SMOOTH_ONE, bz);
    assert_eq!(s2x, blend(220 * SMOOTH_ONE, 62));
    assert_eq!(s2y, blend(459 * SMOOTH_ONE, 395));
    assert_eq!(s2z, blend(16136 * SMOOTH_ONE, 16380));
    assert!((state_to_g(s2x) - 0.012945557).abs() < 1e-6);
    assert!((state_to_g(s2y) - 0.027819823).abs() < 1e-6);
    assert!((state_to_g(s2z) - 0.9856079).abs() < 1e-6);
}

#[test]
fn test_convert_gyro() {
    let to_dps = |v: u16| convert_gyro_to_dps(v) as f32 / GYRO_COUNTS_PER_DPS as f32;
    let (gx, gy, gz) = gyro_from_buffer(&TEST_INPUT_A);
    assert_eq!((to_dps(gx), to_dps(gy), to_dps(gz)), (0.0, 0.0, 9.0));
    let (gx, gy, gz) = gyro_from_buffer(&TEST_INPUT_B);
    assert_eq!((to_dps(gx), to_dps(gy), to_dps(gz)), (4080.0625, 15.875, 4089.0));
}

#[test]
fn test_smoothing_threshold_edges() {
    // A jump one count below the threshold still blends.
    assert_eq!(smooth_accel(0, 510), blend(0, 510));
    // A jump of exactly the threshold snaps.
    assert_eq!(smooth_accel(0, 511), 511 * SMOOTH_ONE);
}

#[test]
fn test_gyro_deadzone_edges() {
    assert_eq!(convert_gyro_to_dps(0), 0);
    assert_eq!(convert_gyro_to_dps(7), 0);
    // The deadzone is strict: eight counts already converts, to half a
    // degree per second.
    assert_eq!(convert_gyro_to_dps(8), 8);
    assert_eq!(convert_gyro_to_dps(8) as f32 / 16.0, 0.5);
    assert_eq!(convert_gyro_to_dps(65535), 65535);
}
