use dsu_motion::error::DsuError;
use dsu_motion::hid::{
    build_configure_report, select_controller, HidDeviceId, SteamControllerProvider,
    GYRO_MODE_SEND_RAW, STEAM_DECK_PRODUCT_ID, VALVE_VENDOR_ID,
};
use dsu_motion::normalize::SMOOTH_ONE;
use dsu_motion::provider::{get_provider, make_provider, BackendKind, DsuProvider, PollInput};
use dsu_motion::sdl::{JoystickEvent, SdlProvider};

const TEST_INPUT_A: [u8; 64] = [
    0x1, 0, 0x9, 0x40, 0xc8, 0x98, 0x0a, 0,
    0, 0, 0, 0, 0, 0, 0, 0,
    0, 0, 0, 0, 0, 0, 0, 0,
    0x2d, 0, 0xdc, 1, 0xcb, 0x3f, 8, 0,
    2, 0, 1, 0, 0x90, 0x77, 0x56, 0,
    0xec, 0xfe, 0x52, 0xd2, 0, 0, 0, 0,
    0x90, 3, 0xac, 0xfa, 0x16, 0xfd, 0x7d, 0xfe,
    0, 0, 0, 0, 0, 0, 0, 0,
];

const TEST_INPUT_B: [u8; 64] = [
    0x1, 0, 0x9, 0x40, 0xc8, 0x98, 0x0a, 0,
    0, 0, 0, 0, 0, 0, 0, 0,
    0, 0, 0, 0, 0, 0, 0, 0,
    0x46, 0, 0x3e, 1, 0x8b, 0x3f, 0xfc, 0xff,
    1, 0, 0xfe, 0xff, 0x90, 0x77, 0x56, 0,
    0xec, 0xfe, 0x52, 0xd2, 0, 0, 0, 0,
    0x90, 0x03, 0xac, 0xfa, 0x16, 0xfd, 0xa8, 0xfe,
    0, 0, 0, 0, 0, 0, 0, 0,
];

fn blend(prev: u64, curr: u16) -> u64 {
    (19 * prev + curr as u64 * SMOOTH_ONE) / 20
}

fn state_to_g(state: u64) -> f64 {
    state as f64 / (SMOOTH_ONE as f64 * 16384.0)
}

#[test]
fn test_no_device_reads_zero() {
    let steam = SteamControllerProvider::new();
    assert_eq!(steam.accelerometer_reading(), (0, 0, 0));
    assert_eq!(steam.gyro_reading(), (0, 0, 0));
    let sdl = SdlProvider::new();
    assert_eq!(sdl.accelerometer_reading(), (0, 0, 0));
    assert_eq!(sdl.gyro_reading(), (0, 0, 0));
    let p = get_provider();
    assert_eq!(p.accelerometer_reading(), (0, 0, 0));
    assert_eq!(p.gyro_reading(), (0, 0, 0));
}

#[test]
fn test_backend_selection() {
    assert!(matches!(get_provider(), DsuProvider::SteamController(_)));
    assert!(matches!(
        make_provider(BackendKind::SteamController),
        DsuProvider::SteamController(_),
    ));
    let p = make_provider(BackendKind::Sdl);
    assert!(matches!(p, DsuProvider::Sdl(_)));
    assert_eq!(p.accelerometer_reading(), (0, 0, 0));
}

#[test]
fn test_hid_pipeline_fixture_a() {
    let mut p = SteamControllerProvider::new();
    p.attach();
    assert_eq!(p.poll_report(&TEST_INPUT_A.to_vec()), Ok(()));
    let (sx, sy, sz) = p.accelerometer_reading();
    assert_eq!((sx, sy, sz), (blend(0, 220), blend(0, 459), 16136 * SMOOTH_ONE));
    assert!((state_to_g(sx) - 0.0006713867).abs() < 1e-6);
    assert!((state_to_g(sy) - 0.0014007569).abs() < 1e-6);
    assert!((state_to_g(sz) - 0.9848633).abs() < 1e-6);
    // Raw gyro counts (2, 1, 144): the two inside the deadzone clamp to
    // zero, the third converts to 9 deg/s.
    let (gx, gy, gz) = p.gyro_reading();
    assert_eq!((gx, gy, gz), (0, 0, 144));
    assert_eq!(gz as f32 / 16.0, 9.0);
}

#[test]
fn test_hid_pipeline_fixture_b_after_a() {
    let mut p = SteamControllerProvider::new();
    p.attach();
    assert_eq!(p.poll_report(&TEST_INPUT_A.to_vec()), Ok(()));
    let prev = p.accelerometer_reading();
    assert_eq!(p.poll_report(&TEST_INPUT_B.to_vec()), Ok(()));
    // All three jumps stay below the threshold and blend against the
    // provider's persisted filter state.
    let (sx, sy, sz) = p.accelerometer_reading();
    assert_eq!((sx, sy, sz), (blend(prev.0, 62), blend(prev.1, 395), blend(prev.2, 16380)));
    // Gyro has no temporal state; buffer B alone fixes it.
    let (gx, gy, gz) = p.gyro_reading();
    assert_eq!((gx, gy, gz), (0xff01, 0x00fe, 0xff90));
    assert_eq!(
        (gx as f32 / 16.0, gy as f32 / 16.0, gz as f32 / 16.0),
        (4080.0625, 15.875, 4089.0),
    );
}

#[test]
fn test_poll_without_device_is_device_not_found() {
    let mut p = SteamControllerProvider::new();
    assert_eq!(p.poll_report(&TEST_INPUT_A.to_vec()), Err(DsuError::DeviceNotFound));
    assert_eq!(p.accelerometer_reading(), (0, 0, 0));
}

#[test]
fn test_short_report_keeps_state() {
    let mut p = SteamControllerProvider::new();
    p.attach();
    assert_eq!(p.poll_report(&TEST_INPUT_A.to_vec()), Ok(()));
    let before = p.accelerometer_reading();
    assert_eq!(p.poll_report(&vec![0u8; 12]), Err(DsuError::Decode));
    assert_eq!(p.accelerometer_reading(), before);
}

#[test]
fn test_provider_poll_inputs() {
    let mut p = get_provider();
    // A read failure is a transport error and keeps the state.
    assert_eq!(p.poll_events(&PollInput::HidReadFailed), Err(DsuError::Transport));
    // A vanished device detaches the backend.
    assert_eq!(p.poll_events(&PollInput::HidNoDevice), Err(DsuError::DeviceNotFound));
    assert_eq!(p.accelerometer_reading(), (0, 0, 0));
    // Joystick events are not for this backend: a successful no-op.
    assert_eq!(
        p.poll_events(&PollInput::JoystickHotplug(vec![(JoystickEvent::Added(0), true)])),
        Ok(()),
    );
    assert_eq!(p.poll_events(&PollInput::HidReport(TEST_INPUT_A.to_vec())),
        Err(DsuError::DeviceNotFound));
}

#[test]
fn test_configure_failure_detaches() {
    let mut p = SteamControllerProvider::new();
    p.attach();
    assert_eq!(p.on_configure_result(true), Ok(()));
    assert!(p.attached);
    assert_eq!(p.on_configure_result(false), Err(DsuError::Configuration));
    assert!(!p.attached);
}

#[test]
fn test_configure_report_layout() {
    let r = build_configure_report(0x1234, GYRO_MODE_SEND_RAW);
    assert_eq!(r.len(), 64);
    assert_eq!(r[0], 0x87);
    assert_eq!(r[1], 0x15);
    assert_eq!(r[2], 0x32);
    assert_eq!((r[3], r[4]), (0x34, 0x12));
    for i in 5..18 {
        assert_eq!(r[i], 0);
    }
    assert_eq!(r[18], 0x18);
    for i in 19..64 {
        assert_eq!(r[i], 0);
    }
}

#[test]
fn test_select_controller() {
    let deck = HidDeviceId { vendor_id: VALVE_VENDOR_ID, product_id: STEAM_DECK_PRODUCT_ID };
    let other = HidDeviceId { vendor_id: 0x054c, product_id: 0x05c4 };
    assert_eq!(select_controller(&Vec::new()), None);
    assert_eq!(select_controller(&vec![deck, deck]), None);
    assert_eq!(select_controller(&vec![deck, deck, deck]), Some(2));
    // The third matching interface is picked, entries of other hardware
    // do not count.
    assert_eq!(select_controller(&vec![other, deck, deck, other, deck, deck]), Some(4));
}

#[test]
fn test_sdl_hotplug_and_axes() {
    let mut p = SdlProvider::new();
    p.apply_hotplug(&JoystickEvent::Added(0), true);
    assert!(p.attached);
    p.set_axes((10, -20, 30), (-40, 50, -60));
    assert_eq!(p.accelerometer_reading(), (10, -20, 30));
    assert_eq!(p.gyro_reading(), (-40, 50, -60));
    // Events of other joystick indices change nothing.
    p.apply_hotplug(&JoystickEvent::Removed(3), false);
    assert!(p.attached);
    p.apply_hotplug(&JoystickEvent::Removed(0), false);
    assert!(!p.attached);
    assert_eq!(p.accelerometer_reading(), (0, 0, 0));
    // A connection whose open attempt failed stays detached.
    p.apply_hotplug(&JoystickEvent::Added(0), false);
    assert!(!p.attached);
}

#[test]
fn test_sdl_hotplug_batch_via_provider() {
    let mut p = DsuProvider::Sdl(SdlProvider::new());
    let batch = vec![
        (JoystickEvent::Other, false),
        (JoystickEvent::Added(0), true),
        (JoystickEvent::Added(1), false),
    ];
    assert_eq!(p.poll_events(&PollInput::JoystickHotplug(batch)), Ok(()));
    if let DsuProvider::Sdl(s) = &p {
        assert!(s.attached);
    } else {
        panic!("wrong backend");
    }
    // HID inputs are not for this backend: a successful no-op.
    assert_eq!(p.poll_events(&PollInput::HidNoDevice), Ok(()));
}
