use vstd::prelude::*;

use crate::decoder::{spec_accel_raw, spec_gyro_raw, REPORT_LEN};
use crate::error::DsuError;
use crate::normalize::{
    accel_state_wf, convert_gyro_to_dps, smooth_accel, spec_gyro_dps16, spec_smooth_step,
};

verus! {

/// USB vendor id of Valve hardware.
pub const VALVE_VENDOR_ID: u16 = 0x28de;

/// USB product id of the Steam Deck built-in controller.
pub const STEAM_DECK_PRODUCT_ID: u16 = 0x1205;

/// USB product id of the standalone Steam Controller.
pub const STEAM_CONTROLLER_PRODUCT_ID: u16 = 0x1142;

/// Header byte of a configuration feature report.
pub const SC_PACKET_TYPE_CONFIGURE: u8 = 0x87;

/// Payload length byte of a configuration feature report.
pub const SC_PACKET_LENGTH_CONFIGURE: u8 = 0x15;

/// Config-type byte selecting the settings block of a configuration report.
pub const SC_CONFIG_TYPE_CONFIGURE: u8 = 0x32;

/// Gyro-mode bitmask asking the controller to stream raw accelerometer and
/// raw gyro samples.
pub const GYRO_MODE_SEND_RAW: u8 = 0x18;

/// Vendor and product id of one enumerated HID device.
#[derive(Clone, Copy, Debug, PartialEq, Eq, Structural)]
pub struct HidDeviceId {
    pub vendor_id: u16,
    pub product_id: u16,
}

/// Whether an enumerated device is a Steam Deck controller interface.
pub open spec fn spec_is_target(d: HidDeviceId) -> bool {
    d.vendor_id == VALVE_VENDOR_ID && d.product_id == STEAM_DECK_PRODUCT_ID
}

/// The number of Steam Deck interfaces among the first `n` entries of an
/// enumeration.
pub open spec fn count_targets(s: Seq<HidDeviceId>, n: int) -> int
    decreases n,
{
    if n <= 0 {
        0
    } else {
        count_targets(s, n - 1) + if spec_is_target(s[n - 1]) {
            1int
        } else {
            0int
        }
    }
}

fn is_target(d: &HidDeviceId) -> (r: bool)
    ensures
        r == spec_is_target(*d),
{
    d.vendor_id == VALVE_VENDOR_ID && d.product_id == STEAM_DECK_PRODUCT_ID
}

/// Picks the controller interface to open out of a device enumeration.
///
/// The Steam Deck exposes several HID interfaces under the same ids and the
/// motion reports arrive on the third one, so the result is the index of
/// the third matching entry; an enumeration with fewer than three matches
/// has no usable controller.
pub fn select_controller(devices: &Vec<HidDeviceId>) -> (r: Option<usize>)
    ensures
        match r {
            Some(i) => i < devices@.len() && spec_is_target(devices@[i as int])
                && count_targets(devices@, i as int) == 2,
            None => count_targets(devices@, devices@.len() as int) <= 2,
        },
{
    let mut i: usize = 0;
    let mut seen: usize = 0;
    while i < devices.len()
        invariant
            i <= devices@.len(),
            seen == count_targets(devices@, i as int),
            seen <= 2,
        decreases devices@.len() - i,
    {
        if is_target(&devices[i]) {
            if seen == 2 {
                return Some(i);
            }
            seen = seen + 1;
        }
        i = i + 1;
    }
    None
}

/// The 64-byte feature report that enables gyro streaming: header, length
/// and config-type bytes, the idle timeout split little-endian into two
/// bytes, a 13-byte reserved block, the gyro-mode flag, a two-byte reserved
/// trailer, zero-padded to the full report length.
pub open spec fn spec_configure_report(idle_timeout: u16, gyro_mode: u8) -> Seq<u8> {
    Seq::new(64, |i: int|
        if i == 0 {
            SC_PACKET_TYPE_CONFIGURE
        } else if i == 1 {
            SC_PACKET_LENGTH_CONFIGURE
        } else if i == 2 {
            SC_CONFIG_TYPE_CONFIGURE
        } else if i == 3 {
            (idle_timeout % 256) as u8
        } else if i == 4 {
            (idle_timeout / 256) as u8
        } else if i == 18 {
            gyro_mode
        } else {
            0u8
        })
}

/// Builds the configuration report that the shell writes to the device on
/// attach to switch raw motion streaming on.
pub fn build_configure_report(idle_timeout: u16, gyro_mode: u8) -> (r: Vec<u8>)
    ensures
        r@ == spec_configure_report(idle_timeout, gyro_mode),
{
    let mut r: Vec<u8> = Vec::new();
    r.push(SC_PACKET_TYPE_CONFIGURE);
    r.push(SC_PACKET_LENGTH_CONFIGURE);
    r.push(SC_CONFIG_TYPE_CONFIGURE);
    r.push((idle_timeout % 256) as u8);
    r.push((idle_timeout / 256) as u8);
    while r.len() < 18
        invariant
            5 <= r@.len() <= 18,
            forall|j: int| 0 <= j < r@.len() ==> r@[j] == spec_configure_report(
                idle_timeout, gyro_mode)[j],
        decreases 18 - r@.len(),
    {
        r.push(0u8);
    }
    r.push(gyro_mode);
    while r.len() < 64
        invariant
            19 <= r@.len() <= 64,
            forall|j: int| 0 <= j < r@.len() ==> r@[j] == spec_configure_report(
                idle_timeout, gyro_mode)[j],
        decreases 64 - r@.len(),
    {
        r.push(0u8);
    }
    proof {
        assert(r@ =~= spec_configure_report(idle_timeout, gyro_mode));
    }
    r
}

/// The state of the HID controller backend that the readings depend on:
/// whether a controller is attached, the per-axis accelerometer smoothing
/// state, and the latest raw gyro counts. The device handle itself lives in
/// the unverified shell, which feeds every report it reads into
/// `poll_report`.
#[derive(Clone, Copy, Debug, PartialEq, Eq)]
pub struct SteamControllerProvider {
    /// Whether a controller is currently attached and streaming.
    pub attached: bool,
    /// Per-axis smoothing state, in raw counts scaled by `SMOOTH_ONE`.
    pub accel: (u64, u64, u64),
    /// Latest raw gyro counts, straight from the decoder.
    pub gyro: (u16, u16, u16),
}

impl SteamControllerProvider {
    /// A well-formed provider keeps every smoothing state within the raw
    /// count range.
    pub open spec fn wf(self) -> bool {
        accel_state_wf(self.accel.0) && accel_state_wf(self.accel.1) && accel_state_wf(
            self.accel.2)
    }

    /// The provider as constructed: no device, smoothing state at zero.
    pub open spec fn spec_initial() -> Self {
        SteamControllerProvider { attached: false, accel: (0, 0, 0), gyro: (0, 0, 0) }
    }

    /// Creates a provider with no attached device and zeroed filter state.
    pub fn new() -> (p: Self)
        ensures
            p == Self::spec_initial(),
            p.wf(),
    {
        SteamControllerProvider { attached: false, accel: (0, 0, 0), gyro: (0, 0, 0) }
    }

    /// Records that the shell opened a controller.
    pub fn attach(&mut self)
        ensures
            *final(self) == (SteamControllerProvider { attached: true, ..*old(self) }),
    {
        self.attached = true;
    }

    /// Records that the device went away; the readings fall back to the
    /// zero vector until a controller is attached again.
    pub fn detach(&mut self)
        ensures
            *final(self) == (SteamControllerProvider { attached: false, ..*old(self) }),
    {
        self.attached = false;
    }

    /// The provider state and result of ingesting one raw report: with no
    /// device the poll fails, a report of the wrong length is a decode
    /// error, and a valid report smooths the accelerometer axes and
    /// replaces the gyro counts.
    pub open spec fn spec_ingest(self, buf: Seq<u8>) -> (Self, Result<(), DsuError>) {
        if !self.attached {
            (self, Err(DsuError::DeviceNotFound))
        } else if buf.len() != REPORT_LEN {
            (self, Err(DsuError::Decode))
        } else {
            let a = spec_accel_raw(buf);
            (
                SteamControllerProvider {
                    attached: true,
                    accel: (
                        spec_smooth_step(self.accel.0, a.0),
                        spec_smooth_step(self.accel.1, a.1),
                        spec_smooth_step(self.accel.2, a.2),
                    ),
                    gyro: spec_gyro_raw(buf),
                },
                Ok(()),
            )
        }
    }

    /// Ingests one raw report read from the device: decodes it and runs
    /// the normalization pipeline on the decoded axes.
    pub fn poll_report(&mut self, buf: &Vec<u8>) -> (r: Result<(), DsuError>)
        requires
            old(self).wf(),
        ensures
            *final(self) == old(self).spec_ingest(buf@).0,
            r == old(self).spec_ingest(buf@).1,
            final(self).wf(),
    {
        if !self.attached {
            return Err(DsuError::DeviceNotFound);
        }
        let raw = match crate::decoder::decode_report(buf) {
            Ok(raw) => raw,
            Err(e) => {
                return Err(e);
            },
        };
        self.accel = (
            smooth_accel(self.accel.0, raw.accel.0),
            smooth_accel(self.accel.1, raw.accel.1),
            smooth_accel(self.accel.2, raw.accel.2),
        );
        self.gyro = raw.gyro;
        Ok(())
    }

    /// Outcome of the configuration write the shell performed on attach: a
    /// failed write leaves the controller unusable, so the provider drops
    /// back to the no-device state.
    pub fn on_configure_result(&mut self, ok: bool) -> (r: Result<(), DsuError>)
        ensures
            ok ==> *final(self) == *old(self) && r == Ok::<(), DsuError>(()),
            !ok ==> *final(self) == (SteamControllerProvider { attached: false, ..*old(self) })
                && r == Err::<(), DsuError>(DsuError::Configuration),
    {
        if ok {
            Ok(())
        } else {
            self.attached = false;
            Err(DsuError::Configuration)
        }
    }

    /// The accelerometer reading: the smoothed fixed-point state while a
    /// device is attached, the zero vector otherwise. A reading divided by
    /// `SMOOTH_ONE * ACCEL_COUNTS_PER_G` is the acceleration in g.
    pub open spec fn spec_accel_reading(self) -> (u64, u64, u64) {
        if self.attached {
            self.accel
        } else {
            (0, 0, 0)
        }
    }

    /// The gyro reading in sixteenths of a degree per second, deadzone
    /// applied per axis; the zero vector while no device is attached.
    pub open spec fn spec_gyro_reading(self) -> (u16, u16, u16) {
        if self.attached {
            (
                spec_gyro_dps16(self.gyro.0),
                spec_gyro_dps16(self.gyro.1),
                spec_gyro_dps16(self.gyro.2),
            )
        } else {
            (0, 0, 0)
        }
    }

    /// Returns the latest smoothed accelerometer reading.
    pub fn accelerometer_reading(&self) -> (r: (u64, u64, u64))
        ensures
            r == self.spec_accel_reading(),
    {
        if self.attached {
            self.accel
        } else {
            (0, 0, 0)
        }
    }

    /// Returns the latest gyro reading, deadzone-filtered, in sixteenths
    /// of a degree per second.
    pub fn gyro_reading(&self) -> (r: (u16, u16, u16))
        ensures
            r == self.spec_gyro_reading(),
    {
        if self.attached {
            (
                convert_gyro_to_dps(self.gyro.0),
                convert_gyro_to_dps(self.gyro.1),
                convert_gyro_to_dps(self.gyro.2),
            )
        } else {
            (0, 0, 0)
        }
    }
}

} // verus!
