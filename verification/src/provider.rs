use vstd::prelude::*;

use crate::error::DsuError;
use crate::hid::SteamControllerProvider;
use crate::sdl::{spec_hotplug_upto, JoystickEvent, SdlProvider};

verus! {

/// One normalized sample, produced once per poll cycle. The axis unit is
/// the active backend's: fixed-point g and sixteenths of a degree per
/// second for the HID controller, raw axis counts for the joystick
/// subsystem.
#[derive(Clone, Copy, Debug, PartialEq, Eq)]
pub struct MotionSample {
    pub accel: (i64, i64, i64),
    pub gyro: (i64, i64, i64),
}

/// What the platform shell observed since the last cycle, handed to
/// `poll_events`. Inputs meant for the other backend are ignored, as the
/// no-hot-plug default of the capability is a successful no-op.
pub enum PollInput {
    /// A raw report read from the HID device.
    HidReport(Vec<u8>),
    /// The HID backend had no device to read from.
    HidNoDevice,
    /// Reading from the HID device failed.
    HidReadFailed,
    /// Hot-plug events pumped from the joystick subsystem, each paired
    /// with the outcome of the open attempt it triggered.
    JoystickHotplug(Vec<(JoystickEvent, bool)>),
}

/// The capability every motion backend presents: a current accelerometer
/// and gyro reading, and an event-pump step that refreshes device state.
/// Exactly one variant is active per process, selected at startup.
pub enum DsuProvider {
    /// The USB/Bluetooth HID controller backend.
    SteamController(SteamControllerProvider),
    /// The game-controller (joystick) subsystem backend.
    Sdl(SdlProvider),
}

impl DsuProvider {
    /// A provider is well-formed when its backend state is.
    pub open spec fn wf(self) -> bool {
        match self {
            DsuProvider::SteamController(p) => p.wf(),
            DsuProvider::Sdl(_) => true,
        }
    }

    /// Whether the active backend currently holds an open device.
    pub open spec fn spec_attached(self) -> bool {
        match self {
            DsuProvider::SteamController(p) => p.attached,
            DsuProvider::Sdl(p) => p.attached,
        }
    }

    /// The current accelerometer reading, widened to a common type.
    pub open spec fn spec_accel_reading(self) -> (i64, i64, i64) {
        match self {
            DsuProvider::SteamController(p) => {
                let r = p.spec_accel_reading();
                (r.0 as i64, r.1 as i64, r.2 as i64)
            },
            DsuProvider::Sdl(p) => {
                let r = p.spec_accel_reading();
                (r.0 as i64, r.1 as i64, r.2 as i64)
            },
        }
    }

    /// The current gyro reading, widened to a common type.
    pub open spec fn spec_gyro_reading(self) -> (i64, i64, i64) {
        match self {
            DsuProvider::SteamController(p) => {
                let r = p.spec_gyro_reading();
                (r.0 as i64, r.1 as i64, r.2 as i64)
            },
            DsuProvider::Sdl(p) => {
                let r = p.spec_gyro_reading();
                (r.0 as i64, r.1 as i64, r.2 as i64)
            },
        }
    }

    /// Returns the latest known accelerometer value; with no device
    /// attached this is the zero vector, not an error.
    pub fn accelerometer_reading(&self) -> (r: (i64, i64, i64))
        ensures
            r == self.spec_accel_reading(),
    {
        match self {
            DsuProvider::SteamController(p) => {
                let r = p.accelerometer_reading();
                (r.0 as i64, r.1 as i64, r.2 as i64)
            },
            DsuProvider::Sdl(p) => {
                let r = p.accelerometer_reading();
                (r.0 as i64, r.1 as i64, r.2 as i64)
            },
        }
    }

    /// Returns the latest known gyro value; with no device attached this
    /// is the zero vector, not an error.
    pub fn gyro_reading(&self) -> (r: (i64, i64, i64))
        ensures
            r == self.spec_gyro_reading(),
    {
        match self {
            DsuProvider::SteamController(p) => {
                let r = p.gyro_reading();
                (r.0 as i64, r.1 as i64, r.2 as i64)
            },
            DsuProvider::Sdl(p) => {
                let r = p.gyro_reading();
                (r.0 as i64, r.1 as i64, r.2 as i64)
            },
        }
    }

    /// The provider state and result of one event-pump step on the given
    /// input. The HID backend ingests a report, reports a missing device
    /// as `DeviceNotFound` (dropping to the no-device state rather than
    /// holding a dangling handle) and a failed read as `Transport`; the
    /// joystick backend folds the hot-plug batch into its attachment
    /// state. An input meant for the other backend is a successful no-op.
    pub open spec fn spec_poll(self, input: PollInput) -> (Self, Result<(), DsuError>) {
        match (self, input) {
            (DsuProvider::SteamController(p), PollInput::HidReport(buf)) => {
                let (p2, r) = p.spec_ingest(buf@);
                (DsuProvider::SteamController(p2), r)
            },
            (DsuProvider::SteamController(p), PollInput::HidNoDevice) => (
                DsuProvider::SteamController(
                    SteamControllerProvider { attached: false, ..p }),
                Err(DsuError::DeviceNotFound),
            ),
            (DsuProvider::SteamController(p), PollInput::HidReadFailed) => (
                DsuProvider::SteamController(p),
                Err(DsuError::Transport),
            ),
            (DsuProvider::SteamController(p), PollInput::JoystickHotplug(_)) => (
                DsuProvider::SteamController(p),
                Ok(()),
            ),
            (DsuProvider::Sdl(p), PollInput::JoystickHotplug(evs)) => (
                DsuProvider::Sdl(
                    SdlProvider {
                        attached: spec_hotplug_upto(p.attached, evs@, evs@.len() as int),
                        ..p
                    }),
                Ok(()),
            ),
            (DsuProvider::Sdl(p), _) => (DsuProvider::Sdl(p), Ok(())),
        }
    }

    /// Advances internal device state from the shell's observations.
    pub fn poll_events(&mut self, input: &PollInput) -> (r: Result<(), DsuError>)
        requires
            old(self).wf(),
        ensures
            *final(self) == old(self).spec_poll(*input).0,
            r == old(self).spec_poll(*input).1,
            final(self).wf(),
    {
        match (&mut *self, input) {
            (DsuProvider::SteamController(p), PollInput::HidReport(buf)) => p.poll_report(buf),
            (DsuProvider::SteamController(p), PollInput::HidNoDevice) => {
                p.detach();
                Err(DsuError::DeviceNotFound)
            },
            (DsuProvider::SteamController(_), PollInput::HidReadFailed) => Err(
                DsuError::Transport),
            (DsuProvider::SteamController(_), PollInput::JoystickHotplug(_)) => Ok(()),
            (DsuProvider::Sdl(p), PollInput::JoystickHotplug(evs)) => {
                p.apply_hotplug_batch(evs);
                Ok(())
            },
            (DsuProvider::Sdl(_), _) => Ok(()),
        }
    }

    /// Reads one full normalized sample for the cycle's packet.
    pub fn sample(&self) -> (s: MotionSample)
        ensures
            s.accel == self.spec_accel_reading(),
            s.gyro == self.spec_gyro_reading(),
    {
        MotionSample { accel: self.accelerometer_reading(), gyro: self.gyro_reading() }
    }
}

/// The backend kinds a process can be configured to stream from.
#[derive(Clone, Copy, Debug, PartialEq, Eq, Structural)]
pub enum BackendKind {
    /// The USB/Bluetooth HID controller.
    SteamController,
    /// The game-controller (joystick) subsystem.
    Sdl,
}

/// Creates the configured backend in its initial no-device state.
pub fn make_provider(kind: BackendKind) -> (p: DsuProvider)
    ensures
        kind == BackendKind::SteamController ==> p == DsuProvider::SteamController(
            SteamControllerProvider::spec_initial()),
        kind == BackendKind::Sdl ==> p == DsuProvider::Sdl(SdlProvider::spec_initial()),
        p.wf(),
        !p.spec_attached(),
{
    match kind {
        BackendKind::SteamController => DsuProvider::SteamController(
            SteamControllerProvider::new()),
        BackendKind::Sdl => DsuProvider::Sdl(SdlProvider::new()),
    }
}

/// Creates the backend the process streams from by default: the HID
/// controller provider. The shell attaches a device to it once one is
/// found.
pub fn get_provider() -> (p: DsuProvider)
    ensures
        p == DsuProvider::SteamController(SteamControllerProvider::spec_initial()),
        p.wf(),
{
    make_provider(BackendKind::SteamController)
}

/// A provider with no attached device reads the zero vector on both
/// accessors, whatever backend is active and whatever state its filter
/// holds.
pub proof fn lemma_no_device_reads_zero(p: DsuProvider)
    requires
        !p.spec_attached(),
    ensures
        p.spec_accel_reading() == (0i64, 0i64, 0i64),
        p.spec_gyro_reading() == (0i64, 0i64, 0i64),
{
}

} // verus!
