use vstd::prelude::*;

verus! {

/// One event pumped from the joystick subsystem's queue, reduced to what
/// the hot-plug logic reads.
#[derive(Clone, Copy, Debug, PartialEq, Eq, Structural)]
pub enum JoystickEvent {
    /// A joystick with the given index was connected.
    Added(u32),
    /// The joystick with the given index was removed.
    Removed(u32),
    /// Any other event in the queue; the provider ignores it.
    Other,
}

/// The attachment state after one hot-plug event. Only joystick index 0 is
/// tracked. Connecting it makes the provider attached exactly when the
/// shell's open attempt succeeded, which `open_ok` reports; removing it
/// detaches; every other event leaves the state alone.
pub open spec fn spec_hotplug(attached: bool, ev: JoystickEvent, open_ok: bool) -> bool {
    match ev {
        JoystickEvent::Added(which) => if which == 0 {
            open_ok
        } else {
            attached
        },
        JoystickEvent::Removed(which) => if which == 0 {
            false
        } else {
            attached
        },
        JoystickEvent::Other => attached,
    }
}

/// The attachment state after the first `n` events of a pumped batch, each
/// paired with the outcome of the open attempt it triggered.
pub open spec fn spec_hotplug_upto(
    attached: bool,
    evs: Seq<(JoystickEvent, bool)>,
    n: int,
) -> bool
    decreases n,
{
    if n <= 0 {
        attached
    } else {
        spec_hotplug(spec_hotplug_upto(attached, evs, n - 1), evs[n - 1].0, evs[n - 1].1)
    }
}

/// The state of the joystick backend that the readings depend on: whether
/// joystick 0 is open and the raw values of its six axes. The joystick
/// handle and the event pump live in the unverified shell, which forwards
/// hot-plug events and freshly read axis values here.
#[derive(Clone, Copy, Debug, PartialEq, Eq)]
pub struct SdlProvider {
    /// Whether joystick 0 is currently open.
    pub attached: bool,
    /// Raw values of axes 0 to 2, read as the accelerometer.
    pub accel_axes: (i16, i16, i16),
    /// Raw values of axes 3 to 5, read as the gyroscope.
    pub gyro_axes: (i16, i16, i16),
}

impl SdlProvider {
    /// The provider as constructed: no joystick, all axes at zero.
    pub open spec fn spec_initial() -> Self {
        SdlProvider { attached: false, accel_axes: (0, 0, 0), gyro_axes: (0, 0, 0) }
    }

    /// Creates a provider with no open joystick.
    pub fn new() -> (p: Self)
        ensures
            p == Self::spec_initial(),
    {
        SdlProvider { attached: false, accel_axes: (0, 0, 0), gyro_axes: (0, 0, 0) }
    }

    /// Applies one hot-plug event; `open_ok` is the outcome of the open
    /// attempt the shell made for a connection of joystick 0 (and is
    /// ignored for every other event).
    pub fn apply_hotplug(&mut self, ev: &JoystickEvent, open_ok: bool)
        ensures
            final(self).attached == spec_hotplug(old(self).attached, *ev, open_ok),
            final(self).accel_axes == old(self).accel_axes,
            final(self).gyro_axes == old(self).gyro_axes,
    {
        match ev {
            JoystickEvent::Added(which) => {
                if *which == 0 {
                    self.attached = open_ok;
                }
            },
            JoystickEvent::Removed(which) => {
                if *which == 0 {
                    self.attached = false;
                }
            },
            JoystickEvent::Other => {},
        }
    }

    /// Applies a whole pumped batch of hot-plug events in order.
    pub fn apply_hotplug_batch(&mut self, evs: &Vec<(JoystickEvent, bool)>)
        ensures
            final(self).attached == spec_hotplug_upto(
                old(self).attached, evs@, evs@.len() as int),
            final(self).accel_axes == old(self).accel_axes,
            final(self).gyro_axes == old(self).gyro_axes,
    {
        let mut i: usize = 0;
        while i < evs.len()
            invariant
                i <= evs@.len(),
                self.attached == spec_hotplug_upto(old(self).attached, evs@, i as int),
                self.accel_axes == old(self).accel_axes,
                self.gyro_axes == old(self).gyro_axes,
            decreases evs@.len() - i,
        {
            let (ev, open_ok) = evs[i];
            self.apply_hotplug(&ev, open_ok);
            i = i + 1;
        }
    }

    /// Stores the axis values the shell just read from the open joystick.
    pub fn set_axes(&mut self, accel_axes: (i16, i16, i16), gyro_axes: (i16, i16, i16))
        ensures
            *final(self) == (SdlProvider { accel_axes, gyro_axes, ..*old(self) }),
    {
        self.accel_axes = accel_axes;
        self.gyro_axes = gyro_axes;
    }

    /// The accelerometer reading: the raw axis values while a joystick is
    /// open, the zero vector otherwise.
    pub open spec fn spec_accel_reading(self) -> (i16, i16, i16) {
        if self.attached {
            self.accel_axes
        } else {
            (0, 0, 0)
        }
    }

    /// The gyro reading: the raw axis values while a joystick is open, the
    /// zero vector otherwise.
    pub open spec fn spec_gyro_reading(self) -> (i16, i16, i16) {
        if self.attached {
            self.gyro_axes
        } else {
            (0, 0, 0)
        }
    }

    /// Returns the latest accelerometer axes.
    pub fn accelerometer_reading(&self) -> (r: (i16, i16, i16))
        ensures
            r == self.spec_accel_reading(),
    {
        if self.attached {
            self.accel_axes
        } else {
            (0, 0, 0)
        }
    }

    /// Returns the latest gyro axes.
    pub fn gyro_reading(&self) -> (r: (i16, i16, i16))
        ensures
            r == self.spec_gyro_reading(),
    {
        if self.attached {
            self.gyro_axes
        } else {
            (0, 0, 0)
        }
    }
}

} // verus!
