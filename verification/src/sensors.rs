//! The accelerometer bundle and its I2C binder, and the sensor
//! orientations the orientation adapter consumes.

use vstd::prelude::*;

use crate::clock::{achieved_rate, select_divisor, ClockContext};
use crate::hardware::{ControllerId, Hardware};
use crate::pins::{loc_code, Pin, PinRole};
use crate::Error;

verus! {

/// The physical orientation the accelerometer classifies a sample into.
#[derive(Clone, Copy, Debug, PartialEq, Eq, Structural)]
pub enum SensorOrientation {
    /// Long edge down, screen up.
    LandscapeUp,
    /// Long edge down, screen down.
    LandscapeDown,
    /// Short edge down, screen up.
    PortraitUp,
    /// Short edge down, screen down.
    PortraitDown,
    /// No clear orientation.
    Unknown,
}

/// The accelerometer's bus target frequency.
pub const ACCEL_I2C_HZ: u32 = 400000;

/// The accelerometer's bus address: the chip's documented alternate
/// (secondary) address, which this board wires it to.
pub const ACCEL_I2C_ADDR: u8 = 0x19;

/// An exclusively owned I2C bus bound to one downstream device address.
pub struct I2cHandle {
    scl: Pin,
    sda: Pin,
    freq_hz: u32,
    device_addr: u8,
}

impl I2cHandle {
    /// The clock pin, switched into its serial-engine pad.
    pub closed spec fn scl(self) -> Pin {
        self.scl
    }

    /// The data pin, switched into its serial-engine pad.
    pub closed spec fn sda(self) -> Pin {
        self.sda
    }

    /// The achieved bus clock.
    pub closed spec fn freq(self) -> u32 {
        self.freq_hz
    }

    /// The bound device address.
    pub closed spec fn device_addr(self) -> u8 {
        self.device_addr
    }

    /// The achieved bus clock.
    pub fn freq_hz(&self) -> (f: u32)
        ensures
            f == self.freq(),
    {
        self.freq_hz
    }

    /// The bound device address.
    pub fn addr(&self) -> (a: u8)
        ensures
            a == self.device_addr(),
    {
        self.device_addr
    }
}

/// The accelerometer's I2C pins (driven by serial engine 2).
pub struct Accelerometer {
    /// Bus clock pin.
    pub scl: Pin,
    /// Bus data pin.
    pub sda: Pin,
}

/// A bound, probed accelerometer.
pub struct AccelerometerHandle {
    i2c: I2cHandle,
}

impl AccelerometerHandle {
    /// The bus the accelerometer is reached over.
    pub closed spec fn i2c(self) -> I2cHandle {
        self.i2c
    }

    /// The achieved bus clock.
    pub fn freq_hz(&self) -> (f: u32)
        ensures
            f == self.i2c().freq(),
    {
        self.i2c.freq_hz()
    }

    /// The bound device address.
    pub fn addr(&self) -> (a: u8)
        ensures
            a == self.i2c().device_addr(),
    {
        self.i2c.addr()
    }
}

impl Accelerometer {
    /// The bundle holds the accelerometer pins, unconfigured.
    pub open spec fn wf(self) -> bool {
        &&& self.scl.is_floating_at(0, 12)
        &&& self.sda.is_floating_at(0, 13)
    }

    /// The locations the bundle occupies.
    pub open spec fn locs(self) -> Set<int> {
        set![self.scl.loc(), self.sda.loc()]
    }

    /// Bind the accelerometer: switch its bus pins into serial engine 2,
    /// derive the bus clock for the chip's target frequency by the
    /// round-down divisor rule, and address the chip at its alternate
    /// address.  `probe_ok` is whether the chip acknowledged the probe of
    /// that address; a refusal is surfaced as
    /// `Error::PeripheralInitFailure`, never masked (the engine stays
    /// claimed, as the hardware was consumed).  A second binding of the
    /// engine fails with `Error::ResourceAlreadyTaken`.
    pub fn new(hw: &mut Hardware, clocks: &ClockContext, sda: Pin, scl: Pin, probe_ok: bool) -> (r:
        Result<AccelerometerHandle, Error>)
        requires
            clocks.wf(),
            scl.is_floating_at(0, 12),
            sda.is_floating_at(0, 13),
        ensures
            final(hw).pins_taken() == old(hw).pins_taken(),
            old(hw).taken(ControllerId::Sercom2) ==> {
                &&& r == Err::<AccelerometerHandle, Error>(Error::ResourceAlreadyTaken)
                &&& forall|id: ControllerId| final(hw).taken(id) == old(hw).taken(id)
            },
            !old(hw).taken(ControllerId::Sercom2) ==> {
                &&& final(hw).taken(ControllerId::Sercom2)
                &&& forall|id: ControllerId|
                    id != ControllerId::Sercom2 ==> final(hw).taken(id) == old(hw).taken(id)
            },
            !old(hw).taken(ControllerId::Sercom2) && !probe_ok ==> r == Err::<
                AccelerometerHandle,
                Error,
            >(Error::PeripheralInitFailure),
            !old(hw).taken(ControllerId::Sercom2) && probe_ok ==> {
                &&& r is Ok
                &&& r->Ok_0.i2c().freq() as int == achieved_rate(clocks.root(), ACCEL_I2C_HZ)
                &&& r->Ok_0.i2c().device_addr() == ACCEL_I2C_ADDR
                &&& r->Ok_0.i2c().scl().loc() == loc_code(0, 12)
                &&& r->Ok_0.i2c().sda().loc() == loc_code(0, 13)
                &&& r->Ok_0.i2c().scl().role() == PinRole::AlternateC
                &&& r->Ok_0.i2c().sda().role() == PinRole::AlternateC
            },
    {
        match hw.claim_controller(ControllerId::Sercom2) {
            Err(e) => Err(e),
            Ok(()) => {
                let root = clocks.core_clock();
                let divisor = select_divisor(root, ACCEL_I2C_HZ);
                let freq_hz = root / divisor;
                if !probe_ok {
                    return Err(Error::PeripheralInitFailure);
                }
                Ok(AccelerometerHandle {
                    i2c: I2cHandle {
                        scl: scl.into_alternate(PinRole::AlternateC),
                        sda: sda.into_alternate(PinRole::AlternateC),
                        freq_hz,
                        device_addr: ACCEL_I2C_ADDR,
                    },
                })
            },
        }
    }
}

} // verus!
