//! Exclusive access to the raw hardware: the pin registry singleton and
//! the communication controllers.
//!
//! Real hardware hands out its peripherals exactly once per power-up.
//! `Hardware` models that: it is constructed once at startup, and every
//! claim of the pin registry or of a controller is recorded so that a
//! second claim fails with `Error::ResourceAlreadyTaken` instead of
//! silently aliasing the resource.

use vstd::prelude::*;

use crate::Error;

verus! {

/// Identity of a communication controller block on the device.
#[derive(Clone, Copy, Debug, PartialEq, Eq, Structural)]
pub enum ControllerId {
    /// Serial engine 2: drives the external UART pins and the
    /// accelerometer's I2C bus (they share the engine, so binding both
    /// is a conflict caught at run time).
    Sercom2,
    /// Serial engine 7: drives the display's SPI bus.
    Sercom7,
    /// Timer/counter 0: drives the buzzer's PWM output.
    Tcc0,
    /// The USB device controller.
    Usb,
}

/// Tracks which singleton hardware resources have already been claimed.
pub struct Hardware {
    pins_taken: bool,
    sercom2_taken: bool,
    sercom7_taken: bool,
    tcc0_taken: bool,
    usb_taken: bool,
}

impl Hardware {
    /// Whether the full pin registry has been claimed.
    pub closed spec fn pins_taken(self) -> bool {
        self.pins_taken
    }

    /// Whether the given controller has been claimed.
    pub closed spec fn taken(self, id: ControllerId) -> bool {
        match id {
            ControllerId::Sercom2 => self.sercom2_taken,
            ControllerId::Sercom7 => self.sercom7_taken,
            ControllerId::Tcc0 => self.tcc0_taken,
            ControllerId::Usb => self.usb_taken,
        }
    }

    /// Access to the device's peripherals, with nothing claimed yet.
    ///
    /// Construct exactly one per process, at startup: every claim made
    /// through a `Hardware` value is exclusive only among claims made
    /// through that same value, exactly as the underlying peripherals
    /// exist only once per board.
    pub fn new() -> (hw: Hardware)
        ensures
            !hw.pins_taken(),
            forall|id: ControllerId| !hw.taken(id),
    {
        Hardware {
            pins_taken: false,
            sercom2_taken: false,
            sercom7_taken: false,
            tcc0_taken: false,
            usb_taken: false,
        }
    }

    /// Whether the given controller has been claimed.
    pub fn is_taken(&self, id: ControllerId) -> (r: bool)
        ensures
            r == self.taken(id),
    {
        match id {
            ControllerId::Sercom2 => self.sercom2_taken,
            ControllerId::Sercom7 => self.sercom7_taken,
            ControllerId::Tcc0 => self.tcc0_taken,
            ControllerId::Usb => self.usb_taken,
        }
    }

    /// Record the claim of the pin registry; fails if already claimed.
    pub fn claim_pins(&mut self) -> (r: Result<(), Error>)
        ensures
            old(self).pins_taken() ==> {
                &&& r == Err::<(), Error>(Error::ResourceAlreadyTaken)
                &&& final(self).pins_taken() == old(self).pins_taken()
                &&& forall|id: ControllerId| final(self).taken(id) == old(self).taken(id)
            },
            !old(self).pins_taken() ==> {
                &&& r == Ok::<(), Error>(())
                &&& final(self).pins_taken()
                &&& forall|id: ControllerId| final(self).taken(id) == old(self).taken(id)
            },
    {
        if self.pins_taken {
            Err(Error::ResourceAlreadyTaken)
        } else {
            self.pins_taken = true;
            Ok(())
        }
    }

    /// Record the claim of one controller; fails if already claimed.
    pub fn claim_controller(&mut self, id: ControllerId) -> (r: Result<(), Error>)
        ensures
            old(self).taken(id) ==> {
                &&& r == Err::<(), Error>(Error::ResourceAlreadyTaken)
                &&& final(self).pins_taken() == old(self).pins_taken()
                &&& forall|j: ControllerId| final(self).taken(j) == old(self).taken(j)
            },
            !old(self).taken(id) ==> {
                &&& r == Ok::<(), Error>(())
                &&& final(self).taken(id)
                &&& final(self).pins_taken() == old(self).pins_taken()
                &&& forall|j: ControllerId| j != id ==> final(self).taken(j) == old(self).taken(j)
            },
    {
        match id {
            ControllerId::Sercom2 => {
                if self.sercom2_taken {
                    Err(Error::ResourceAlreadyTaken)
                } else {
                    self.sercom2_taken = true;
                    Ok(())
                }
            },
            ControllerId::Sercom7 => {
                if self.sercom7_taken {
                    Err(Error::ResourceAlreadyTaken)
                } else {
                    self.sercom7_taken = true;
                    Ok(())
                }
            },
            ControllerId::Tcc0 => {
                if self.tcc0_taken {
                    Err(Error::ResourceAlreadyTaken)
                } else {
                    self.tcc0_taken = true;
                    Ok(())
                }
            },
            ControllerId::Usb => {
                if self.usb_taken {
                    Err(Error::ResourceAlreadyTaken)
                } else {
                    self.usb_taken = true;
                    Ok(())
                }
            },
        }
    }
}

} // verus!
