//! Peripheral-binding and pin-ownership layer for a handheld
//! microcontroller board.
//!
//! The crate owns every physical GPIO pin of the board as an exclusive,
//! movable handle, splits the full set into per-peripheral bundles, and
//! binds each bundle to a communication controller (SPI, I2C, UART, PWM)
//! driven from a clock tree.  No pin can ever be claimed by two roles at
//! once: claims are tracked explicitly and a second claim of a singleton
//! resource fails with `Error::ResourceAlreadyTaken`.

use vstd::prelude::*;

pub mod clock;
pub mod display;
pub mod hardware;
pub mod orientation;
pub mod pins;
pub mod sensors;
pub mod sound;

verus! {

/// The error taxonomy of the binding layer.
#[derive(Clone, Copy, Debug, PartialEq, Eq, Structural)]
pub enum Error {
    /// A singleton resource (the full pin registry, a specific
    /// controller) was requested a second time.
    ResourceAlreadyTaken,
    /// The clock tree cannot supply a generator or frequency that
    /// satisfies the request.
    ClockUnavailable,
    /// The downstream chip failed its handshake or probe while a binder
    /// was constructing its handle.
    PeripheralInitFailure,
    /// A bound peripheral handle failed during an in-loop operation,
    /// such as a display write or a sensor read.
    RuntimeTransferFailure,
}

} // verus!
