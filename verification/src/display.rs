//! The display bundle and its SPI binder: converts the display's signal
//! pins into their serial-engine function, derives the bus clock by the
//! round-down divisor rule, raises the control pins, and yields a
//! display handle that tracks the applied orientation.

use vstd::prelude::*;

use crate::clock::{achieved_rate, select_divisor, ClockContext};
use crate::hardware::{ControllerId, Hardware};
use crate::pins::{loc_code, Pin, PinRole};
use crate::Error;

verus! {

/// Clock polarity of an SPI bus.
#[derive(Clone, Copy, Debug, PartialEq, Eq, Structural)]
pub enum Polarity {
    /// The clock line idles low.
    IdleLow,
    /// The clock line idles high.
    IdleHigh,
}

/// Clock phase of an SPI bus.
#[derive(Clone, Copy, Debug, PartialEq, Eq, Structural)]
pub enum Phase {
    /// Data is captured on the first clock transition.
    CaptureOnFirstTransition,
    /// Data is captured on the second clock transition.
    CaptureOnSecondTransition,
}

/// An SPI mode: clock polarity and phase, passed through to the
/// controller unmodified.
#[derive(Clone, Copy, Debug, PartialEq, Eq, Structural)]
pub struct SpiMode {
    /// Clock polarity.
    pub polarity: Polarity,
    /// Clock phase.
    pub phase: Phase,
}

/// A display rotation setting.
#[derive(Clone, Copy, Debug, PartialEq, Eq, Structural)]
pub enum DisplayOrientation {
    /// Portrait, connector down.
    Portrait,
    /// Portrait, connector up.
    PortraitFlipped,
    /// Landscape, connector right.
    Landscape,
    /// Landscape, connector left.
    LandscapeFlipped,
}

/// The mode the display's bus uses: clock idles low, data captured on
/// the first edge.
pub open spec fn default_spi_mode() -> SpiMode {
    SpiMode { polarity: Polarity::IdleLow, phase: Phase::CaptureOnFirstTransition }
}

/// The display controller's target bus frequency.
pub const DISPLAY_SPI_HZ: u32 = 20000000;

/// Panel width in pixels along its long edge.
pub const PANEL_LONG_PX: u32 = 320;

/// Panel width in pixels along its short edge.
pub const PANEL_SHORT_PX: u32 = 240;

/// The drawable width for a given orientation.
pub open spec fn width_of(o: DisplayOrientation) -> u32 {
    match o {
        DisplayOrientation::Landscape => PANEL_LONG_PX,
        DisplayOrientation::LandscapeFlipped => PANEL_LONG_PX,
        DisplayOrientation::Portrait => PANEL_SHORT_PX,
        DisplayOrientation::PortraitFlipped => PANEL_SHORT_PX,
    }
}

/// The drawable height for a given orientation.
pub open spec fn height_of(o: DisplayOrientation) -> u32 {
    match o {
        DisplayOrientation::Landscape => PANEL_SHORT_PX,
        DisplayOrientation::LandscapeFlipped => PANEL_SHORT_PX,
        DisplayOrientation::Portrait => PANEL_LONG_PX,
        DisplayOrientation::PortraitFlipped => PANEL_LONG_PX,
    }
}

/// An exclusively owned SPI bus: the three signal pins in their
/// serial-engine function, the quantized bus clock, and the mode.
pub struct SpiHandle {
    sck: Pin,
    mosi: Pin,
    miso: Pin,
    baud_hz: u32,
    mode: SpiMode,
}

impl SpiHandle {
    /// The clock pin.
    pub closed spec fn sck(self) -> Pin {
        self.sck
    }

    /// The controller-to-device data pin.
    pub closed spec fn mosi(self) -> Pin {
        self.mosi
    }

    /// The device-to-controller data pin.
    pub closed spec fn miso(self) -> Pin {
        self.miso
    }

    /// The achieved bus clock.
    pub closed spec fn baud(self) -> u32 {
        self.baud_hz
    }

    /// The configured mode.
    pub closed spec fn mode(self) -> SpiMode {
        self.mode
    }

    /// The achieved bus clock.
    pub fn baud_hz(&self) -> (b: u32)
        ensures
            b == self.baud(),
    {
        self.baud_hz
    }

    /// The configured mode.
    pub fn spi_mode(&self) -> (m: SpiMode)
        ensures
            m == self.mode(),
    {
        self.mode
    }
}

/// Bind three signal pins to an SPI controller.  The bus clock becomes
/// the closest rate at or below `target_hz` that dividing the core
/// clock can reach; the mode is passed through unmodified.  Binding an
/// already-claimed controller fails with `Error::ResourceAlreadyTaken`.
pub fn bind_spi(
    miso: Pin,
    mosi: Pin,
    sck: Pin,
    controller: ControllerId,
    hw: &mut Hardware,
    clocks: &ClockContext,
    target_hz: u32,
    mode: SpiMode,
) -> (r: Result<SpiHandle, Error>)
    requires
        clocks.wf(),
        1 <= target_hz,
        crate::pins::supports_alternate(miso.port(), miso.num(), PinRole::AlternateD),
        crate::pins::supports_alternate(mosi.port(), mosi.num(), PinRole::AlternateD),
        crate::pins::supports_alternate(sck.port(), sck.num(), PinRole::AlternateD),
    ensures
        final(hw).pins_taken() == old(hw).pins_taken(),
        old(hw).taken(controller) ==> {
            &&& r == Err::<SpiHandle, Error>(Error::ResourceAlreadyTaken)
            &&& forall|id: ControllerId| final(hw).taken(id) == old(hw).taken(id)
        },
        !old(hw).taken(controller) ==> {
            &&& r is Ok
            &&& final(hw).taken(controller)
            &&& forall|id: ControllerId|
                id != controller ==> final(hw).taken(id) == old(hw).taken(id)
            &&& r->Ok_0.baud() as int == achieved_rate(clocks.root(), target_hz)
            &&& r->Ok_0.mode() == mode
            &&& r->Ok_0.miso().loc() == miso.loc()
            &&& r->Ok_0.mosi().loc() == mosi.loc()
            &&& r->Ok_0.sck().loc() == sck.loc()
            &&& r->Ok_0.miso().role() == PinRole::AlternateD
            &&& r->Ok_0.mosi().role() == PinRole::AlternateD
            &&& r->Ok_0.sck().role() == PinRole::AlternateD
        },
{
    match hw.claim_controller(controller) {
        Err(e) => Err(e),
        Ok(()) => {
            let root = clocks.core_clock();
            let divisor = select_divisor(root, target_hz);
            let baud_hz = root / divisor;
            Ok(SpiHandle {
                sck: sck.into_alternate(PinRole::AlternateD),
                mosi: mosi.into_alternate(PinRole::AlternateD),
                miso: miso.into_alternate(PinRole::AlternateD),
                baud_hz,
                mode,
            })
        },
    }
}

/// Binding the same bundle and configuration twice — on two otherwise
/// identical fresh registries — yields identical achieved clock rates
/// for a fixed root clock frequency: the achieved rate is a function of
/// the root clock and the requested frequency alone.
pub proof fn lemma_binding_idempotent(h1: SpiHandle, h2: SpiHandle, c: u32, f: u32)
    requires
        h1.baud() as int == achieved_rate(c, f),
        h2.baud() as int == achieved_rate(c, f),
    ensures
        h1.baud() == h2.baud(),
{
}

/// The display pins (driven by serial engine 7).
pub struct Display {
    /// Device-to-controller data pin.
    pub miso: Pin,
    /// Controller-to-device data pin.
    pub mosi: Pin,
    /// Clock pin.
    pub sck: Pin,
    /// Chip-select pin.
    pub cs: Pin,
    /// Data/command pin.
    pub dc: Pin,
    /// Reset pin.
    pub reset: Pin,
    /// Backlight pin: high enables the backlight.
    pub backlight: Pin,
}

/// A bound, initialized display: the SPI bus, the control pins as
/// outputs, the backlight lit, and the orientation last applied.
pub struct DisplayHandle {
    spi: SpiHandle,
    cs: Pin,
    dc: Pin,
    reset: Pin,
    backlight: Pin,
    orientation: DisplayOrientation,
}

impl DisplayHandle {
    /// The bus the display is driven over.
    pub closed spec fn spi(self) -> SpiHandle {
        self.spi
    }

    /// The chip-select pin.
    pub closed spec fn cs(self) -> Pin {
        self.cs
    }

    /// The data/command pin.
    pub closed spec fn dc(self) -> Pin {
        self.dc
    }

    /// The reset pin.
    pub closed spec fn reset(self) -> Pin {
        self.reset
    }

    /// The backlight pin.
    pub closed spec fn backlight(self) -> Pin {
        self.backlight
    }

    /// The orientation last applied to the panel.
    pub closed spec fn orientation(self) -> DisplayOrientation {
        self.orientation
    }

    /// The achieved bus clock.
    pub fn baud_hz(&self) -> (b: u32)
        ensures
            b == self.spi().baud(),
    {
        self.spi.baud_hz()
    }

    /// The configured bus mode.
    pub fn spi_mode(&self) -> (m: SpiMode)
        ensures
            m == self.spi().mode(),
    {
        self.spi.spi_mode()
    }

    /// Whether the backlight pin is driven high (backlight enabled).
    pub fn backlight_on(&self) -> (b: bool)
        ensures
            b == (self.backlight().role() == (PinRole::Output { high: true })),
    {
        match self.backlight.current_role() {
            PinRole::Output { high } => high,
            _ => false,
        }
    }

    /// The orientation last applied to the panel.
    pub fn current_orientation(&self) -> (o: DisplayOrientation)
        ensures
            o == self.orientation(),
    {
        self.orientation
    }

    /// The drawable width, which follows the applied orientation.
    pub fn width(&self) -> (w: u32)
        ensures
            w == width_of(self.orientation()),
    {
        match self.orientation {
            DisplayOrientation::Landscape => PANEL_LONG_PX,
            DisplayOrientation::LandscapeFlipped => PANEL_LONG_PX,
            DisplayOrientation::Portrait => PANEL_SHORT_PX,
            DisplayOrientation::PortraitFlipped => PANEL_SHORT_PX,
        }
    }

    /// The drawable height, which follows the applied orientation.
    pub fn height(&self) -> (h: u32)
        ensures
            h == height_of(self.orientation()),
    {
        match self.orientation {
            DisplayOrientation::Landscape => PANEL_SHORT_PX,
            DisplayOrientation::LandscapeFlipped => PANEL_SHORT_PX,
            DisplayOrientation::Portrait => PANEL_LONG_PX,
            DisplayOrientation::PortraitFlipped => PANEL_LONG_PX,
        }
    }

    /// Apply a rotation to the panel.  `transfer_ok` is whether the bus
    /// write reached the controller; a failed write is surfaced as
    /// `Error::RuntimeTransferFailure` and changes nothing.
    pub fn set_orientation(&mut self, o: DisplayOrientation, transfer_ok: bool) -> (r: Result<
        (),
        Error,
    >)
        ensures
            transfer_ok ==> {
                &&& r == Ok::<(), Error>(())
                &&& final(self).orientation() == o
                &&& final(self).spi() == old(self).spi()
                &&& final(self).cs() == old(self).cs()
                &&& final(self).dc() == old(self).dc()
                &&& final(self).reset() == old(self).reset()
                &&& final(self).backlight() == old(self).backlight()
            },
            !transfer_ok ==> {
                &&& r == Err::<(), Error>(Error::RuntimeTransferFailure)
                &&& *final(self) == *old(self)
            },
    {
        if transfer_ok {
            self.orientation = o;
            Ok(())
        } else {
            Err(Error::RuntimeTransferFailure)
        }
    }
}

impl Display {
    /// The bundle holds the display pins, unconfigured.
    pub open spec fn wf(self) -> bool {
        &&& self.miso.is_floating_at(1, 18)
        &&& self.mosi.is_floating_at(1, 19)
        &&& self.sck.is_floating_at(1, 20)
        &&& self.cs.is_floating_at(1, 21)
        &&& self.dc.is_floating_at(2, 6)
        &&& self.reset.is_floating_at(2, 7)
        &&& self.backlight.is_floating_at(2, 5)
    }

    /// The locations the bundle occupies.
    pub open spec fn locs(self) -> Set<int> {
        set![
            self.miso.loc(),
            self.mosi.loc(),
            self.sck.loc(),
            self.cs.loc(),
            self.dc.loc(),
            self.reset.loc(),
            self.backlight.loc(),
        ]
    }

    /// Initialize the display: bind its signal pins to serial engine 7
    /// at the controller's target frequency and default mode, raise the
    /// chip-select, data/command and reset pins as outputs, light the
    /// backlight, and set the initial orientation.  `probe_ok` is
    /// whether the panel acknowledged its init handshake; a refusal is
    /// surfaced as `Error::PeripheralInitFailure` (the engine stays
    /// claimed, as the hardware was consumed), and a second binding of
    /// the engine as `Error::ResourceAlreadyTaken`.
    pub fn init(self, hw: &mut Hardware, clocks: &ClockContext, probe_ok: bool) -> (r: Result<
        DisplayHandle,
        Error,
    >)
        requires
            self.wf(),
            clocks.wf(),
        ensures
            final(hw).pins_taken() == old(hw).pins_taken(),
            old(hw).taken(ControllerId::Sercom7) ==> {
                &&& r == Err::<DisplayHandle, Error>(Error::ResourceAlreadyTaken)
                &&& forall|id: ControllerId| final(hw).taken(id) == old(hw).taken(id)
            },
            !old(hw).taken(ControllerId::Sercom7) ==> {
                &&& final(hw).taken(ControllerId::Sercom7)
                &&& forall|id: ControllerId|
                    id != ControllerId::Sercom7 ==> final(hw).taken(id) == old(hw).taken(id)
            },
            !old(hw).taken(ControllerId::Sercom7) && !probe_ok ==> r == Err::<
                DisplayHandle,
                Error,
            >(Error::PeripheralInitFailure),
            !old(hw).taken(ControllerId::Sercom7) && probe_ok ==> {
                &&& r is Ok
                &&& r->Ok_0.spi().baud() as int == achieved_rate(clocks.root(), DISPLAY_SPI_HZ)
                &&& r->Ok_0.spi().mode() == default_spi_mode()
                &&& r->Ok_0.orientation() == DisplayOrientation::LandscapeFlipped
                &&& r->Ok_0.cs().loc() == loc_code(1, 21)
                &&& r->Ok_0.dc().loc() == loc_code(2, 6)
                &&& r->Ok_0.reset().loc() == loc_code(2, 7)
                &&& r->Ok_0.backlight().loc() == loc_code(2, 5)
                &&& r->Ok_0.cs().role() is Output
                &&& r->Ok_0.dc().role() is Output
                &&& r->Ok_0.reset().role() is Output
                &&& r->Ok_0.backlight().role() == (PinRole::Output { high: true })
                &&& r->Ok_0.spi().miso().loc() == loc_code(1, 18)
                &&& r->Ok_0.spi().mosi().loc() == loc_code(1, 19)
                &&& r->Ok_0.spi().sck().loc() == loc_code(1, 20)
                &&& r->Ok_0.spi().miso().role() == PinRole::AlternateD
                &&& r->Ok_0.spi().mosi().role() == PinRole::AlternateD
                &&& r->Ok_0.spi().sck().role() == PinRole::AlternateD
            },
    {
        let mode = SpiMode { polarity: Polarity::IdleLow, phase: Phase::CaptureOnFirstTransition };
        let spi = match bind_spi(
            self.miso,
            self.mosi,
            self.sck,
            ControllerId::Sercom7,
            hw,
            clocks,
            DISPLAY_SPI_HZ,
            mode,
        ) {
            Err(e) => {
                return Err(e);
            },
            Ok(spi) => spi,
        };

        let cs = self.cs.into_push_pull_output();
        let dc = self.dc.into_push_pull_output();
        let reset = self.reset.into_push_pull_output();
        let mut backlight = self.backlight.into_push_pull_output();
        backlight.set_high();

        if !probe_ok {
            return Err(Error::PeripheralInitFailure);
        }

        Ok(DisplayHandle {
            spi,
            cs,
            dc,
            reset,
            backlight,
            orientation: DisplayOrientation::LandscapeFlipped,
        })
    }
}

} // verus!
