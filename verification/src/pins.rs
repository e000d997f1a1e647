//! The pin catalog and registry: every physical GPIO pin of the board as
//! an exclusive, movable handle, and the consuming partitioner that moves
//! disjoint groups of pins into per-peripheral bundles.
//!
//! A pin is identified by its port (0 for port A through 3 for port D)
//! and its pin number within the port.  Transferring a pin into a role
//! consumes the handle and produces one tagged with the new role; a pin
//! therefore never exists in two roles at once.

use vstd::prelude::*;

use crate::clock::{ClockContext, ClockPurpose};
use crate::hardware::{ControllerId, Hardware};
use crate::Error;

verus! {

/// The role a pin is currently configured into.
#[derive(Clone, Copy, Debug, PartialEq, Eq, Structural)]
pub enum PinRole {
    /// Unconfigured: a floating input, as every pin leaves reset.
    FloatingInput,
    /// A push-pull output driving the given level.
    Output { high: bool },
    /// Alternate function C: a serial-engine pad (UART, I2C).
    AlternateC,
    /// Alternate function D: a serial-engine pad (the display's SPI).
    AlternateD,
    /// Alternate function F: a timer/counter output (PWM).
    AlternateF,
    /// Alternate function H: the USB data lines.
    AlternateH,
}

/// A single location code for a (port, pin number) pair, so that sets of
/// pin locations can be compared directly.
pub open spec fn loc_code(port: u8, num: u8) -> int {
    port * 32 + num
}

/// The alternate functions a pin location supports, from the device's
/// multiplexing table.  Only the locations this layer routes to a
/// controller are listed; every pin supports the plain output role.
pub open spec fn supports_alternate(port: u8, num: u8, r: PinRole) -> bool {
    match r {
        PinRole::AlternateC => (port == 0 && (num == 12 || num == 13)) || (port == 1 && (num
            == 26 || num == 27)),
        PinRole::AlternateD => port == 1 && (num == 18 || num == 19 || num == 20),
        PinRole::AlternateF => port == 3 && num == 11,
        PinRole::AlternateH => port == 0 && (num == 24 || num == 25),
        _ => false,
    }
}

/// An exclusively owned physical pin.  The handle is move-only: giving
/// the pin a new role consumes it and returns a handle tagged with that
/// role.
pub struct Pin {
    port: u8,
    num: u8,
    role: PinRole,
}

impl Pin {
    /// The pin's port (0 = port A, ..., 3 = port D).
    pub closed spec fn port(self) -> u8 {
        self.port
    }

    /// The pin's number within its port.
    pub closed spec fn num(self) -> u8 {
        self.num
    }

    /// The role the pin is currently configured into.
    pub closed spec fn role(self) -> PinRole {
        self.role
    }

    /// The pin's location code.
    pub open spec fn loc(self) -> int {
        loc_code(self.port(), self.num())
    }

    /// The pin sits at the given location and is still unconfigured.
    pub open spec fn is_floating_at(self, port: u8, num: u8) -> bool {
        &&& self.port() == port
        &&& self.num() == num
        &&& self.role() == PinRole::FloatingInput
    }

    /// An unconfigured pin at the given location; only the registry
    /// constructor mints pins.
    fn fresh(port: u8, num: u8) -> (p: Pin)
        ensures
            p.is_floating_at(port, num),
    {
        Pin { port, num, role: PinRole::FloatingInput }
    }

    /// Consume the pin and return it configured as a push-pull output,
    /// initially driving low.
    pub fn into_push_pull_output(self) -> (p: Pin)
        ensures
            p.port() == self.port(),
            p.num() == self.num(),
            p.role() == (PinRole::Output { high: false }),
    {
        Pin { port: self.port, num: self.num, role: PinRole::Output { high: false } }
    }

    /// Consume the pin and return it switched into the given alternate
    /// function, which its location must support.
    pub fn into_alternate(self, r: PinRole) -> (p: Pin)
        requires
            supports_alternate(self.port(), self.num(), r),
        ensures
            p.port() == self.port(),
            p.num() == self.num(),
            p.role() == r,
    {
        Pin { port: self.port, num: self.num, role: r }
    }

    /// The pin's (port, number) location.
    pub fn location(&self) -> (r: (u8, u8))
        ensures
            r.0 == self.port(),
            r.1 == self.num(),
    {
        (self.port, self.num)
    }

    /// The role the pin is currently configured into.
    pub fn current_role(&self) -> (r: PinRole)
        ensures
            r == self.role(),
    {
        self.role
    }

    /// Drive an output pin high.
    pub fn set_high(&mut self)
        requires
            old(self).role() is Output,
        ensures
            final(self).port() == old(self).port(),
            final(self).num() == old(self).num(),
            final(self).role() == (PinRole::Output { high: true }),
    {
        self.role = PinRole::Output { high: true };
    }

    /// Drive an output pin low.
    pub fn set_low(&mut self)
        requires
            old(self).role() is Output,
        ensures
            final(self).port() == old(self).port(),
            final(self).num() == old(self).num(),
            final(self).role() == (PinRole::Output { high: false }),
    {
        self.role = PinRole::Output { high: false };
    }
}

/// The pin registry: the full set of the board's pins, every one
/// unconfigured, owned exclusively.  Produced at most once per
/// `Hardware`.
///
/// The board also wires pin D12 to the SD card's detect line, so the
/// schematic's spare switch line on D12 is not listed: one location can
/// appear only once in the catalog.
pub struct Pins {
    /// Pin A15.
    pub user_led: Pin,
    /// Pin C26.
    pub button1: Pin,
    /// Pin C27.
    pub button2: Pin,
    /// Pin C28.
    pub button3: Pin,
    /// Pin D08.
    pub switch_x: Pin,
    /// Pin D09.
    pub switch_y: Pin,
    /// Pin D10.
    pub switch_z: Pin,
    /// Pin D20.
    pub switch_u: Pin,
    /// Pin A12.
    pub i2c0_scl: Pin,
    /// Pin A13.
    pub i2c0_sda: Pin,
    /// Pin A16.
    pub i2c1_scl: Pin,
    /// Pin A17.
    pub i2c1_sda: Pin,
    /// Pin B00.
    pub spi_miso: Pin,
    /// Pin B01.
    pub spi_cs: Pin,
    /// Pin B02.
    pub spi_mosi: Pin,
    /// Pin B03.
    pub spi_sck: Pin,
    /// Pin B26.
    pub txd: Pin,
    /// Pin B27.
    pub rxd: Pin,
    /// Pin A24.
    pub usb_dm: Pin,
    /// Pin A25.
    pub usb_dp: Pin,
    /// Pin A27.
    pub usb_host_en: Pin,
    /// Pin B18.
    pub lcd_miso: Pin,
    /// Pin B19.
    pub lcd_mosi: Pin,
    /// Pin B20.
    pub lcd_sck: Pin,
    /// Pin B21.
    pub lcd_cs: Pin,
    /// Pin C05.
    pub lcd_backlight: Pin,
    /// Pin C06.
    pub lcd_dc: Pin,
    /// Pin C07.
    pub lcd_reset: Pin,
    /// Pin C10.
    pub lcd_xl: Pin,
    /// Pin C11.
    pub lcd_yu: Pin,
    /// Pin C12.
    pub lcd_xr: Pin,
    /// Pin C13.
    pub lcd_yd: Pin,
    /// Pin C21.
    pub gyroscope_int1: Pin,
    /// Pin A20.
    pub i2s_lrclk: Pin,
    /// Pin A21.
    pub i2s_sdin: Pin,
    /// Pin A22.
    pub i2s_sdout: Pin,
    /// Pin B16.
    pub i2s_blck: Pin,
    /// Pin D11.
    pub buzzer_ctr: Pin,
    /// Pin C30.
    pub mic_output: Pin,
    /// Pin A08.
    pub mcu_flash_qspi_io0: Pin,
    /// Pin A09.
    pub mcu_flash_qspi_io1: Pin,
    /// Pin A10.
    pub mcu_flash_qspi_io2: Pin,
    /// Pin A11.
    pub mcu_flash_qspi_io3: Pin,
    /// Pin B10.
    pub mcu_flash_qspi_clk: Pin,
    /// Pin B11.
    pub mcu_flash_qspi_cs: Pin,
    /// Pin C16.
    pub sd_mosi: Pin,
    /// Pin C17.
    pub sd_sck: Pin,
    /// Pin C18.
    pub sd_miso: Pin,
    /// Pin C19.
    pub sd_cs: Pin,
    /// Pin D12.
    pub sd_det: Pin,
    /// Pin A18.
    pub rtl8720d_chip_pu: Pin,
    /// Pin B24.
    pub rtl8720d_hspi_mosi: Pin,
    /// Pin B25.
    pub rtl8720d_hspi_clk: Pin,
    /// Pin C22.
    pub rtl8720d_rxd: Pin,
    /// Pin C23.
    pub rtl8720d_txd: Pin,
    /// Pin C24.
    pub rtl8720d_hspi_miso: Pin,
    /// Pin C25.
    pub rtl8720d_hspi_cs: Pin,
    /// Pin B08.
    pub a0_d0: Pin,
    /// Pin B09.
    pub a1_d1: Pin,
    /// Pin A07.
    pub a2_d2: Pin,
    /// Pin B04.
    pub a3_d3: Pin,
    /// Pin B05.
    pub a4_d4: Pin,
    /// Pin B06.
    pub a5_d5: Pin,
    /// Pin A04.
    pub a6_d6: Pin,
    /// Pin B07.
    pub a7_d7: Pin,
    /// Pin A06.
    pub a8_d8: Pin,
    /// Pin B28.
    pub fpc_d3_pwm3: Pin,
    /// Pin B17.
    pub fpc_d4_pwm4: Pin,
    /// Pin B29.
    pub fpc_d5_pwm5: Pin,
    /// Pin A14.
    pub fpc_d6_pwm6: Pin,
    /// Pin C01.
    pub fpc_d7_a7: Pin,
    /// Pin C02.
    pub fpc_d8_a8: Pin,
    /// Pin C03.
    pub fpc_d9_a9: Pin,
    /// Pin C04.
    pub fpc_d10_pwm10: Pin,
    /// Pin C31.
    pub fpc_d11_a11: Pin,
    /// Pin D00.
    pub fpc_d12_a12: Pin,
    /// Pin D01.
    pub fpc_d13_a13: Pin,
    /// Pin A02.
    pub dac0: Pin,
    /// Pin A05.
    pub dac1: Pin,
    /// Pin B14.
    pub gpclk0: Pin,
    /// Pin B12.
    pub gpclk1: Pin,
    /// Pin B13.
    pub gpclk2: Pin,
    /// Pin A30.
    pub swdclk: Pin,
    /// Pin A31.
    pub swdio: Pin,
    /// Pin B22.
    pub xin: Pin,
    /// Pin B23.
    pub xout: Pin,
    /// Pin A19.
    pub sync: Pin,
    /// Pin B30.
    pub swo: Pin,
    /// Pin B31.
    pub ir_ctl: Pin,
    /// Pin C14.
    pub output_ctr_5v: Pin,
    /// Pin C15.
    pub output_ctr_3v3: Pin,
    /// Pin C20.
    pub irq0: Pin,}

impl Pins {
    /// Every pin of the catalog is present, at its schematic location,
    /// and still unconfigured.
    pub open spec fn wf(self) -> bool {
        &&& self.user_led.is_floating_at(0, 15)
        &&& self.button1.is_floating_at(2, 26)
        &&& self.button2.is_floating_at(2, 27)
        &&& self.button3.is_floating_at(2, 28)
        &&& self.switch_x.is_floating_at(3, 8)
        &&& self.switch_y.is_floating_at(3, 9)
        &&& self.switch_z.is_floating_at(3, 10)
        &&& self.switch_u.is_floating_at(3, 20)
        &&& self.i2c0_scl.is_floating_at(0, 12)
        &&& self.i2c0_sda.is_floating_at(0, 13)
        &&& self.i2c1_scl.is_floating_at(0, 16)
        &&& self.i2c1_sda.is_floating_at(0, 17)
        &&& self.spi_miso.is_floating_at(1, 0)
        &&& self.spi_cs.is_floating_at(1, 1)
        &&& self.spi_mosi.is_floating_at(1, 2)
        &&& self.spi_sck.is_floating_at(1, 3)
        &&& self.txd.is_floating_at(1, 26)
        &&& self.rxd.is_floating_at(1, 27)
        &&& self.usb_dm.is_floating_at(0, 24)
        &&& self.usb_dp.is_floating_at(0, 25)
        &&& self.usb_host_en.is_floating_at(0, 27)
        &&& self.lcd_miso.is_floating_at(1, 18)
        &&& self.lcd_mosi.is_floating_at(1, 19)
        &&& self.lcd_sck.is_floating_at(1, 20)
        &&& self.lcd_cs.is_floating_at(1, 21)
        &&& self.lcd_backlight.is_floating_at(2, 5)
        &&& self.lcd_dc.is_floating_at(2, 6)
        &&& self.lcd_reset.is_floating_at(2, 7)
        &&& self.lcd_xl.is_floating_at(2, 10)
        &&& self.lcd_yu.is_floating_at(2, 11)
        &&& self.lcd_xr.is_floating_at(2, 12)
        &&& self.lcd_yd.is_floating_at(2, 13)
        &&& self.gyroscope_int1.is_floating_at(2, 21)
        &&& self.i2s_lrclk.is_floating_at(0, 20)
        &&& self.i2s_sdin.is_floating_at(0, 21)
        &&& self.i2s_sdout.is_floating_at(0, 22)
        &&& self.i2s_blck.is_floating_at(1, 16)
        &&& self.buzzer_ctr.is_floating_at(3, 11)
        &&& self.mic_output.is_floating_at(2, 30)
        &&& self.mcu_flash_qspi_io0.is_floating_at(0, 8)
        &&& self.mcu_flash_qspi_io1.is_floating_at(0, 9)
        &&& self.mcu_flash_qspi_io2.is_floating_at(0, 10)
        &&& self.mcu_flash_qspi_io3.is_floating_at(0, 11)
        &&& self.mcu_flash_qspi_clk.is_floating_at(1, 10)
        &&& self.mcu_flash_qspi_cs.is_floating_at(1, 11)
        &&& self.sd_mosi.is_floating_at(2, 16)
        &&& self.sd_sck.is_floating_at(2, 17)
        &&& self.sd_miso.is_floating_at(2, 18)
        &&& self.sd_cs.is_floating_at(2, 19)
        &&& self.sd_det.is_floating_at(3, 12)
        &&& self.rtl8720d_chip_pu.is_floating_at(0, 18)
        &&& self.rtl8720d_hspi_mosi.is_floating_at(1, 24)
        &&& self.rtl8720d_hspi_clk.is_floating_at(1, 25)
        &&& self.rtl8720d_rxd.is_floating_at(2, 22)
        &&& self.rtl8720d_txd.is_floating_at(2, 23)
        &&& self.rtl8720d_hspi_miso.is_floating_at(2, 24)
        &&& self.rtl8720d_hspi_cs.is_floating_at(2, 25)
        &&& self.a0_d0.is_floating_at(1, 8)
        &&& self.a1_d1.is_floating_at(1, 9)
        &&& self.a2_d2.is_floating_at(0, 7)
        &&& self.a3_d3.is_floating_at(1, 4)
        &&& self.a4_d4.is_floating_at(1, 5)
        &&& self.a5_d5.is_floating_at(1, 6)
        &&& self.a6_d6.is_floating_at(0, 4)
        &&& self.a7_d7.is_floating_at(1, 7)
        &&& self.a8_d8.is_floating_at(0, 6)
        &&& self.fpc_d3_pwm3.is_floating_at(1, 28)
        &&& self.fpc_d4_pwm4.is_floating_at(1, 17)
        &&& self.fpc_d5_pwm5.is_floating_at(1, 29)
        &&& self.fpc_d6_pwm6.is_floating_at(0, 14)
        &&& self.fpc_d7_a7.is_floating_at(2, 1)
        &&& self.fpc_d8_a8.is_floating_at(2, 2)
        &&& self.fpc_d9_a9.is_floating_at(2, 3)
        &&& self.fpc_d10_pwm10.is_floating_at(2, 4)
        &&& self.fpc_d11_a11.is_floating_at(2, 31)
        &&& self.fpc_d12_a12.is_floating_at(3, 0)
        &&& self.fpc_d13_a13.is_floating_at(3, 1)
        &&& self.dac0.is_floating_at(0, 2)
        &&& self.dac1.is_floating_at(0, 5)
        &&& self.gpclk0.is_floating_at(1, 14)
        &&& self.gpclk1.is_floating_at(1, 12)
        &&& self.gpclk2.is_floating_at(1, 13)
        &&& self.swdclk.is_floating_at(0, 30)
        &&& self.swdio.is_floating_at(0, 31)
        &&& self.xin.is_floating_at(1, 22)
        &&& self.xout.is_floating_at(1, 23)
        &&& self.sync.is_floating_at(0, 19)
        &&& self.swo.is_floating_at(1, 30)
        &&& self.ir_ctl.is_floating_at(1, 31)
        &&& self.output_ctr_5v.is_floating_at(2, 14)
        &&& self.output_ctr_3v3.is_floating_at(2, 15)
        &&& self.irq0.is_floating_at(2, 20)    }

    /// Claim the full pin registry: all of the board's pins, each at its
    /// schematic location and unconfigured.  Construction is atomic —
    /// either every pin is produced or the call fails entirely with
    /// `Error::ResourceAlreadyTaken` because the registry was already
    /// claimed once.
    pub fn new(hw: &mut Hardware) -> (r: Result<Pins, Error>)
        ensures
            old(hw).pins_taken() ==> {
                &&& r == Err::<Pins, Error>(Error::ResourceAlreadyTaken)
                &&& final(hw).pins_taken() == old(hw).pins_taken()
                &&& forall|id: ControllerId| final(hw).taken(id) == old(hw).taken(id)
            },
            !old(hw).pins_taken() ==> {
                &&& r is Ok
                &&& r->Ok_0.wf()
                &&& final(hw).pins_taken()
                &&& forall|id: ControllerId| final(hw).taken(id) == old(hw).taken(id)
            },
    {
        match hw.claim_pins() {
            Err(e) => Err(e),
            Ok(()) => Ok(Pins {
                user_led: Pin::fresh(0, 15),
                button1: Pin::fresh(2, 26),
                button2: Pin::fresh(2, 27),
                button3: Pin::fresh(2, 28),
                switch_x: Pin::fresh(3, 8),
                switch_y: Pin::fresh(3, 9),
                switch_z: Pin::fresh(3, 10),
                switch_u: Pin::fresh(3, 20),
                i2c0_scl: Pin::fresh(0, 12),
                i2c0_sda: Pin::fresh(0, 13),
                i2c1_scl: Pin::fresh(0, 16),
                i2c1_sda: Pin::fresh(0, 17),
                spi_miso: Pin::fresh(1, 0),
                spi_cs: Pin::fresh(1, 1),
                spi_mosi: Pin::fresh(1, 2),
                spi_sck: Pin::fresh(1, 3),
                txd: Pin::fresh(1, 26),
                rxd: Pin::fresh(1, 27),
                usb_dm: Pin::fresh(0, 24),
                usb_dp: Pin::fresh(0, 25),
                usb_host_en: Pin::fresh(0, 27),
                lcd_miso: Pin::fresh(1, 18),
                lcd_mosi: Pin::fresh(1, 19),
                lcd_sck: Pin::fresh(1, 20),
                lcd_cs: Pin::fresh(1, 21),
                lcd_backlight: Pin::fresh(2, 5),
                lcd_dc: Pin::fresh(2, 6),
                lcd_reset: Pin::fresh(2, 7),
                lcd_xl: Pin::fresh(2, 10),
                lcd_yu: Pin::fresh(2, 11),
                lcd_xr: Pin::fresh(2, 12),
                lcd_yd: Pin::fresh(2, 13),
                gyroscope_int1: Pin::fresh(2, 21),
                i2s_lrclk: Pin::fresh(0, 20),
                i2s_sdin: Pin::fresh(0, 21),
                i2s_sdout: Pin::fresh(0, 22),
                i2s_blck: Pin::fresh(1, 16),
                buzzer_ctr: Pin::fresh(3, 11),
                mic_output: Pin::fresh(2, 30),
                mcu_flash_qspi_io0: Pin::fresh(0, 8),
                mcu_flash_qspi_io1: Pin::fresh(0, 9),
                mcu_flash_qspi_io2: Pin::fresh(0, 10),
                mcu_flash_qspi_io3: Pin::fresh(0, 11),
                mcu_flash_qspi_clk: Pin::fresh(1, 10),
                mcu_flash_qspi_cs: Pin::fresh(1, 11),
                sd_mosi: Pin::fresh(2, 16),
                sd_sck: Pin::fresh(2, 17),
                sd_miso: Pin::fresh(2, 18),
                sd_cs: Pin::fresh(2, 19),
                sd_det: Pin::fresh(3, 12),
                rtl8720d_chip_pu: Pin::fresh(0, 18),
                rtl8720d_hspi_mosi: Pin::fresh(1, 24),
                rtl8720d_hspi_clk: Pin::fresh(1, 25),
                rtl8720d_rxd: Pin::fresh(2, 22),
                rtl8720d_txd: Pin::fresh(2, 23),
                rtl8720d_hspi_miso: Pin::fresh(2, 24),
                rtl8720d_hspi_cs: Pin::fresh(2, 25),
                a0_d0: Pin::fresh(1, 8),
                a1_d1: Pin::fresh(1, 9),
                a2_d2: Pin::fresh(0, 7),
                a3_d3: Pin::fresh(1, 4),
                a4_d4: Pin::fresh(1, 5),
                a5_d5: Pin::fresh(1, 6),
                a6_d6: Pin::fresh(0, 4),
                a7_d7: Pin::fresh(1, 7),
                a8_d8: Pin::fresh(0, 6),
                fpc_d3_pwm3: Pin::fresh(1, 28),
                fpc_d4_pwm4: Pin::fresh(1, 17),
                fpc_d5_pwm5: Pin::fresh(1, 29),
                fpc_d6_pwm6: Pin::fresh(0, 14),
                fpc_d7_a7: Pin::fresh(2, 1),
                fpc_d8_a8: Pin::fresh(2, 2),
                fpc_d9_a9: Pin::fresh(2, 3),
                fpc_d10_pwm10: Pin::fresh(2, 4),
                fpc_d11_a11: Pin::fresh(2, 31),
                fpc_d12_a12: Pin::fresh(3, 0),
                fpc_d13_a13: Pin::fresh(3, 1),
                dac0: Pin::fresh(0, 2),
                dac1: Pin::fresh(0, 5),
                gpclk0: Pin::fresh(1, 14),
                gpclk1: Pin::fresh(1, 12),
                gpclk2: Pin::fresh(1, 13),
                swdclk: Pin::fresh(0, 30),
                swdio: Pin::fresh(0, 31),
                xin: Pin::fresh(1, 22),
                xout: Pin::fresh(1, 23),
                sync: Pin::fresh(0, 19),
                swo: Pin::fresh(1, 30),
                ir_ctl: Pin::fresh(1, 31),
                output_ctr_5v: Pin::fresh(2, 14),
                output_ctr_3v3: Pin::fresh(2, 15),
                irq0: Pin::fresh(2, 20),            }),
        }
    }
}

/// The locations of every pin in the catalog.
pub open spec fn catalog_locs() -> Set<int> {
    set![
        loc_code(0, 15),
        loc_code(2, 26),
        loc_code(2, 27),
        loc_code(2, 28),
        loc_code(3, 8),
        loc_code(3, 9),
        loc_code(3, 10),
        loc_code(3, 20),
        loc_code(0, 12),
        loc_code(0, 13),
        loc_code(0, 16),
        loc_code(0, 17),
        loc_code(1, 0),
        loc_code(1, 1),
        loc_code(1, 2),
        loc_code(1, 3),
        loc_code(1, 26),
        loc_code(1, 27),
        loc_code(0, 24),
        loc_code(0, 25),
        loc_code(0, 27),
        loc_code(1, 18),
        loc_code(1, 19),
        loc_code(1, 20),
        loc_code(1, 21),
        loc_code(2, 5),
        loc_code(2, 6),
        loc_code(2, 7),
        loc_code(2, 10),
        loc_code(2, 11),
        loc_code(2, 12),
        loc_code(2, 13),
        loc_code(2, 21),
        loc_code(0, 20),
        loc_code(0, 21),
        loc_code(0, 22),
        loc_code(1, 16),
        loc_code(3, 11),
        loc_code(2, 30),
        loc_code(0, 8),
        loc_code(0, 9),
        loc_code(0, 10),
        loc_code(0, 11),
        loc_code(1, 10),
        loc_code(1, 11),
        loc_code(2, 16),
        loc_code(2, 17),
        loc_code(2, 18),
        loc_code(2, 19),
        loc_code(3, 12),
        loc_code(0, 18),
        loc_code(1, 24),
        loc_code(1, 25),
        loc_code(2, 22),
        loc_code(2, 23),
        loc_code(2, 24),
        loc_code(2, 25),
        loc_code(1, 8),
        loc_code(1, 9),
        loc_code(0, 7),
        loc_code(1, 4),
        loc_code(1, 5),
        loc_code(1, 6),
        loc_code(0, 4),
        loc_code(1, 7),
        loc_code(0, 6),
        loc_code(1, 28),
        loc_code(1, 17),
        loc_code(1, 29),
        loc_code(0, 14),
        loc_code(2, 1),
        loc_code(2, 2),
        loc_code(2, 3),
        loc_code(2, 4),
        loc_code(2, 31),
        loc_code(3, 0),
        loc_code(3, 1),
        loc_code(0, 2),
        loc_code(0, 5),
        loc_code(1, 14),
        loc_code(1, 12),
        loc_code(1, 13),
        loc_code(0, 30),
        loc_code(0, 31),
        loc_code(1, 22),
        loc_code(1, 23),
        loc_code(0, 19),
        loc_code(1, 30),
        loc_code(1, 31),
        loc_code(2, 14),
        loc_code(2, 15),
        loc_code(2, 20)    ]
}

/// The QSPI flash pins.
pub struct QSPIFlash {
    /// Clock line.
    pub sck: Pin,
    /// Chip-select line.
    pub cs: Pin,
    /// Data line 0.
    pub d0: Pin,
    /// Data line 1.
    pub d1: Pin,
    /// Data line 2.
    pub d2: Pin,
    /// Data line 3.
    pub d3: Pin,
}

impl QSPIFlash {
    /// The bundle holds the flash pins, unconfigured.
    pub open spec fn wf(self) -> bool {
        &&& self.sck.is_floating_at(1, 10)
        &&& self.cs.is_floating_at(1, 11)
        &&& self.d0.is_floating_at(0, 8)
        &&& self.d1.is_floating_at(0, 9)
        &&& self.d2.is_floating_at(0, 10)
        &&& self.d3.is_floating_at(0, 11)
    }

    /// The locations the bundle occupies.
    pub open spec fn locs(self) -> Set<int> {
        set![self.sck.loc(), self.cs.loc(), self.d0.loc(), self.d1.loc(), self.d2.loc(), self.d3.loc()]
    }
}

/// The SD card pins.
pub struct SDCard {
    /// Chip-select line.
    pub cs: Pin,
    /// Controller-to-card data line.
    pub mosi: Pin,
    /// Clock line.
    pub sck: Pin,
    /// Card-to-controller data line.
    pub miso: Pin,
    /// Card-detect line.
    pub det: Pin,
}

impl SDCard {
    /// The bundle holds the SD card pins, unconfigured.
    pub open spec fn wf(self) -> bool {
        &&& self.cs.is_floating_at(2, 19)
        &&& self.mosi.is_floating_at(2, 16)
        &&& self.sck.is_floating_at(2, 17)
        &&& self.miso.is_floating_at(2, 18)
        &&& self.det.is_floating_at(3, 12)
    }

    /// The locations the bundle occupies.
    pub open spec fn locs(self) -> Set<int> {
        set![self.cs.loc(), self.mosi.loc(), self.sck.loc(), self.miso.loc(), self.det.loc()]
    }
}

/// The external UART pins.
pub struct UART {
    /// Transmit line.
    pub tx: Pin,
    /// Receive line.
    pub rx: Pin,
}

/// A ready-to-use UART bound to serial engine 2.
pub struct UartHandle {
    tx: Pin,
    rx: Pin,
    baud_hz: u32,
}

impl UartHandle {
    /// The transmit pin, switched into its serial-engine pad.
    pub closed spec fn tx(self) -> Pin {
        self.tx
    }

    /// The receive pin, switched into its serial-engine pad.
    pub closed spec fn rx(self) -> Pin {
        self.rx
    }

    /// The configured baud rate.
    pub closed spec fn baud(self) -> u32 {
        self.baud_hz
    }

    /// The configured baud rate.
    pub fn baud_hz(&self) -> (b: u32)
        ensures
            b == self.baud(),
    {
        self.baud_hz
    }
}

impl UART {
    /// The bundle holds the UART pins, unconfigured.
    pub open spec fn wf(self) -> bool {
        &&& self.tx.is_floating_at(1, 26)
        &&& self.rx.is_floating_at(1, 27)
    }

    /// The locations the bundle occupies.
    pub open spec fn locs(self) -> Set<int> {
        set![self.tx.loc(), self.rx.loc()]
    }

    /// A baud rate the controller accepts: nonzero, and low enough for
    /// the controller's sixteenfold oversampling of the core clock.
    pub open spec fn baud_supported(baud_hz: u32, clocks: ClockContext) -> bool {
        1 <= baud_hz && 16 * (baud_hz as int) <= clocks.root() as int
    }

    /// Bind the labelled TXD and RXD pins to serial engine 2 at the
    /// given baud rate.  The baud rate is taken as given (no
    /// quantization); one the controller cannot reach from the core
    /// clock is rejected with `Error::ClockUnavailable`, and a second
    /// binding of the engine with `Error::ResourceAlreadyTaken`.
    pub fn uart(self, hw: &mut Hardware, clocks: &ClockContext, baud_hz: u32) -> (r: Result<
        UartHandle,
        Error,
    >)
        requires
            self.wf(),
            clocks.wf(),
        ensures
            final(hw).pins_taken() == old(hw).pins_taken(),
            !UART::baud_supported(baud_hz, *clocks) ==> {
                &&& r == Err::<UartHandle, Error>(Error::ClockUnavailable)
                &&& forall|id: ControllerId| final(hw).taken(id) == old(hw).taken(id)
            },
            UART::baud_supported(baud_hz, *clocks) && old(hw).taken(ControllerId::Sercom2) ==> {
                &&& r == Err::<UartHandle, Error>(Error::ResourceAlreadyTaken)
                &&& forall|id: ControllerId| final(hw).taken(id) == old(hw).taken(id)
            },
            UART::baud_supported(baud_hz, *clocks) && !old(hw).taken(ControllerId::Sercom2) ==> {
                &&& r is Ok
                &&& final(hw).taken(ControllerId::Sercom2)
                &&& forall|id: ControllerId|
                    id != ControllerId::Sercom2 ==> final(hw).taken(id) == old(hw).taken(id)
                &&& r->Ok_0.baud() == baud_hz
                &&& r->Ok_0.tx().loc() == loc_code(1, 26)
                &&& r->Ok_0.rx().loc() == loc_code(1, 27)
                &&& r->Ok_0.tx().role() == PinRole::AlternateC
                &&& r->Ok_0.rx().role() == PinRole::AlternateC
            },
    {
        let root = clocks.core_clock();
        if baud_hz == 0 || baud_hz > root / 16 {
            proof {
                vstd::arithmetic::div_mod::lemma_fundamental_div_mod(root as int, 16);
                vstd::arithmetic::div_mod::lemma_mod_bound(root as int, 16);
            }
            return Err(Error::ClockUnavailable);
        }
        proof {
            vstd::arithmetic::div_mod::lemma_fundamental_div_mod(root as int, 16);
            vstd::arithmetic::div_mod::lemma_mod_bound(root as int, 16);
        }
        match hw.claim_controller(ControllerId::Sercom2) {
            Err(e) => Err(e),
            Ok(()) => Ok(UartHandle {
                tx: self.tx.into_alternate(PinRole::AlternateC),
                rx: self.rx.into_alternate(PinRole::AlternateC),
                baud_hz,
            }),
        }
    }
}

/// The USB data pins.
pub struct USB {
    /// D- line.
    pub dm: Pin,
    /// D+ line.
    pub dp: Pin,
}

/// A ready-to-use USB bus allocator: the data pins switched into their
/// USB function and the USB clock generator configured.
pub struct UsbHandle {
    dm: Pin,
    dp: Pin,
}

impl UsbHandle {
    /// The D- pin, switched into its USB function.
    pub closed spec fn dm(self) -> Pin {
        self.dm
    }

    /// The D+ pin, switched into its USB function.
    pub closed spec fn dp(self) -> Pin {
        self.dp
    }
}

/// The clock generator the USB device clock is derived from.
pub const USB_GENERATOR: usize = 2;

impl USB {
    /// The bundle holds the USB pins, unconfigured.
    pub open spec fn wf(self) -> bool {
        &&& self.dm.is_floating_at(0, 24)
        &&& self.dp.is_floating_at(0, 25)
    }

    /// The locations the bundle occupies.
    pub open spec fn locs(self) -> Set<int> {
        set![self.dm.loc(), self.dp.loc()]
    }

    /// Bind the USB data pins to the USB device controller.  Explicitly
    /// reconfigures clock generator `USB_GENERATOR` to carry the USB
    /// clock — the deliberate path around the clock tree's
    /// no-silent-reuse rule — and claims the controller; a second claim
    /// fails with `Error::ResourceAlreadyTaken` and leaves the clock
    /// tree untouched.
    pub fn usb_allocator(self, hw: &mut Hardware, clocks: &mut ClockContext) -> (r: Result<
        UsbHandle,
        Error,
    >)
        requires
            self.wf(),
            old(clocks).wf(),
        ensures
            final(hw).pins_taken() == old(hw).pins_taken(),
            final(clocks).root() == old(clocks).root(),
            final(clocks).wf(),
            old(hw).taken(ControllerId::Usb) ==> {
                &&& r == Err::<UsbHandle, Error>(Error::ResourceAlreadyTaken)
                &&& forall|id: ControllerId| final(hw).taken(id) == old(hw).taken(id)
                &&& final(clocks).gens() == old(clocks).gens()
            },
            !old(hw).taken(ControllerId::Usb) ==> {
                &&& r is Ok
                &&& final(hw).taken(ControllerId::Usb)
                &&& forall|id: ControllerId|
                    id != ControllerId::Usb ==> final(hw).taken(id) == old(hw).taken(id)
                &&& final(clocks).gens() == old(clocks).gens().update(
                    USB_GENERATOR as int,
                    Some(ClockPurpose::UsbClock),
                )
                &&& r->Ok_0.dm().loc() == loc_code(0, 24)
                &&& r->Ok_0.dp().loc() == loc_code(0, 25)
                &&& r->Ok_0.dm().role() == PinRole::AlternateH
                &&& r->Ok_0.dp().role() == PinRole::AlternateH
            },
    {
        match hw.claim_controller(ControllerId::Usb) {
            Err(e) => Err(e),
            Ok(()) => {
                clocks.reconfigure_generator(USB_GENERATOR, ClockPurpose::UsbClock);
                Ok(UsbHandle {
                    dm: self.dm.into_alternate(PinRole::AlternateH),
                    dp: self.dp.into_alternate(PinRole::AlternateH),
                })
            },
        }
    }
}

/// The bundles the registry splits into, one per peripheral.
pub struct Sets {
    /// QSPI flash pins.
    pub flash: QSPIFlash,
    /// SD card pins.
    pub sd_card: SDCard,
    /// UART (external pinout) pins.
    pub uart: UART,
    /// USB pins.
    pub usb: USB,
    /// Display pins.
    pub display: crate::display::Display,
    /// Accelerometer I2C pins.
    pub accelerometer: crate::sensors::Accelerometer,
    /// Buzzer control pin.
    pub buzzer: crate::sound::Buzzer,
}

impl Sets {
    /// Every bundle holds its pins, unconfigured.
    pub open spec fn wf(self) -> bool {
        &&& self.flash.wf()
        &&& self.sd_card.wf()
        &&& self.uart.wf()
        &&& self.usb.wf()
        &&& self.display.wf()
        &&& self.accelerometer.wf()
        &&& self.buzzer.wf()
    }
}

impl Pins {
    /// Split the registry into the per-peripheral bundles, consuming it:
    /// each bundled pin moves out of the registry into exactly one
    /// bundle, and the registry cannot be split a second time.  Pins no
    /// bundle references are dropped here and stay unusable through this
    /// layer.  Total and infallible on a well-formed registry.
    pub fn split(self) -> (s: Sets)
        requires
            self.wf(),
        ensures
            s.wf(),
    {
        let flash = QSPIFlash {
            sck: self.mcu_flash_qspi_clk,
            cs: self.mcu_flash_qspi_cs,
            d0: self.mcu_flash_qspi_io0,
            d1: self.mcu_flash_qspi_io1,
            d2: self.mcu_flash_qspi_io2,
            d3: self.mcu_flash_qspi_io3,
        };

        let sd_card = SDCard {
            cs: self.sd_cs,
            mosi: self.sd_mosi,
            sck: self.sd_sck,
            miso: self.sd_miso,
            det: self.sd_det,
        };

        let uart = UART { rx: self.rxd, tx: self.txd };

        let usb = USB { dm: self.usb_dm, dp: self.usb_dp };

        let display = crate::display::Display {
            miso: self.lcd_miso,
            mosi: self.lcd_mosi,
            sck: self.lcd_sck,
            cs: self.lcd_cs,
            dc: self.lcd_dc,
            reset: self.lcd_reset,
            backlight: self.lcd_backlight,
        };

        let accelerometer = crate::sensors::Accelerometer {
            scl: self.i2c0_scl,
            sda: self.i2c0_sda,
        };

        let buzzer = crate::sound::Buzzer { ctr: self.buzzer_ctr };

        Sets { flash, sd_card, uart, usb, display, accelerometer, buzzer }
    }
}

/// The bundles a split produces are pairwise disjoint — no pin location
/// is assigned to two bundles — and every bundled location comes from
/// the pin catalog.
pub proof fn lemma_split_partitions(s: Sets)
    requires
        s.wf(),
    ensures
        s.flash.locs().disjoint(s.sd_card.locs()),
        s.flash.locs().disjoint(s.uart.locs()),
        s.flash.locs().disjoint(s.usb.locs()),
        s.flash.locs().disjoint(s.display.locs()),
        s.flash.locs().disjoint(s.accelerometer.locs()),
        s.flash.locs().disjoint(s.buzzer.locs()),
        s.sd_card.locs().disjoint(s.uart.locs()),
        s.sd_card.locs().disjoint(s.usb.locs()),
        s.sd_card.locs().disjoint(s.display.locs()),
        s.sd_card.locs().disjoint(s.accelerometer.locs()),
        s.sd_card.locs().disjoint(s.buzzer.locs()),
        s.uart.locs().disjoint(s.usb.locs()),
        s.uart.locs().disjoint(s.display.locs()),
        s.uart.locs().disjoint(s.accelerometer.locs()),
        s.uart.locs().disjoint(s.buzzer.locs()),
        s.usb.locs().disjoint(s.display.locs()),
        s.usb.locs().disjoint(s.accelerometer.locs()),
        s.usb.locs().disjoint(s.buzzer.locs()),
        s.display.locs().disjoint(s.accelerometer.locs()),
        s.display.locs().disjoint(s.buzzer.locs()),
        s.accelerometer.locs().disjoint(s.buzzer.locs()),
        s.flash.locs().union(s.sd_card.locs()).union(s.uart.locs()).union(s.usb.locs()).union(
            s.display.locs(),
        ).union(s.accelerometer.locs()).union(s.buzzer.locs()).subset_of(catalog_locs()),
{
}

} // verus!
