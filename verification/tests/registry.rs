//! Tests for the pin registry, the partitioner, and the hardware claim
//! tracking.

use wio_terminal::hardware::{ControllerId, Hardware};
use wio_terminal::pins::{PinRole, Pins, Sets};
use wio_terminal::Error;

#[test]
fn registry_new_gives_all_pins_once() {
    let mut hw = Hardware::new();
    let pins = Pins::new(&mut hw).unwrap_or_else(|_| panic!("first claim must succeed"));
    assert_eq!(pins.user_led.location(), (0, 15));
    assert_eq!(pins.buzzer_ctr.location(), (3, 11));
    assert_eq!(pins.i2c0_scl.location(), (0, 12));
    assert_eq!(pins.i2c0_sda.location(), (0, 13));
    assert_eq!(pins.lcd_cs.location(), (1, 21));
    assert_eq!(pins.sd_det.location(), (3, 12));
    assert_eq!(pins.irq0.location(), (2, 20));
}

#[test]
fn registry_new_twice_is_resource_already_taken() {
    let mut hw = Hardware::new();
    let first = Pins::new(&mut hw);
    assert!(first.is_ok());
    let second = Pins::new(&mut hw);
    match second {
        Err(e) => assert_eq!(e, Error::ResourceAlreadyTaken),
        Ok(_) => panic!("second claim must fail"),
    }
}

#[test]
fn split_assigns_each_location_to_one_bundle() {
    let mut hw = Hardware::new();
    let pins = Pins::new(&mut hw).unwrap_or_else(|_| panic!("first claim must succeed"));
    let sets: Sets = pins.split();

    let locations = vec![
        sets.flash.sck.location(),
        sets.flash.cs.location(),
        sets.flash.d0.location(),
        sets.flash.d1.location(),
        sets.flash.d2.location(),
        sets.flash.d3.location(),
        sets.sd_card.cs.location(),
        sets.sd_card.mosi.location(),
        sets.sd_card.sck.location(),
        sets.sd_card.miso.location(),
        sets.sd_card.det.location(),
        sets.uart.tx.location(),
        sets.uart.rx.location(),
        sets.usb.dm.location(),
        sets.usb.dp.location(),
        sets.display.miso.location(),
        sets.display.mosi.location(),
        sets.display.sck.location(),
        sets.display.cs.location(),
        sets.display.dc.location(),
        sets.display.reset.location(),
        sets.display.backlight.location(),
        sets.accelerometer.scl.location(),
        sets.accelerometer.sda.location(),
        sets.buzzer.ctr.location(),
    ];
    for (i, a) in locations.iter().enumerate() {
        for b in locations.iter().skip(i + 1) {
            assert_ne!(a, b, "two bundles share a pin location");
        }
    }
}

#[test]
fn split_bundle_pins_are_at_schematic_locations() {
    let mut hw = Hardware::new();
    let pins = Pins::new(&mut hw).unwrap_or_else(|_| panic!("first claim must succeed"));
    let sets = pins.split();
    assert_eq!(sets.uart.tx.location(), (1, 26));
    assert_eq!(sets.uart.rx.location(), (1, 27));
    assert_eq!(sets.usb.dm.location(), (0, 24));
    assert_eq!(sets.usb.dp.location(), (0, 25));
    assert_eq!(sets.display.backlight.location(), (2, 5));
    assert_eq!(sets.flash.d0.location(), (0, 8));
    assert_eq!(sets.sd_card.miso.location(), (2, 18));
}

#[test]
fn user_led_toggles_as_push_pull_output() {
    let mut hw = Hardware::new();
    let pins = Pins::new(&mut hw).unwrap_or_else(|_| panic!("first claim must succeed"));
    let mut led = pins.user_led.into_push_pull_output();
    assert_eq!(led.current_role(), PinRole::Output { high: false });
    led.set_high();
    assert_eq!(led.current_role(), PinRole::Output { high: true });
    led.set_low();
    assert_eq!(led.current_role(), PinRole::Output { high: false });
    assert_eq!(led.location(), (0, 15));
}

#[test]
fn controller_claimed_twice_is_resource_already_taken() {
    let mut hw = Hardware::new();
    assert!(hw.claim_controller(ControllerId::Sercom7).is_ok());
    match hw.claim_controller(ControllerId::Sercom7) {
        Err(e) => assert_eq!(e, Error::ResourceAlreadyTaken),
        Ok(()) => panic!("second claim must fail"),
    }
    assert!(hw.claim_controller(ControllerId::Tcc0).is_ok());
}
