//! Tests for the clock tree and the peripheral binders.

use wio_terminal::clock::{select_divisor, ClockContext, ClockPurpose};
use wio_terminal::display::{DisplayOrientation, Phase, Polarity};
use wio_terminal::hardware::Hardware;
use wio_terminal::pins::Pins;
use wio_terminal::sensors::Accelerometer;
use wio_terminal::Error;

const ROOT_HZ: u32 = 120_000_000;

fn fresh_board() -> (Hardware, ClockContext, wio_terminal::pins::Sets) {
    let mut hw = Hardware::new();
    let clocks = ClockContext::new(ROOT_HZ);
    let pins = Pins::new(&mut hw).unwrap_or_else(|_| panic!("fresh board"));
    (hw, clocks, pins.split())
}

#[test]
fn divisor_is_minimal_and_rounds_down() {
    // 48 MHz root, 20 MHz target: divisor 3 achieves 16 MHz; divisor 2
    // would overshoot with 24 MHz.
    let d = select_divisor(48_000_000, 20_000_000);
    assert_eq!(d, 3);
    assert_eq!(48_000_000 / d, 16_000_000);

    // A target at or above the root clock needs no division at all.
    assert_eq!(select_divisor(1_000, 1_000), 1);
    assert_eq!(select_divisor(1_000, 2_000), 1);
    assert_eq!(select_divisor(1, 1), 1);

    // The extremes of the 32-bit range stay sound.
    let d = select_divisor(u32::MAX, 1);
    assert!(u32::MAX / d <= 1);
    assert!(u32::MAX / (d - 1) > 1);
    assert_eq!(select_divisor(u32::MAX, u32::MAX), 1);

    // Exhaustively: the divisor never overshoots, and no smaller one
    // would stay at or below the target.
    for c in 1..300u32 {
        for f in 1..40u32 {
            let d = select_divisor(c, f);
            assert!(d >= 1);
            assert!(c / d <= f, "c={} f={} d={}", c, f, d);
            if d > 1 {
                assert!(c / (d - 1) > f, "c={} f={} d={}", c, f, d);
            }
        }
    }
}

#[test]
fn display_init_binds_at_or_below_twenty_megahertz() {
    let (mut hw, clocks, sets) = fresh_board();
    let display = sets.display.init(&mut hw, &clocks, true).unwrap_or_else(|_| panic!("init"));
    // 120 MHz / 6 reaches the 20 MHz target exactly.
    assert_eq!(display.baud_hz(), 20_000_000);
    assert_eq!(display.current_orientation(), DisplayOrientation::LandscapeFlipped);
    assert!(display.backlight_on());
    assert_eq!(display.width(), 320);
    assert_eq!(display.height(), 240);
}

#[test]
fn display_init_twice_is_resource_already_taken() {
    let (mut hw, clocks, sets) = fresh_board();
    let _display = sets.display.init(&mut hw, &clocks, true).unwrap_or_else(|_| panic!("init"));

    // A second registry (a second board) would be needed for a second
    // display bundle; on this board the engine is now claimed.
    let mut hw2 = Hardware::new();
    let sets2 = Pins::new(&mut hw2).unwrap_or_else(|_| panic!("fresh board")).split();
    match sets2.display.init(&mut hw, &clocks, true) {
        Err(e) => assert_eq!(e, Error::ResourceAlreadyTaken),
        Ok(_) => panic!("engine already claimed"),
    }
}

#[test]
fn binding_same_configuration_twice_achieves_identical_rates() {
    let (mut hw1, clocks1, sets1) = fresh_board();
    let (mut hw2, clocks2, sets2) = fresh_board();
    let d1 = sets1.display.init(&mut hw1, &clocks1, true).unwrap_or_else(|_| panic!("init"));
    let d2 = sets2.display.init(&mut hw2, &clocks2, true).unwrap_or_else(|_| panic!("init"));
    assert_eq!(d1.baud_hz(), d2.baud_hz());

    let p1 = sets1.buzzer.init(&mut hw1, &clocks1);
    let p2 = sets2.buzzer.init(&mut hw2, &clocks2);
    assert_eq!(p1.freq_hz(), p2.freq_hz());
}

#[test]
fn display_probe_failure_is_peripheral_init_failure() {
    let (mut hw, clocks, sets) = fresh_board();
    match sets.display.init(&mut hw, &clocks, false) {
        Err(e) => assert_eq!(e, Error::PeripheralInitFailure),
        Ok(_) => panic!("probe refusal must surface"),
    }
}

#[test]
fn display_mode_is_passed_through_unmodified() {
    let (mut hw, clocks, sets) = fresh_board();
    let display = sets.display.init(&mut hw, &clocks, true).unwrap_or_else(|_| panic!("init"));
    let mode = display.spi_mode();
    assert_eq!(mode.polarity, Polarity::IdleLow);
    assert_eq!(mode.phase, Phase::CaptureOnFirstTransition);
}

#[test]
fn set_orientation_failure_changes_nothing() {
    let (mut hw, clocks, sets) = fresh_board();
    let mut display = sets.display.init(&mut hw, &clocks, true).unwrap_or_else(|_| panic!("init"));
    match display.set_orientation(DisplayOrientation::Portrait, false) {
        Err(e) => assert_eq!(e, Error::RuntimeTransferFailure),
        Ok(()) => panic!("failed write must surface"),
    }
    assert_eq!(display.current_orientation(), DisplayOrientation::LandscapeFlipped);
    assert!(display.set_orientation(DisplayOrientation::Portrait, true).is_ok());
    assert_eq!(display.current_orientation(), DisplayOrientation::Portrait);
    assert_eq!(display.width(), 240);
    assert_eq!(display.height(), 320);
}

#[test]
fn accelerometer_binds_at_four_hundred_kilohertz_alternate_address() {
    let (mut hw, clocks, sets) = fresh_board();
    let accel = Accelerometer::new(
        &mut hw,
        &clocks,
        sets.accelerometer.sda,
        sets.accelerometer.scl,
        true,
    )
    .unwrap_or_else(|_| panic!("probe"));
    assert_eq!(accel.freq_hz(), 400_000);
    assert_eq!(accel.addr(), 0x19);
}

#[test]
fn accelerometer_probe_failure_is_surfaced() {
    let (mut hw, clocks, sets) = fresh_board();
    match Accelerometer::new(&mut hw, &clocks, sets.accelerometer.sda, sets.accelerometer.scl, false)
    {
        Err(e) => assert_eq!(e, Error::PeripheralInitFailure),
        Ok(_) => panic!("probe refusal must surface"),
    }
}

#[test]
fn uart_and_accelerometer_share_one_engine() {
    let (mut hw, clocks, sets) = fresh_board();
    let uart = sets.uart.uart(&mut hw, &clocks, 115_200).unwrap_or_else(|_| panic!("uart"));
    assert_eq!(uart.baud_hz(), 115_200);
    match Accelerometer::new(&mut hw, &clocks, sets.accelerometer.sda, sets.accelerometer.scl, true)
    {
        Err(e) => assert_eq!(e, Error::ResourceAlreadyTaken),
        Ok(_) => panic!("the engine is already bound to the UART"),
    }
}

#[test]
fn uart_rejects_unreachable_baud() {
    let (mut hw, clocks, sets) = fresh_board();
    // The controller oversamples sixteenfold: a baud rate above
    // root / 16 cannot be generated.
    match sets.uart.uart(&mut hw, &clocks, ROOT_HZ / 16 + 1) {
        Err(e) => assert_eq!(e, Error::ClockUnavailable),
        Ok(_) => panic!("unsupported baud must be rejected"),
    }
}

#[test]
fn uart_rejects_zero_baud() {
    let (mut hw, clocks, sets) = fresh_board();
    match sets.uart.uart(&mut hw, &clocks, 0) {
        Err(e) => assert_eq!(e, Error::ClockUnavailable),
        Ok(_) => panic!("zero baud must be rejected"),
    }
}

#[test]
fn buzzer_binds_near_one_kilohertz() {
    let (mut hw, clocks, sets) = fresh_board();
    let pwm = sets.buzzer.init(&mut hw, &clocks);
    assert_eq!(pwm.freq_hz(), 1000);
}

#[test]
fn usb_allocator_claims_controller_and_generator() {
    let (mut hw, mut clocks, sets) = fresh_board();
    assert!(sets.usb.usb_allocator(&mut hw, &mut clocks).is_ok());

    let mut hw2 = Hardware::new();
    let sets2 = Pins::new(&mut hw2).unwrap_or_else(|_| panic!("fresh board")).split();
    match sets2.usb.usb_allocator(&mut hw, &mut clocks) {
        Err(e) => assert_eq!(e, Error::ResourceAlreadyTaken),
        Ok(_) => panic!("the USB controller is already claimed"),
    }
}

#[test]
fn generator_is_never_silently_retargeted() {
    let mut clocks = ClockContext::new(ROOT_HZ);
    assert!(clocks.allocate_generator(5, ClockPurpose::SercomCore).is_ok());
    // The same purpose may re-request the generator.
    assert!(clocks.allocate_generator(5, ClockPurpose::SercomCore).is_ok());
    // An unrelated purpose may not.
    match clocks.allocate_generator(5, ClockPurpose::UsbClock) {
        Err(e) => assert_eq!(e, Error::ClockUnavailable),
        Ok(()) => panic!("silent reuse must be refused"),
    }
    // Explicit reconfiguration is the deliberate path around the rule.
    clocks.reconfigure_generator(5, ClockPurpose::UsbClock);
    assert!(clocks.allocate_generator(5, ClockPurpose::UsbClock).is_ok());
    // A generator outside the tree is unavailable.
    match clocks.allocate_generator(12, ClockPurpose::PwmClock) {
        Err(e) => assert_eq!(e, Error::ClockUnavailable),
        Ok(()) => panic!("index outside the tree"),
    }
}

#[test]
fn core_clock_is_root_frequency() {
    let clocks = ClockContext::new(ROOT_HZ);
    assert_eq!(clocks.core_clock(), ROOT_HZ);
}
