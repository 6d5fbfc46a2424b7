use zinc::hal::nrf51822::clock;
use zinc::hal::nrf51822::pin::{level_of, Pin, PinConfig, PinDriveMode, PinPull, SenseMode};
use zinc::hal::nrf51822::rand;
use zinc::hal::nrf51822::regs::{Script, Step};
use zinc::hal::nrf51822::rtc::Rtc;
use zinc::hal::nrf51822::twi::{Frequency, Twi, TwiConfig};
use zinc::hal::nrf51822::{init, sleep_us};
use zinc::hal::pin::{GpioDirection, GpioLevel};

fn write(addr: u32, mask: u32, bits: u32) -> Step {
    Step::Write { addr, mask, bits }
}

fn wait(addr: u32, mask: u32, bits: u32) -> Step {
    Step::WaitFor { addr, mask, bits }
}

fn byte(b: u8) -> Vec<Step> {
    vec![write(0x4000_351c, 0xff, b as u32), wait(0x4000_311c, 1, 1), write(0x4000_311c, 1, 0)]
}

#[test]
fn start_lfc_triggers_and_waits() {
    let mut script = Script::new();
    clock::start_lfc(&mut script);
    assert_eq!(*script.steps(), vec![write(0x4000_0008, 1, 1), wait(0x4000_0414, 1, 1)]);
}

#[test]
fn calibrate_starts_the_calibration_timer() {
    let mut script = Script::new();
    script.delay(1);
    clock::calibrate(&mut script);
    assert_eq!(*script.steps(), vec![Step::Delay { us: 1 }, write(0x4000_0014, 1, 1)]);
}

#[test]
fn chip_init_starts_clock_and_generator() {
    let mut script = Script::new();
    init(&mut script);
    assert_eq!(
        *script.steps(),
        vec![
            write(0x4000_0008, 1, 1),
            wait(0x4000_0414, 1, 1),
            write(0x4000_0014, 1, 1),
            write(0x4000_d504, 1, 0),
            write(0x4000_d000, 1, 1),
        ]
    );
}

#[test]
fn sleep_is_one_delay() {
    let mut script = Script::new();
    sleep_us(&mut script, 1);
    sleep_us(&mut script, u64::MAX);
    assert_eq!(*script.steps(), vec![Step::Delay { us: 1 }, Step::Delay { us: u64::MAX }]);
}

#[test]
fn generator_controls() {
    let mut script = Script::new();
    rand::start(&mut script);
    rand::set_error_correction(&mut script, true);
    rand::set_error_correction(&mut script, false);
    assert_eq!(
        *script.steps(),
        vec![write(0x4000_d000, 1, 1), write(0x4000_d504, 1, 1), write(0x4000_d504, 1, 0)]
    );
}

#[test]
fn rand_byte_waits_samples_and_acknowledges() {
    let mut script = Script::new();
    rand::rand_byte(&mut script);
    assert_eq!(
        *script.steps(),
        vec![
            wait(0x4000_d100, 1, 1),
            Step::Read { addr: 0x4000_d508, mask: 0xff },
            write(0x4000_d100, 1, 0),
        ]
    );
}

#[test]
fn fill_rand_fetches_one_byte_per_slot() {
    let mut script = Script::new();
    rand::fill_rand(&mut script, 0);
    assert!(script.steps().is_empty());
    rand::fill_rand(&mut script, 16);
    assert_eq!(script.steps().len(), 48);
    let mut one = Script::new();
    rand::rand_byte(&mut one);
    for chunk in script.steps().chunks(3) {
        assert_eq!(chunk, &one.steps()[..]);
    }
    let samples = script.steps().iter().filter(|s| matches!(s, Step::Read { .. })).count();
    assert_eq!(samples, 16);
}

#[test]
fn rtc_init_sequence() {
    let mut script = Script::new();
    Rtc {}.init(&mut script);
    assert_eq!(
        *script.steps(),
        vec![
            write(0x4000_bffc, 1, 1),
            write(0x4000_b004, 1, 1),
            write(0x4000_b104, 1, 0),
            write(0x4000_b340, 0x000f_0003, 0),
            write(0x4000_b000, 1, 1),
        ]
    );
}

#[test]
fn rtc_prescaler_is_written_and_read_back() {
    let mut script = Script::new();
    Rtc {}.set_prescaler(&mut script, 0);
    Rtc {}.set_prescaler(&mut script, 4095);
    assert_eq!(
        *script.steps(),
        vec![
            write(0x4000_b508, 0xfff, 0),
            wait(0x4000_b508, 0xfff, 0),
            write(0x4000_b508, 0xfff, 4095),
            wait(0x4000_b508, 0xfff, 4095),
        ]
    );
}

#[test]
fn rtc_tick_interrupt_and_acknowledge() {
    let mut script = Script::new();
    Rtc {}.enable_tick_iterrupt(&mut script);
    Rtc {}.clear_tick(&mut script);
    assert_eq!(
        *script.steps(),
        vec![write(0x4000_b344, 1, 1), write(0x4000_b304, 1, 1), write(0x4000_b100, 1, 0)]
    );
}

#[test]
fn rtc_count_is_a_24_bit_sample() {
    let mut script = Script::new();
    Rtc {}.get_count(&mut script);
    assert_eq!(*script.steps(), vec![Step::Read { addr: 0x4000_b504, mask: 0x00ff_ffff }]);
}

#[test]
fn rtc_start_stop_clear() {
    let mut script = Script::new();
    Rtc {}.start(&mut script);
    assert_eq!(
        *script.steps(),
        vec![write(0x4000_0008, 1, 1), wait(0x4000_0414, 1, 1), write(0x4000_b000, 1, 1)]
    );
    let mut script = Script::new();
    Rtc {}.stop(&mut script);
    assert_eq!(*script.steps(), vec![write(0x4000_b004, 1, 1)]);
    let mut script = Script::new();
    Rtc {}.clear(&mut script);
    assert_eq!(
        *script.steps(),
        vec![
            write(0x4000_b008, 1, 1),
            write(0x4000_0008, 1, 1),
            wait(0x4000_0414, 1, 1),
            write(0x4000_b000, 1, 1),
            wait(0x4000_b504, 0x00ff_ffff, 0),
        ]
    );
}

#[test]
fn pin_new_keeps_the_index() {
    assert_eq!(Pin::new(17).index, 17);
    assert_eq!(Pin::new(255).index, 255);
}

#[test]
fn default_pin_config() {
    let c = PinConfig::default();
    assert_eq!(c.direction, GpioDirection::Out);
    assert!(!c.input_connect);
    assert_eq!(c.pull, PinPull::NoPull);
    assert_eq!(c.sense, SenseMode::High);
    assert_eq!(c.drive_low, PinDriveMode::Standard);
    assert_eq!(c.drive_high, PinDriveMode::Standard);
}

#[test]
fn pin_configure_packs_every_field() {
    let mut script = Script::new();
    Pin::new(0).configure(&mut script, PinConfig::default());
    // output, input buffer disconnected, no pull, standard drive, sense high
    assert_eq!(*script.steps(), vec![write(0x5000_0700, 0x0003_070f, 1 | 2 | (1 << 16))]);

    let mut script = Script::new();
    Pin::new(31).configure(
        &mut script,
        PinConfig {
            direction: GpioDirection::In,
            pull: PinPull::High,
            input_connect: true,
            sense: SenseMode::Low,
            drive_low: PinDriveMode::HighDrive,
            drive_high: PinDriveMode::Disconnect,
        },
    );
    assert_eq!(
        *script.steps(),
        vec![write(0x5000_0700 + 4 * 31, 0x0003_070f, (2 << 2) | (7 << 8) | (2 << 16))]
    );
}

#[test]
fn pin_drive_codes() {
    let (standard, high_drive, disconnect) =
        (PinDriveMode::Standard, PinDriveMode::HighDrive, PinDriveMode::Disconnect);
    let table = [
        (standard, standard, 0u32),
        (high_drive, standard, 1),
        (standard, high_drive, 2),
        (high_drive, high_drive, 3),
        (disconnect, standard, 4),
        (disconnect, high_drive, 5),
        (standard, disconnect, 6),
        (high_drive, disconnect, 7),
        (disconnect, disconnect, 0),
    ];
    for (low, high, code) in table {
        let mut script = Script::new();
        Pin::new(5).configure(
            &mut script,
            PinConfig {
                direction: GpioDirection::In,
                pull: PinPull::NoPull,
                input_connect: true,
                sense: SenseMode::Disabled,
                drive_low: low,
                drive_high: high,
            },
        );
        assert_eq!(*script.steps(), vec![write(0x5000_0714, 0x0003_070f, code << 8)]);
    }
}

#[test]
fn pin_pull_and_sense_codes() {
    for (pull, code) in [(PinPull::NoPull, 0u32), (PinPull::Low, 1), (PinPull::High, 2)] {
        let mut script = Script::new();
        Pin::new(1).configure(
            &mut script,
            PinConfig {
                direction: GpioDirection::In,
                pull,
                input_connect: true,
                sense: SenseMode::Disabled,
                drive_low: PinDriveMode::Standard,
                drive_high: PinDriveMode::Standard,
            },
        );
        assert_eq!(*script.steps(), vec![write(0x5000_0704, 0x0003_070f, code << 2)]);
    }
    for (sense, code) in [(SenseMode::Disabled, 0u32), (SenseMode::High, 1), (SenseMode::Low, 2)] {
        let mut script = Script::new();
        Pin::new(1).configure(
            &mut script,
            PinConfig {
                direction: GpioDirection::In,
                pull: PinPull::NoPull,
                input_connect: true,
                sense,
                drive_low: PinDriveMode::Standard,
                drive_high: PinDriveMode::Standard,
            },
        );
        assert_eq!(*script.steps(), vec![write(0x5000_0704, 0x0003_070f, code << 16)]);
    }
}

#[test]
fn pin_set_direction() {
    let mut script = Script::new();
    Pin::new(3).set_direction(&mut script, GpioDirection::In);
    // input, buffer connected, pulled up, standard drive, sense high
    assert_eq!(*script.steps(), vec![write(0x5000_070c, 0x0003_070f, (2 << 2) | (1 << 16))]);
    let mut script = Script::new();
    Pin::new(3).set_direction(&mut script, GpioDirection::Out);
    assert_eq!(*script.steps(), vec![write(0x5000_070c, 0x0003_070f, 1 | 2 | (1 << 16))]);
}

#[test]
fn pin_levels() {
    let mut script = Script::new();
    Pin::new(0).set_high(&mut script);
    Pin::new(31).set_high(&mut script);
    Pin::new(4).set_low(&mut script);
    Pin::new(17).level(&mut script);
    assert_eq!(
        *script.steps(),
        vec![
            write(0x5000_0508, 0xffff_ffff, 1),
            write(0x5000_0508, 0xffff_ffff, 0x8000_0000),
            write(0x5000_050c, 0xffff_ffff, 0x10),
            Step::Read { addr: 0x5000_0510, mask: 1 << 17 },
        ]
    );
    assert_eq!(level_of(0), GpioLevel::Low);
    assert_eq!(level_of(1 << 17), GpioLevel::High);
    assert_eq!(level_of(u32::MAX), GpioLevel::High);
}

#[test]
fn frequency_values() {
    assert_eq!(Frequency::K100.value(), 0x0198_0000);
    assert_eq!(Frequency::K250.value(), 0x0400_0000);
    assert_eq!(Frequency::K400.value(), 0x0668_0000);
}

#[test]
fn default_twi_config() {
    let c = TwiConfig::default();
    assert_eq!(c.sda_pin, 30);
    assert_eq!(c.scl_pin, 0);
    assert_eq!(c.freq, Frequency::K100);
}

#[test]
fn twi_configure_sequence() {
    let mut script = Script::new();
    Twi {}.configure(&mut script, TwiConfig { sda_pin: 30, scl_pin: 0, freq: Frequency::K400 });
    // an input with connected buffer, no pull, low driven, high released
    let line = 6 << 8;
    assert_eq!(
        *script.steps(),
        vec![
            write(0x4000_3ffc, 1, 0),
            wait(0x4000_3ffc, 1, 0),
            write(0x4000_3ffc, 1, 1),
            write(0x4000_3500, 7, 0),
            write(0x5000_0700, 0x0003_070f, line),
            write(0x5000_0700 + 4 * 30, 0x0003_070f, line),
            write(0x4000_350c, 0xffff_ffff, 30),
            write(0x4000_3508, 0xffff_ffff, 0),
            write(0x4000_3524, 0xffff_ffff, 0x0668_0000),
            write(0x4000_3500, 7, 5),
            write(0x4000_3200, 3, 0),
        ]
    );
}

#[test]
fn twi_address_keeps_seven_bits() {
    let mut script = Script::new();
    Twi {}.set_address(&mut script, 60);
    Twi {}.set_address(&mut script, 0xff);
    Twi {}.set_address(&mut script, 0x80);
    assert_eq!(
        *script.steps(),
        vec![
            write(0x4000_3588, 0x7f, 60),
            write(0x4000_3588, 0x7f, 0x7f),
            write(0x4000_3588, 0x7f, 0),
        ]
    );
}

#[test]
fn twi_write_byte_loads_waits_and_acknowledges() {
    let mut script = Script::new();
    Twi {}.write_byte(&mut script, 0xA5);
    assert_eq!(*script.steps(), byte(0xA5));
}

#[test]
fn twi_write_bytes_is_one_transfer() {
    let mut script = Script::new();
    Twi {}.write_bytes(&mut script, &[1, 2, 3]);
    let mut want = vec![write(0x4000_3008, 1, 1)];
    want.extend(byte(1));
    want.extend(byte(2));
    want.extend(byte(3));
    want.push(write(0x4000_3014, 1, 1));
    assert_eq!(*script.steps(), want);

    let mut script = Script::new();
    Twi {}.write_bytes(&mut script, &[]);
    assert_eq!(*script.steps(), vec![write(0x4000_3008, 1, 1), write(0x4000_3014, 1, 1)]);
}

#[test]
fn twi_write_bytes_prefix_sends_the_prefix_first() {
    let mut script = Script::new();
    Twi {}.write_bytes_prefix(&mut script, 64, &[9, 8]);
    let mut want = vec![write(0x4000_3008, 1, 1)];
    want.extend(byte(64));
    want.extend(byte(9));
    want.extend(byte(8));
    want.push(write(0x4000_3014, 1, 1));
    assert_eq!(*script.steps(), want);

    let mut with_prefix = Script::new();
    Twi {}.write_bytes_prefix(&mut with_prefix, 7, &[]);
    let mut plain = Script::new();
    Twi {}.write_bytes(&mut plain, &[7]);
    assert_eq!(with_prefix.steps(), plain.steps());
}

#[test]
fn twi_send_bytes_addresses_then_transfers() {
    let mut script = Script::new();
    Twi {}.send_bytes(&mut script, 60, &[0x55]);
    let mut want = vec![write(0x4000_3588, 0x7f, 60), write(0x4000_3008, 1, 1)];
    want.extend(byte(0x55));
    want.push(write(0x4000_3014, 1, 1));
    assert_eq!(*script.steps(), want);
}
