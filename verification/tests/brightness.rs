use std::io;

use valo::backlight_controller::value_file::IntErrorKind;
use valo::backlight_controller::{Backlight, BacklightAction, Device, Error, KeyboardBacklight};

fn io_error() -> io::Error {
    io::Error::new(io::ErrorKind::NotFound, "no such file")
}

#[test]
fn device_reports_its_values() {
    let device = Device::new(12, 100);
    assert_eq!(device.current_value(), 12);
    assert_eq!(device.max_value(), 100);
}

#[test]
fn default_device_is_off_with_maximum_255() {
    let device = Device::default();
    assert_eq!(device.current_value(), 0);
    assert_eq!(device.max_value(), 255);
}

#[test]
fn load_reads_both_files() {
    let device = Device::load("/v".to_string(), Ok("120\n".to_string()), Ok("937\n".to_string())).unwrap();
    assert_eq!(device.current_value(), 120);
    assert_eq!(device.max_value(), 937);
}

#[test]
fn load_defaults_an_unreadable_maximum_to_255() {
    let device = Device::load("/v".to_string(), Ok("3".to_string()), Err(io_error())).unwrap();
    assert_eq!(device.current_value(), 3);
    assert_eq!(device.max_value(), 255);
}

#[test]
fn load_reports_an_unreadable_value_file() {
    match Device::load("/sys/x/brightness".to_string(), Err(io_error()), Ok("10".to_string())) {
        Err(Error::ReadValueFile { file_path, source }) => {
            assert_eq!(file_path, "/sys/x/brightness");
            assert_eq!(source.kind(), io::ErrorKind::NotFound);
        }
        other => panic!("unexpected {:?}", other),
    }
}

#[test]
fn load_reports_a_bad_value() {
    match Device::load("/v".to_string(), Ok("abc".to_string()), Ok("10".to_string())) {
        Err(Error::ParseValue { source }) => assert_eq!(source, IntErrorKind::InvalidDigit),
        other => panic!("unexpected {:?}", other),
    }
}

#[test]
fn load_reports_a_bad_maximum() {
    match Device::load("/v".to_string(), Ok("5".to_string()), Ok("\n".to_string())) {
        Err(Error::ParseValue { source }) => assert_eq!(source, IntErrorKind::Empty),
        other => panic!("unexpected {:?}", other),
    }
}

#[test]
fn up_raises_and_stops_at_the_maximum() {
    let up = BacklightAction::Up { percentage_value: 5 };
    assert_eq!(up.next_value(10, 100, 5), 15);
    assert_eq!(up.next_value(95, 100, 5), 100);
    assert_eq!(up.next_value(97, 100, 5), 100);
    assert_eq!(up.next_value(100, 100, 5), 100);
    assert_eq!(up.next_value(150, 100, 5), 100);
}

#[test]
fn down_lowers_and_stops_at_zero() {
    let down = BacklightAction::Down { percentage_value: 5 };
    assert_eq!(down.next_value(10, 100, 5), 5);
    assert_eq!(down.next_value(5, 100, 5), 0);
    assert_eq!(down.next_value(3, 100, 5), 0);
    assert_eq!(down.next_value(0, 100, 5), 0);
}

#[test]
fn set_clamps_to_the_maximum() {
    assert_eq!(BacklightAction::SetValue { value: 42 }.next_value(0, 100, 0), 42);
    assert_eq!(BacklightAction::SetValue { value: 420 }.next_value(0, 100, 0), 100);
    assert_eq!(BacklightAction::SetValue { value: 100 }.next_value(7, 100, 0), 100);
}

#[test]
fn max_and_off_reach_the_ends() {
    assert_eq!(BacklightAction::Max.next_value(3, 937, 0), 937);
    assert_eq!(BacklightAction::Off.next_value(3, 937, 0), 0);
}

#[test]
fn actions_keep_the_brightness_in_range() {
    let actions = [
        BacklightAction::Up { percentage_value: 30 },
        BacklightAction::Down { percentage_value: 30 },
        BacklightAction::SetValue { value: 1000 },
        BacklightAction::Max,
        BacklightAction::Off,
    ];
    for current in [0u64, 1, 50, 99, 100] {
        for action in actions.iter() {
            let next = action.next_value(current, 100, 30);
            assert!(next <= 100);
        }
    }
}

#[test]
fn keyboard_paths_and_values() {
    let keyboard = KeyboardBacklight::new(Device::new(3, 4));
    assert_eq!(keyboard.current_value(), 3);
    assert_eq!(keyboard.max_value(), 4);
    assert_eq!(keyboard.current_value_file_path(), "/sys/class/leds/smc::kbd_backlight/brightness");
    assert_eq!(keyboard.maximum_value_file_path(), "/sys/class/leds/smc::kbd_backlight/max_brightness");
    assert_eq!(KeyboardBacklight::value_file_path(), "/sys/class/leds/smc::kbd_backlight/brightness");
    assert_eq!(KeyboardBacklight::max_value_file_path(), "/sys/class/leds/smc::kbd_backlight/max_brightness");
}

#[test]
fn current_percentage_rounds_down() {
    assert_eq!(KeyboardBacklight::new(Device::new(3, 4)).current_percentage(), 75);
    assert_eq!(KeyboardBacklight::new(Device::new(1, 3)).current_percentage(), 33);
    assert_eq!(KeyboardBacklight::new(Device::new(937, 937)).current_percentage(), 100);
    assert_eq!(KeyboardBacklight::new(Device::new(0, 937)).current_percentage(), 0);
}

#[test]
fn next_value_text_is_the_new_value_in_decimal() {
    let keyboard = KeyboardBacklight::new(Device::new(10, 255));
    assert_eq!(keyboard.next_value_text(&BacklightAction::Up { percentage_value: 10 }, 25), "35");
    assert_eq!(keyboard.next_value_text(&BacklightAction::Max, 0), "255");
    assert_eq!(keyboard.next_value_text(&BacklightAction::Off, 0), "0");
}

#[test]
fn a_change_reads_back_as_the_value_written() {
    let keyboard = KeyboardBacklight::new(Device::new(10, 255));
    let text = keyboard.next_value_text(&BacklightAction::SetValue { value: 77 }, 0);
    let reloaded = Device::load("/v".to_string(), Ok(text), Ok("255".to_string())).unwrap();
    assert_eq!(reloaded.current_value(), 77);
}

#[test]
fn load_in_two_halves() {
    assert_eq!(Device::load_current_value("/v".to_string(), Ok(" 12\n".to_string())).unwrap(), 12);
    match Device::load_current_value("/v".to_string(), Err(io_error())) {
        Err(Error::ReadValueFile { file_path, .. }) => assert_eq!(file_path, "/v"),
        other => panic!("unexpected {:?}", other),
    }
    match Device::load_current_value("/v".to_string(), Ok("-1".to_string())) {
        Err(Error::ParseValue { source }) => assert_eq!(source, IntErrorKind::InvalidDigit),
        other => panic!("unexpected {:?}", other),
    }
    let device = Device::load_with_current_value(12, Ok("50".to_string())).unwrap();
    assert_eq!((device.current_value(), device.max_value()), (12, 50));
    let device = Device::load_with_current_value(12, Err(io_error())).unwrap();
    assert_eq!(device.max_value(), 255);
    match Device::load_with_current_value(12, Ok("99999999999999999999".to_string())) {
        Err(Error::ParseValue { source }) => assert_eq!(source, IntErrorKind::PosOverflow),
        other => panic!("unexpected {:?}", other),
    }
}
