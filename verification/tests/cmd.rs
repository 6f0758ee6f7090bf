use std::io;

use valo::backlight_controller::breathing::BreathingCommand;
use valo::backlight_controller::BacklightAction;
use valo::cmd::{exit_code, BacklightCommand, Request, EXIT_FAILURE, EXIT_SUCCESS};
use valo::error::Error;

#[test]
fn queries_ask_to_show() {
    assert!(matches!(BacklightCommand::Get.request(), Request::ShowValue));
    assert!(matches!(BacklightCommand::GetPercentage.request(), Request::ShowPercentage));
}

#[test]
fn changes_become_actions() {
    let cases = [
        (BacklightCommand::SetValue { value: 7 }, BacklightAction::SetValue { value: 7 }),
        (BacklightCommand::Up { percentage_value: 5 }, BacklightAction::Up { percentage_value: 5 }),
        (BacklightCommand::Down { percentage_value: 9 }, BacklightAction::Down { percentage_value: 9 }),
        (BacklightCommand::Max, BacklightAction::Max),
        (BacklightCommand::Off, BacklightAction::Off),
    ];
    for (command, expected) in cases.iter() {
        match command.request() {
            Request::Change { action } => assert_eq!(action, *expected),
            other => panic!("unexpected {:?}", other),
        }
    }
}

#[test]
fn set_percentage_asks_for_a_percentage() {
    match (BacklightCommand::SetPercentage { percentage_value: 42 }).request() {
        Request::ChangeToPercentage { percentage_value } => assert_eq!(percentage_value, 42),
        other => panic!("unexpected {:?}", other),
    }
}

#[test]
fn breathing_runs_between_zero_and_one_hundred() {
    match (BacklightCommand::BreathingLight { step: 50, delay: 0 }).request() {
        Request::Breathe { plan } => {
            assert_eq!(plan.delay(), 100);
            assert_eq!(plan.period(), 4);
            assert_eq!(plan.next_command(1).0, BreathingCommand::SetPercentage { percentage_value: 100 });
            assert_eq!(plan.next_command(3).0, BreathingCommand::SetPercentage { percentage_value: 0 });
        }
        other => panic!("unexpected {:?}", other),
    }
}

#[test]
fn exit_codes() {
    assert_eq!(exit_code(true), EXIT_SUCCESS);
    assert_eq!(exit_code(false), EXIT_FAILURE);
    assert_eq!(EXIT_SUCCESS, 0);
    assert_eq!(EXIT_FAILURE, 1);
}

#[test]
fn backlight_errors_become_program_errors() {
    let inner = valo::backlight_controller::Error::NoSuchDevice { device: "screen light".to_string() };
    match Error::from(inner) {
        Error::BacklightControl { source: valo::backlight_controller::Error::NoSuchDevice { device } } => {
            assert_eq!(device, "screen light")
        }
        other => panic!("unexpected {:?}", other),
    }
    let io_failure = valo::backlight_controller::Error::WriteValueFile {
        file_path: "/v".to_string(),
        source: io::Error::new(io::ErrorKind::PermissionDenied, "denied"),
    };
    assert!(matches!(Error::from(io_failure), Error::BacklightControl { .. }));
}
