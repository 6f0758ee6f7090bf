use valo::backlight_controller::breathing::{restoring_action, BreathingCommand, BreathingPlan};
use valo::backlight_controller::BacklightAction;

fn commands(plan: &BreathingPlan, count: usize) -> Vec<BreathingCommand> {
    let mut position = 0;
    let mut out = Vec::new();
    for _ in 0..count {
        let (command, next) = plan.next_command(position);
        out.push(command);
        position = next;
    }
    out
}

#[test]
fn step_of_thirty_rises_twice_and_falls_twice() {
    let plan = BreathingPlan::new(30, 200, 0, 100);
    assert_eq!(plan.period(), 6);
    assert_eq!(plan.delay(), 200);
    let up = BreathingCommand::Up { percentage_value: 30 };
    let down = BreathingCommand::Down { percentage_value: 30 };
    let top = BreathingCommand::SetPercentage { percentage_value: 100 };
    let bottom = BreathingCommand::SetPercentage { percentage_value: 0 };
    assert_eq!(commands(&plan, 12), vec![up, up, top, down, down, bottom, up, up, top, down, down, bottom]);
}

#[test]
fn large_steps_only_switch_between_the_ends() {
    let plan = BreathingPlan::new(60, 1, 0, 100);
    assert_eq!(plan.period(), 2);
    assert_eq!(
        commands(&plan, 4),
        vec![
            BreathingCommand::SetPercentage { percentage_value: 100 },
            BreathingCommand::SetPercentage { percentage_value: 0 },
            BreathingCommand::SetPercentage { percentage_value: 100 },
            BreathingCommand::SetPercentage { percentage_value: 0 },
        ]
    );
}

#[test]
fn zero_or_oversized_step_and_zero_delay_take_defaults() {
    for step in [0u64, 101, u64::MAX] {
        let plan = BreathingPlan::new(step, 0, 0, 100);
        assert_eq!(plan.delay(), 100);
        assert_eq!(plan.period(), 40);
        assert_eq!(plan.next_command(0).0, BreathingCommand::Up { percentage_value: 5 });
        assert_eq!(plan.next_command(19).0, BreathingCommand::SetPercentage { percentage_value: 100 });
        assert_eq!(plan.next_command(39), (BreathingCommand::SetPercentage { percentage_value: 0 }, 0));
    }
}

#[test]
fn percentages_above_one_hundred_count_as_one_hundred() {
    let plan = BreathingPlan::new(100, 10, 250, 300);
    assert_eq!(plan.period(), 2);
    assert_eq!(plan.next_command(0).0, BreathingCommand::SetPercentage { percentage_value: 100 });
    assert_eq!(plan.next_command(1).0, BreathingCommand::SetPercentage { percentage_value: 100 });
}

#[test]
fn the_cycle_repeats_after_one_period() {
    let plan = BreathingPlan::new(7, 10, 10, 90);
    let period = plan.period() as usize;
    assert_eq!(period, 28);
    let seen = commands(&plan, 3 * period);
    for k in 0..2 * period {
        assert_eq!(seen[k], seen[k + period]);
    }
}

#[test]
fn ending_restores_the_starting_brightness() {
    let action = restoring_action(37);
    assert_eq!(action, BacklightAction::SetValue { value: 37 });
    assert_eq!(action.next_value(100, 100, 0), 37);
    assert_eq!(action.next_value(0, 100, 0), 37);
}
