//! The breathing light: the brightness rises step by step to a top
//! percentage, falls step by step to a bottom percentage, and so on, with a
//! pause after every step.
use vstd::arithmetic::div_mod::{lemma_mod_self_0, lemma_small_mod};
use vstd::prelude::*;

use crate::backlight_controller::{spec_next_value, BacklightAction};

verus! {

/// One step of the breathing light; the caller performs it and then pauses.
#[derive(Debug, Clone, Copy, PartialEq, Eq, Structural)]
pub enum BreathingCommand {
    /// Raise the brightness by a percentage of the maximum.
    Up { percentage_value: u64 },
    /// Lower the brightness by a percentage of the maximum.
    Down { percentage_value: u64 },
    /// Set the brightness to a percentage of the maximum.
    SetPercentage { percentage_value: u64 },
}

/// The parameters of a breathing light, normalised.
#[derive(Debug)]
pub struct BreathingPlan {
    step: u64,
    delay: u64,
    iterations: u64,
    min_percentage: u64,
    max_percentage: u64,
}

/// A percentage above 100 counts as 100.
pub open spec fn clamp_percentage(percentage: u64) -> u64 {
    if percentage > 100 {
        100
    } else {
        percentage
    }
}

impl BreathingPlan {
    #[verifier::type_invariant]
    spec fn wf(self) -> bool {
        &&& 1 <= self.step <= 100
        &&& self.delay >= 1
        &&& self.iterations == 100int / (self.step as int)
        &&& self.min_percentage <= 100
        &&& self.max_percentage <= 100
    }

    /// The percentage by which each step raises or lowers the brightness.
    pub closed spec fn spec_step(self) -> u64 {
        self.step
    }

    /// The pause after each step, in milliseconds.
    pub closed spec fn spec_delay(self) -> u64 {
        self.delay
    }

    /// The number of steps in each half of the cycle.
    pub closed spec fn spec_iterations(self) -> u64 {
        self.iterations
    }

    /// The percentage that ends each fall.
    pub closed spec fn spec_min_percentage(self) -> u64 {
        self.min_percentage
    }

    /// The percentage that ends each rise.
    pub closed spec fn spec_max_percentage(self) -> u64 {
        self.max_percentage
    }

    /// The number of steps in a whole cycle.
    pub open spec fn spec_period(self) -> int {
        2 * self.spec_iterations()
    }

    /// The command at position `k` of the cycle (taken modulo the period):
    /// first `iterations - 1` steps up, then the top percentage, then
    /// `iterations - 1` steps down, then the bottom percentage.
    pub open spec fn command_at(self, k: int) -> BreathingCommand {
        let n = self.spec_iterations() as int;
        let position = k % self.spec_period();
        if position < n - 1 {
            BreathingCommand::Up { percentage_value: self.spec_step() }
        } else if position == n - 1 {
            BreathingCommand::SetPercentage { percentage_value: self.spec_max_percentage() }
        } else if position < 2 * n - 1 {
            BreathingCommand::Down { percentage_value: self.spec_step() }
        } else {
            BreathingCommand::SetPercentage { percentage_value: self.spec_min_percentage() }
        }
    }

    /// One whole cycle of commands, as the breathing loop issues them.
    pub open spec fn cycle(self) -> Seq<BreathingCommand> {
        let n = self.spec_iterations() as int;
        Seq::new((n - 1) as nat, |i: int| BreathingCommand::Up { percentage_value: self.spec_step() })
            + seq![BreathingCommand::SetPercentage { percentage_value: self.spec_max_percentage() }]
            + Seq::new(
            (n - 1) as nat,
            |i: int| BreathingCommand::Down { percentage_value: self.spec_step() },
        ) + seq![BreathingCommand::SetPercentage { percentage_value: self.spec_min_percentage() }]
    }

    /// The plan for the given step and delay between the bottom and top
    /// percentages: a step of 0 or above 100 becomes 5, a delay of 0 becomes
    /// 100, and percentages above 100 become 100.
    pub fn new(step: u64, delay: u64, min_percentage: u64, max_percentage: u64) -> (plan:
        BreathingPlan)
        ensures
            plan.spec_step() == if step == 0 || step > 100 {
                5
            } else {
                step
            },
            plan.spec_delay() == if delay == 0 {
                100
            } else {
                delay
            },
            plan.spec_iterations() == 100int / (plan.spec_step() as int),
            1 <= plan.spec_iterations() <= 100,
            plan.spec_min_percentage() == clamp_percentage(min_percentage),
            plan.spec_max_percentage() == clamp_percentage(max_percentage),
    {
        let step = if step == 0 || step > 100 {
            5
        } else {
            step
        };
        let delay = if delay == 0 {
            100
        } else {
            delay
        };
        let min_percentage = if min_percentage > 100 {
            100
        } else {
            min_percentage
        };
        let max_percentage = if max_percentage > 100 {
            100
        } else {
            max_percentage
        };
        assert(1 <= 100int / (step as int) <= 100) by (nonlinear_arith)
            requires
                1 <= step <= 100,
        ;
        BreathingPlan { step, delay, iterations: 100 / step, min_percentage, max_percentage }
    }

    /// The pause after each step, in milliseconds.
    pub fn delay(&self) -> (delay: u64)
        ensures
            delay == self.spec_delay(),
            delay >= 1,
    {
        proof {
            use_type_invariant(self);
        }
        self.delay
    }

    /// The number of steps in a whole cycle; a cycle starts at position 0.
    pub fn period(&self) -> (period: u64)
        ensures
            period == self.spec_period(),
            2 <= period <= 200,
    {
        proof {
            use_type_invariant(self);
            assert(1 <= 100int / (self.step as int) <= 100) by (nonlinear_arith)
                requires
                    1 <= self.step <= 100,
            ;
        }
        2 * self.iterations
    }

    /// The command at `position` and the position that follows it.
    pub fn next_command(&self, position: u64) -> (result: (BreathingCommand, u64))
        requires
            position < self.spec_period(),
        ensures
            result.0 == self.command_at(position as int),
            result.1 == (position + 1) % self.spec_period(),
    {
        proof {
            use_type_invariant(self);
            assert(1 <= 100int / (self.step as int) <= 100) by (nonlinear_arith)
                requires
                    1 <= self.step <= 100,
            ;
        }
        let n = self.iterations;
        let command = if position < n - 1 {
            BreathingCommand::Up { percentage_value: self.step }
        } else if position == n - 1 {
            BreathingCommand::SetPercentage { percentage_value: self.max_percentage }
        } else if position < 2 * n - 1 {
            BreathingCommand::Down { percentage_value: self.step }
        } else {
            BreathingCommand::SetPercentage { percentage_value: self.min_percentage }
        };
        proof {
            lemma_small_mod(position as nat, (2 * n) as nat);
        }
        let next = if position + 1 == 2 * n {
            proof {
                lemma_mod_self_0(2 * n);
            }
            0
        } else {
            proof {
                lemma_small_mod((position + 1) as nat, (2 * n) as nat);
            }
            position + 1
        };
        (command, next)
    }
}

/// The breathing light issues its cycle over and over: the command at any
/// position is the command at that position, modulo the period, of one
/// cycle of `iterations - 1` steps up, the top percentage, `iterations - 1`
/// steps down and the bottom percentage.
pub proof fn lemma_commands_follow_cycle(plan: BreathingPlan, k: int)
    requires
        plan.spec_iterations() >= 1,
        k >= 0,
    ensures
        plan.cycle().len() == plan.spec_period(),
        plan.command_at(k) == plan.cycle()[k % plan.spec_period()],
{
    let n = plan.spec_iterations() as int;
    let up = BreathingCommand::Up { percentage_value: plan.spec_step() };
    let down = BreathingCommand::Down { percentage_value: plan.spec_step() };
    let top = BreathingCommand::SetPercentage { percentage_value: plan.spec_max_percentage() };
    let bottom = BreathingCommand::SetPercentage { percentage_value: plan.spec_min_percentage() };
    let rise = Seq::new((n - 1) as nat, |i: int| up);
    let fall = Seq::new((n - 1) as nat, |i: int| down);
    assert(plan.cycle() == rise + seq![top] + fall + seq![bottom]);
    let p = k % plan.spec_period();
    assert(0 <= p < 2 * n);
    let first = rise + seq![top];
    let second = first + fall;
    if p < n - 1 {
        assert(first[p] == rise[p]);
        assert(second[p] == first[p]);
    } else if p == n - 1 {
        assert(first[p] == top);
        assert(second[p] == first[p]);
    } else if p < 2 * n - 1 {
        assert(second[p] == fall[p - n]);
    }
}

/// The breathing cycle repeats: a command recurs one period later.
pub proof fn lemma_cycle_repeats(plan: BreathingPlan, k: int)
    requires
        plan.spec_iterations() >= 1,
        k >= 0,
    ensures
        plan.command_at(k + plan.spec_period()) == plan.command_at(k),
{
    let m = plan.spec_period();
    vstd::arithmetic::div_mod::lemma_mod_add_multiples_vanish(k, m);
}

/// The change that ends a breathing light: back to the brightness
/// `origin_value` that was there before it started.
pub fn restoring_action(origin_value: u64) -> (action: BacklightAction)
    ensures
        action == (BacklightAction::SetValue { value: origin_value }),
{
    BacklightAction::SetValue { value: origin_value }
}

/// Ending a breathing light restores the brightness it started from, if
/// that was within the range, whatever the breathing left behind.
pub proof fn lemma_restoring_returns_to_origin(origin_value: u64, current: u64, max: u64, amount: u64)
    requires
        origin_value <= max,
    ensures
        spec_next_value(BacklightAction::SetValue { value: origin_value }, current, max, amount)
            == origin_value,
{
}


/// The plan keeps a percentage of at most 100 as it is and turns a larger
/// one into 100.
pub proof fn lemma_percentages_are_kept_up_to_100(percentage: u64)
    ensures
        percentage <= 100 ==> clamp_percentage(percentage) == percentage,
        percentage > 100 ==> clamp_percentage(percentage) == 100,
{
}

} // verus!
