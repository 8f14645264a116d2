//! The order of a half's work.
//!
//! The work is an endless series of passes. A pass reads the position sensor, takes two samples
//! of every switch in turn, takes up what the other half reported, shows the lights, and rests.
//! Beside the passes run two tasks that keep time alone: one feeds the watchdog, the other
//! announces this half.

use vstd::prelude::*;
use crate::keymap::SWITCH_COUNT;

verus! {

/// How long a pass rests, in milliseconds.
pub const REST_MS: u64 = 5;

/// The time between two announcements of this half, in milliseconds.
pub const ANNOUNCEMENT_PERIOD_MS: u64 = 500;

/// The time without a feed after which the watchdog resets the system, in milliseconds.
pub const WATCHDOG_TIMEOUT_MS: u64 = 1000;

/// The time between two feeds of the watchdog, in milliseconds.
pub const FEED_PERIOD_MS: u64 = 500;

/// Steps in a pass.
pub const PASS_LEN: usize = 46;

/// One step of a pass.
#[derive(Clone, Copy, Debug, PartialEq, Eq, Structural)]
pub enum Step {
    /// Count the pass and read the position sensor.
    ReadPosition,
    /// Sample whether a switch goes down.
    SamplePress(usize),
    /// Sample whether a switch goes up.
    SampleRelease(usize),
    /// Take up what the other half reported, if anything.
    TakeReport,
    /// Show the lights.
    ShowLights,
    /// Leave the processor to other tasks for a while.
    Rest,
}

/// The step that has a number within the pass.
pub open spec fn step_at(number: int) -> Step {
    if number == 0 {
        Step::ReadPosition
    } else if number == PASS_LEN - 3 {
        Step::TakeReport
    } else if number == PASS_LEN - 2 {
        Step::ShowLights
    } else if number == PASS_LEN - 1 {
        Step::Rest
    } else if number % 2 == 1 {
        Step::SamplePress(((number - 1) / 2) as usize)
    } else {
        Step::SampleRelease(((number - 2) / 2) as usize)
    }
}

impl Step {
    /// Whether a step that names a switch names one of the half's.
    pub open spec fn valid(self) -> bool {
        match self {
            Step::SamplePress(switch) => switch < SWITCH_COUNT,
            Step::SampleRelease(switch) => switch < SWITCH_COUNT,
            _ => true,
        }
    }

    /// The step's number within its pass.
    pub open spec fn number(self) -> int {
        match self {
            Step::ReadPosition => 0,
            Step::SamplePress(switch) => 1 + 2 * switch,
            Step::SampleRelease(switch) => 2 + 2 * switch,
            Step::TakeReport => PASS_LEN - 3,
            Step::ShowLights => PASS_LEN - 2,
            Step::Rest => PASS_LEN - 1,
        }
    }

    /// The step that follows. After the last of a pass the next pass begins.
    pub fn next(self) -> (step: Step)
        requires
            self.valid(),
        ensures
            step.valid(),
            step == step_at((self.number() + 1) % PASS_LEN as int),
            self is ReadPosition ==> step == Step::SamplePress(0),
            self matches Step::SamplePress(switch) ==> step == Step::SampleRelease(switch),
            self matches Step::SampleRelease(switch) ==> {
                &&& switch < 20 ==> step == Step::SamplePress((switch + 1) as usize)
                &&& switch == 20 ==> step == Step::TakeReport
            },
            self is TakeReport ==> step == Step::ShowLights,
            self is ShowLights ==> step == Step::Rest,
            self is Rest ==> step == Step::ReadPosition,
    {
        match self {
            Step::ReadPosition => Step::SamplePress(0),
            Step::SamplePress(switch) => Step::SampleRelease(switch),
            Step::SampleRelease(switch) => if switch + 1 < SWITCH_COUNT {
                Step::SamplePress(switch + 1)
            } else {
                Step::TakeReport
            },
            Step::TakeReport => Step::ShowLights,
            Step::ShowLights => Step::Rest,
            Step::Rest => Step::ReadPosition,
        }
    }
}

/// A step is known by its number.
pub proof fn steps_are_told_apart_by_number(step: Step)
    requires
        step.valid(),
    ensures
        0 <= step.number() < PASS_LEN,
        step_at(step.number()) == step,
{
}

/// Every number of a pass is some step's.
pub proof fn every_number_has_a_step(number: int)
    requires
        0 <= number < PASS_LEN,
    ensures
        step_at(number).valid(),
        step_at(number).number() == number,
{
}

/// The last time at or before a moment at which the watchdog is due to be fed, in milliseconds
/// since the first feed.
pub open spec fn last_feed(moment: nat) -> nat {
    moment / FEED_PERIOD_MS as nat * FEED_PERIOD_MS as nat
}

/// Feeds that come when they are due come before the watchdog runs out, at every moment.
pub proof fn the_watchdog_is_fed_in_time(moment: nat)
    ensures
        FEED_PERIOD_MS < WATCHDOG_TIMEOUT_MS,
        last_feed(moment) <= moment < last_feed(moment) + WATCHDOG_TIMEOUT_MS,
{
}

/// The order of a pass: the position sensor first, then every switch in turn, going down before
/// going up, then the report, the lights and the rest.
pub proof fn order_of_a_pass(switch: usize)
    requires
        switch < 21,
    ensures
        step_at(0) == Step::ReadPosition,
        step_at(1 + 2 * switch) == Step::SamplePress(switch),
        step_at(2 + 2 * switch) == Step::SampleRelease(switch),
        step_at(43) == Step::TakeReport,
        step_at(44) == Step::ShowLights,
        step_at(45) == Step::Rest,
        PASS_LEN == 46,
{
}

} // verus!
