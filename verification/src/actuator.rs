//! The actuator: takes the queued events one at a time and turns each into a
//! pulse on its output line.
//!
//! The actuator itself touches no pin and waits for nothing. Each step says
//! what is to be done next; whoever owns the pins and the timer does it and
//! asks for the next step.

use vstd::prelude::*;

use crate::config::Config;
use crate::controller::ControlMessages;
use crate::controller::LINE_COUNT;
use crate::queue::after_take;
use crate::queue::EventQueue;

verus! {

/// Where the actuator is in its cycle.
#[derive(Clone, Copy, Debug, PartialEq, Eq, Structural)]
pub enum ActuatorState {
    /// No line is active and no pulse is under way.
    Idle,
    /// The line of this event is active.
    Driving(ControlMessages),
    /// The line of this event was released and rests.
    Settling(ControlMessages),
}

/// What is to be done before the next step.
#[derive(Clone, Copy, Debug, PartialEq, Eq, Structural)]
pub enum ActuatorAction {
    /// Nothing to drive: let the other tasks run.
    Wait,
    /// Set the line active and keep it so for `hold_ms` milliseconds.
    Drive { line: u8, hold_ms: u64 },
    /// Set the line inactive and let it rest for `settle_ms` milliseconds.
    Release { line: u8, settle_ms: u64 },
}

/// One step of the actuator, over what the queue holds.
pub struct ActuatorStep {
    pub state: ActuatorState,
    pub pending: Seq<ControlMessages>,
    pub action: ActuatorAction,
}

/// The step that the actuator takes from `state` when the queue holds
/// `pending`.
///
/// An idle actuator takes the oldest event and drives its line, or waits if
/// there is none. A driven line is released next, and after its rest the
/// actuator is idle again. Only an idle actuator takes from the queue.
pub open spec fn actuator_step(
    config: Config,
    state: ActuatorState,
    pending: Seq<ControlMessages>,
) -> ActuatorStep {
    match state {
        ActuatorState::Idle => if pending.len() > 0 {
            ActuatorStep {
                state: ActuatorState::Driving(pending[0]),
                pending: pending.drop_first(),
                action: ActuatorAction::Drive {
                    line: pending[0].spec_line(),
                    hold_ms: config.hold_ms,
                },
            }
        } else {
            ActuatorStep { state: ActuatorState::Idle, pending, action: ActuatorAction::Wait }
        },
        ActuatorState::Driving(event) => ActuatorStep {
            state: ActuatorState::Settling(event),
            pending,
            action: ActuatorAction::Release {
                line: event.spec_line(),
                settle_ms: config.settle_ms,
            },
        },
        ActuatorState::Settling(event) => ActuatorStep {
            state: ActuatorState::Idle,
            pending,
            action: ActuatorAction::Wait,
        },
    }
}

/// The levels of the output lines while the actuator is in `state`: the line
/// that is driven is active, every other line is not.
pub open spec fn line_levels(state: ActuatorState) -> Seq<bool> {
    Seq::new(
        LINE_COUNT as nat,
        |line: int|
            match state {
                ActuatorState::Driving(event) => line == event.spec_line(),
                _ => false,
            },
    )
}

/// The levels of the output lines once `action` was carried out on `levels`.
pub open spec fn levels_after(levels: Seq<bool>, action: ActuatorAction) -> Seq<bool> {
    match action {
        ActuatorAction::Wait => levels,
        ActuatorAction::Drive { line, hold_ms } => levels.update(line as int, true),
        ActuatorAction::Release { line, settle_ms } => levels.update(line as int, false),
    }
}

/// The actuator.
#[derive(Clone, Copy, Debug, PartialEq, Eq)]
pub struct Actuator {
    state: ActuatorState,
}

impl Actuator {
    /// Where the actuator is in its cycle.
    pub closed spec fn view(&self) -> ActuatorState {
        self.state
    }

    /// An idle actuator.
    pub fn new() -> (actuator: Self)
        ensures
            actuator@ == ActuatorState::Idle,
    {
        Actuator { state: ActuatorState::Idle }
    }

    /// Where the actuator is in its cycle.
    pub fn state(&self) -> (state: ActuatorState)
        ensures
            state == self@,
    {
        self.state
    }

    /// Takes the next step, once the action of the step before is done.
    pub fn step(&mut self, config: &Config, queue: &mut EventQueue) -> (action: ActuatorAction)
        ensures
            final(self)@ == actuator_step(*config, old(self)@, old(queue)@).state,
            final(queue)@ == actuator_step(*config, old(self)@, old(queue)@).pending,
            action == actuator_step(*config, old(self)@, old(queue)@).action,
    {
        match self.state {
            ActuatorState::Idle => match queue.try_dequeue() {
                Some(event) => {
                    self.state = ActuatorState::Driving(event);
                    ActuatorAction::Drive { line: event.line(), hold_ms: config.hold_ms }
                },
                None => ActuatorAction::Wait,
            },
            ActuatorState::Driving(event) => {
                self.state = ActuatorState::Settling(event);
                ActuatorAction::Release { line: event.line(), settle_ms: config.settle_ms }
            },
            ActuatorState::Settling(_) => {
                self.state = ActuatorState::Idle;
                ActuatorAction::Wait
            },
        }
    }
}

/// No two lines are ever active together: in every state at most one line
/// is.
pub proof fn lemma_at_most_one_line_active(state: ActuatorState, a: int, b: int)
    requires
        0 <= a < LINE_COUNT,
        0 <= b < LINE_COUNT,
        line_levels(state)[a],
        line_levels(state)[b],
    ensures
        a == b,
{
}

/// The lines follow the state: carrying out the action of a step on the
/// levels of the state before gives the levels of the state after.
pub proof fn lemma_step_keeps_lines_in_step(
    config: Config,
    state: ActuatorState,
    pending: Seq<ControlMessages>,
)
    ensures
        levels_after(line_levels(state), actuator_step(config, state, pending).action)
            == line_levels(actuator_step(config, state, pending).state),
{
    let step = actuator_step(config, state, pending);
    assert(levels_after(line_levels(state), step.action) =~= line_levels(step.state));
}

/// A pulse runs its course: from the step that takes an event, the next two
/// steps release the same line and return to idle, and take nothing from the
/// queue meanwhile.
pub proof fn lemma_pulse_runs_its_course(config: Config, pending: Seq<ControlMessages>)
    requires
        pending.len() > 0,
    ensures
        ({
            let drive = actuator_step(config, ActuatorState::Idle, pending);
            let release = actuator_step(config, drive.state, drive.pending);
            let rest = actuator_step(config, release.state, release.pending);
            &&& drive.action == ActuatorAction::Drive {
                line: pending[0].spec_line(),
                hold_ms: config.hold_ms,
            }
            &&& release.action == ActuatorAction::Release {
                line: pending[0].spec_line(),
                settle_ms: config.settle_ms,
            }
            &&& rest.action == ActuatorAction::Wait
            &&& rest.state == ActuatorState::Idle
            &&& rest.pending == after_take(pending)
        }),
{
}

} // verus!
