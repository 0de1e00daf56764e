//! The scheduler as a transition function: the caller performs each action
//! and reports back what happened; the function decides what comes next.

use vstd::prelude::*;
use crate::cycle::{after_runtime, after_voltage, runtime_step, voltage_step, AfterVoltage, AfterVoltageView, Outcome, PollOutcome};
use crate::error::Failure;
use crate::metric::{response_view, Metric, RawValue, Response, QUERY_TIMEOUT_SECS};
use crate::policy::{alert_for, evaluate, AlertMessage};
use crate::reading::VoltageReading;

verus! {

/// Seconds between the end of one poll round and the start of the next.
pub const POLL_INTERVAL_SECS: u64 = 30;

/// What the scheduler is waiting for.
#[derive(Clone, Copy, Debug, PartialEq, Eq, Structural)]
pub enum Phase {
    /// The voltage query of a round is under way.
    AwaitingVoltage,
    /// The voltage of the round is known and the runtime query is under way.
    AwaitingRuntime(VoltageReading),
    /// The round is over and its alert is being shown.
    Notifying,
    /// The round is over and the interval to the next one is running.
    Sleeping,
}

/// What the caller is asked to do next.
#[derive(Clone, Debug, PartialEq, Eq)]
pub enum Action {
    /// Open a fresh session, ask for the metric once, wait at most
    /// `timeout_secs` for the response.
    Query { metric: Metric, timeout_secs: u64 },
    /// Show the message to the user.
    Notify(AlertMessage),
    /// Do nothing for `seconds`.
    Sleep { seconds: u64 },
}

/// What the caller reports back.
#[derive(Debug, PartialEq, Eq)]
pub enum Event {
    /// The query came to an end.
    Response(Response),
    /// The message has been shown.
    Notified,
    /// The sleep is over.
    Woke,
}

/// Mathematical model of an [`Action`].
pub enum ActionView {
    Query { metric: Metric, timeout_secs: u64 },
    Notify(Seq<char>),
    Sleep { seconds: u64 },
}

/// Mathematical model of an [`Event`].
pub enum EventView {
    Response(Result<RawValue, Failure>),
    Notified,
    Woke,
}

impl View for Action {
    type V = ActionView;

    open spec fn view(&self) -> ActionView {
        match self {
            Action::Query { metric, timeout_secs } => ActionView::Query { metric: *metric, timeout_secs: *timeout_secs },
            Action::Notify(text) => ActionView::Notify(text@),
            Action::Sleep { seconds } => ActionView::Sleep { seconds: *seconds },
        }
    }
}

impl View for Event {
    type V = EventView;

    open spec fn view(&self) -> EventView {
        match self {
            Event::Response(response) => EventView::Response(response_view(*response)),
            Event::Notified => EventView::Notified,
            Event::Woke => EventView::Woke,
        }
    }
}

/// Mathematical model of what a step hands back.
pub open spec fn step_view(next: Option<(Phase, Action)>) -> Option<(Phase, ActionView)> {
    match next {
        Some((phase, action)) => Some((phase, action@)),
        None => None,
    }
}

/// The request for one metric, with the fixed timeout.
pub open spec fn query(metric: Metric) -> ActionView {
    ActionView::Query { metric, timeout_secs: QUERY_TIMEOUT_SECS }
}

/// The pause between two rounds, of the fixed interval.
pub open spec fn pause() -> ActionView {
    ActionView::Sleep { seconds: POLL_INTERVAL_SECS }
}

/// How a finished round is wound up: with its alert if the policy calls
/// for one, and with the pause at once if not.
pub open spec fn wind_up(outcome: Outcome) -> (Phase, ActionView) {
    match alert_for(outcome) {
        Some(text) => (Phase::Notifying, ActionView::Notify(text)),
        None => (Phase::Sleeping, pause()),
    }
}

/// The scheduler's transition relation. An event that does not answer
/// what the phase is waiting for has no successor.
pub open spec fn transition(phase: Phase, event: EventView) -> Option<(Phase, ActionView)> {
    match (phase, event) {
        (Phase::AwaitingVoltage, EventView::Response(response)) => Some(
            match voltage_step(response) {
                AfterVoltageView::QueryRuntime(volts) => (Phase::AwaitingRuntime(volts), query(Metric::BatteryRuntime)),
                AfterVoltageView::Finished(outcome) => wind_up(outcome),
            },
        ),
        (Phase::AwaitingRuntime(volts), EventView::Response(response)) => Some(
            wind_up(runtime_step(volts, response)),
        ),
        (Phase::Notifying, EventView::Notified) => Some((Phase::Sleeping, pause())),
        (Phase::Sleeping, EventView::Woke) => Some((Phase::AwaitingVoltage, query(Metric::InputVoltage))),
        _ => None,
    }
}

/// The phase and the first action of a scheduler that has just been
/// started: the voltage query of the first round.
pub fn start() -> (first: (Phase, Action))
    ensures
        first.0 == Phase::AwaitingVoltage,
        first.1@ == query(Metric::InputVoltage),
{
    (Phase::AwaitingVoltage, Action::Query { metric: Metric::InputVoltage, timeout_secs: QUERY_TIMEOUT_SECS })
}

/// Winds up a finished round.
fn finish_round(outcome: PollOutcome) -> (next: (Phase, Action))
    ensures
        (next.0, next.1@) == wind_up(outcome@),
{
    match evaluate(&outcome) {
        Some(text) => (Phase::Notifying, Action::Notify(text)),
        None => (Phase::Sleeping, Action::Sleep { seconds: POLL_INTERVAL_SECS }),
    }
}

/// Takes the event that ended the last action and decides the next phase
/// and action; `None` if the event does not fit the phase.
pub fn step(phase: Phase, event: Event) -> (next: Option<(Phase, Action)>)
    ensures
        step_view(next) == transition(phase, event@),
{
    match phase {
        Phase::AwaitingVoltage => match event {
            Event::Response(response) => match after_voltage(response) {
                AfterVoltage::QueryRuntime(volts) => Some(
                    (
                        Phase::AwaitingRuntime(volts),
                        Action::Query { metric: Metric::BatteryRuntime, timeout_secs: QUERY_TIMEOUT_SECS },
                    ),
                ),
                AfterVoltage::Finished(outcome) => Some(finish_round(outcome)),
            },
            _ => None,
        },
        Phase::AwaitingRuntime(volts) => match event {
            Event::Response(response) => Some(finish_round(after_runtime(volts, response))),
            _ => None,
        },
        Phase::Notifying => match event {
            Event::Notified => Some((Phase::Sleeping, Action::Sleep { seconds: POLL_INTERVAL_SECS })),
            _ => None,
        },
        Phase::Sleeping => match event {
            Event::Woke => Some(
                (
                    Phase::AwaitingVoltage,
                    Action::Query { metric: Metric::InputVoltage, timeout_secs: QUERY_TIMEOUT_SECS },
                ),
            ),
            _ => None,
        },
    }
}

} // verus!
