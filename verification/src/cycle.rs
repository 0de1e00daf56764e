//! One poll round: voltage first, runtime only once the voltage is known,
//! and the classification of what came back.

use vstd::prelude::*;
use crate::error::{Failure, QueryError};
use crate::metric::{read_scalar, response_view, validated, Metric, RawValue, Response};
use crate::reading::{minutes_from_ticks, minutes_of, volts_from_gauge, volts_of, RuntimeReading, VoltageReading};

verus! {

/// The combined result of one poll round.
#[derive(Clone, Debug, PartialEq, Eq)]
pub enum PollOutcome {
    /// Both metrics were read.
    Healthy(VoltageReading, RuntimeReading),
    /// The voltage is not known.
    VoltageUnavailable(QueryError),
    /// The voltage is known, the runtime is not.
    RuntimeUnavailable(VoltageReading, QueryError),
    /// The round was given up at its first failed query.
    QueryFailed(QueryError),
}

/// Mathematical model of a [`PollOutcome`].
pub enum Outcome {
    Healthy(VoltageReading, RuntimeReading),
    VoltageUnavailable(Failure),
    RuntimeUnavailable(VoltageReading, Failure),
    QueryFailed(Failure),
}

impl View for PollOutcome {
    type V = Outcome;

    open spec fn view(&self) -> Outcome {
        match self {
            PollOutcome::Healthy(volts, minutes) => Outcome::Healthy(*volts, *minutes),
            PollOutcome::VoltageUnavailable(error) => Outcome::VoltageUnavailable(error@),
            PollOutcome::RuntimeUnavailable(volts, error) => Outcome::RuntimeUnavailable(*volts, error@),
            PollOutcome::QueryFailed(error) => Outcome::QueryFailed(error@),
        }
    }
}

/// How a round goes on once the voltage query has been answered.
#[derive(Clone, Debug, PartialEq, Eq)]
pub enum AfterVoltage {
    /// The voltage was read: the runtime is to be queried next.
    QueryRuntime(VoltageReading),
    /// The round is over without a runtime query.
    Finished(PollOutcome),
}

/// Mathematical model of an [`AfterVoltage`].
pub enum AfterVoltageView {
    QueryRuntime(VoltageReading),
    Finished(Outcome),
}

impl View for AfterVoltage {
    type V = AfterVoltageView;

    open spec fn view(&self) -> AfterVoltageView {
        match self {
            AfterVoltage::QueryRuntime(volts) => AfterVoltageView::QueryRuntime(*volts),
            AfterVoltage::Finished(outcome) => AfterVoltageView::Finished(outcome@),
        }
    }
}

/// What the answer to the voltage query means for the round: a failure of
/// any kind ends it as `QueryFailed`, a gauge value is converted to volts
/// and the round goes on.
pub open spec fn voltage_step(response: Result<RawValue, Failure>) -> AfterVoltageView {
    match validated(Metric::InputVoltage, response) {
        Ok(gauge) => AfterVoltageView::QueryRuntime(volts_of(gauge)),
        Err(failure) => AfterVoltageView::Finished(Outcome::QueryFailed(failure)),
    }
}

/// The outcome of a round whose voltage is `volts`, given the answer to the
/// runtime query: a failure of any kind leaves the runtime unavailable, a
/// time-tick value is converted to minutes.
pub open spec fn runtime_step(volts: VoltageReading, response: Result<RawValue, Failure>) -> Outcome {
    match validated(Metric::BatteryRuntime, response) {
        Ok(ticks) => Outcome::Healthy(volts, minutes_of(ticks)),
        Err(failure) => Outcome::RuntimeUnavailable(volts, failure),
    }
}

/// A reading is only ever made from a value of the expected kind that was
/// present in the response; in particular no failure is read as zero. The
/// round goes on to the runtime query exactly when the voltage answer is a
/// gauge value, and is healthy exactly when the runtime answer is a
/// time-tick value. Every other answer ends up as the error of its outcome.
pub proof fn lemma_readings_need_values(
    volts: VoltageReading,
    voltage: Result<RawValue, Failure>,
    runtime: Result<RawValue, Failure>,
)
    ensures
        voltage matches Ok(RawValue::Gauge(gauge)) ==> voltage_step(voltage) == AfterVoltageView::QueryRuntime(
            volts_of(gauge),
        ),
        !(voltage matches Ok(RawValue::Gauge(_))) ==> voltage_step(voltage) is Finished && voltage_step(
            voltage,
        )->Finished_0 is QueryFailed,
        runtime matches Ok(RawValue::TimeTicks(ticks)) ==> runtime_step(volts, runtime) == Outcome::Healthy(
            volts,
            minutes_of(ticks),
        ),
        !(runtime matches Ok(RawValue::TimeTicks(_))) ==> runtime_step(volts, runtime) is RuntimeUnavailable
            && runtime_step(volts, runtime)->RuntimeUnavailable_0 == volts,
{
}

/// Takes the answer to the voltage query and decides how the round goes on.
pub fn after_voltage(response: Response) -> (next: AfterVoltage)
    ensures
        next@ == voltage_step(response_view(response)),
{
    match read_scalar(Metric::InputVoltage, response) {
        Ok(gauge) => AfterVoltage::QueryRuntime(volts_from_gauge(gauge)),
        Err(error) => AfterVoltage::Finished(PollOutcome::QueryFailed(error)),
    }
}

/// Takes the answer to the runtime query and closes the round.
pub fn after_runtime(volts: VoltageReading, response: Response) -> (outcome: PollOutcome)
    ensures
        outcome@ == runtime_step(volts, response_view(response)),
{
    match read_scalar(Metric::BatteryRuntime, response) {
        Ok(ticks) => PollOutcome::Healthy(volts, minutes_from_ticks(ticks)),
        Err(error) => PollOutcome::RuntimeUnavailable(volts, error),
    }
}

} // verus!
