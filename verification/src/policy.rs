//! The alert policy: which outcomes of a poll round are brought to the
//! user's attention, and in what words.

use vstd::prelude::*;
use vstd::string::*;
use crate::cycle::{Outcome, PollOutcome};
use crate::decimal::{decimal_text, render_decimal};
use crate::error::{Failure, QueryError};
use crate::reading::{RuntimeReading, VoltageReading};

verus! {

/// Volts below which the device is taken to run on battery.
pub const LOW_VOLTAGE_THRESHOLD: VoltageReading = 200;

/// The text of an alert.
pub type AlertMessage = String;

/// The message that reports a low input voltage.
pub open spec fn reading_text(volts: VoltageReading, minutes: RuntimeReading) -> Seq<char> {
    "Input voltage: "@ + decimal_text(volts as nat) + " Volt / Remaining runtime: "@ + decimal_text(
        minutes as nat,
    ) + " Minutes"@
}

/// The message that reports a failed query.
pub open spec fn error_text(cause: Seq<char>) -> Seq<char> {
    "Error: "@ + cause
}

/// The alert that an outcome calls for, if any.
///
/// A healthy outcome alerts exactly when its voltage is below the
/// threshold. Every outcome that carries an error alerts with that error,
/// whatever voltage is known.
pub open spec fn alert_for(outcome: Outcome) -> Option<Seq<char>> {
    match outcome {
        Outcome::Healthy(volts, minutes) => if volts < LOW_VOLTAGE_THRESHOLD {
            Some(reading_text(volts, minutes))
        } else {
            None
        },
        Outcome::VoltageUnavailable(failure) => Some(error_text(failure.cause)),
        Outcome::RuntimeUnavailable(_, failure) => Some(error_text(failure.cause)),
        Outcome::QueryFailed(failure) => Some(error_text(failure.cause)),
    }
}

/// Mathematical model of an optional alert.
pub open spec fn alert_view(alert: Option<AlertMessage>) -> Option<Seq<char>> {
    match alert {
        Some(text) => Some(text@),
        None => None,
    }
}

/// A healthy outcome raises an alert if and only if its voltage is below
/// the threshold; a voltage of exactly the threshold raises none.
pub proof fn lemma_alert_threshold(volts: VoltageReading, minutes: RuntimeReading)
    ensures
        alert_for(Outcome::Healthy(volts, minutes)) is Some <==> volts < LOW_VOLTAGE_THRESHOLD,
        volts < LOW_VOLTAGE_THRESHOLD ==> alert_for(Outcome::Healthy(volts, minutes)) == Some(
            reading_text(volts, minutes),
        ),
        alert_for(Outcome::Healthy(LOW_VOLTAGE_THRESHOLD, minutes)) is None,
{
}

/// Every outcome that carries an error raises an alert with the error's
/// cause, in the same words for each kind of outcome, and for a known
/// voltage whether it is below the threshold or not.
pub proof fn lemma_errors_always_alert(volts: VoltageReading, failure: Failure)
    ensures
        alert_for(Outcome::QueryFailed(failure)) == Some(error_text(failure.cause)),
        alert_for(Outcome::VoltageUnavailable(failure)) == Some(error_text(failure.cause)),
        alert_for(Outcome::RuntimeUnavailable(volts, failure)) == Some(error_text(failure.cause)),
{
}

/// The policy keeps no state: two outcomes that are equal get the same
/// answer, so evaluating one outcome again changes nothing.
pub proof fn lemma_equal_outcomes_equal_alerts(first: PollOutcome, second: PollOutcome)
    requires
        first@ == second@,
    ensures
        alert_for(first@) == alert_for(second@),
{
}

/// Writes the message for a low input voltage.
fn reading_message(volts: VoltageReading, minutes: RuntimeReading) -> (text: AlertMessage)
    ensures
        text@ == reading_text(volts, minutes),
{
    let mut text: String = String::from_str("Input voltage: ");
    let volts_text: String = render_decimal(volts);
    text.append(volts_text.as_str());
    text.append(" Volt / Remaining runtime: ");
    let minutes_text: String = render_decimal(minutes);
    text.append(minutes_text.as_str());
    text.append(" Minutes");
    assert(text@ =~= reading_text(volts, minutes));
    text
}

/// Writes the message for a failed query.
fn error_message(error: &QueryError) -> (text: AlertMessage)
    ensures
        text@ == error_text(error@.cause),
{
    let mut text: String = String::from_str("Error: ");
    let cause: String = error.message();
    text.append(cause.as_str());
    text
}

/// Decides whether `outcome` raises an alert and writes its message.
///
/// The decision rests on the outcome alone: nothing is remembered between
/// two evaluations, so equal outcomes always get equal answers.
pub fn evaluate(outcome: &PollOutcome) -> (alert: Option<AlertMessage>)
    ensures
        alert_view(alert) == alert_for(outcome@),
{
    match outcome {
        PollOutcome::Healthy(volts, minutes) => {
            if *volts < LOW_VOLTAGE_THRESHOLD {
                Some(reading_message(*volts, *minutes))
            } else {
                None
            }
        },
        PollOutcome::VoltageUnavailable(error) => Some(error_message(error)),
        PollOutcome::RuntimeUnavailable(_, error) => Some(error_message(error)),
        PollOutcome::QueryFailed(error) => Some(error_message(error)),
    }
}

} // verus!
