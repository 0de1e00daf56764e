use ups_monitor::cycle::{after_runtime, after_voltage, AfterVoltage, PollOutcome};
use ups_monitor::error::{ProtocolFault, QueryError};
use ups_monitor::metric::RawValue;
use ups_monitor::policy::{evaluate, LOW_VOLTAGE_THRESHOLD};

fn text(s: &str) -> String {
    String::from(s)
}

#[test]
fn threshold_is_two_hundred_volts() {
    assert_eq!(LOW_VOLTAGE_THRESHOLD, 200);
}

#[test]
fn voltage_below_threshold_raises_an_alert() {
    assert_eq!(
        evaluate(&PollOutcome::Healthy(199, 30)),
        Some(text("Input voltage: 199 Volt / Remaining runtime: 30 Minutes"))
    );
}

#[test]
fn voltage_at_threshold_raises_no_alert() {
    assert_eq!(evaluate(&PollOutcome::Healthy(200, 30)), None);
    assert_eq!(evaluate(&PollOutcome::Healthy(201, 0)), None);
    assert_eq!(evaluate(&PollOutcome::Healthy(u32::MAX, u32::MAX)), None);
}

#[test]
fn zero_volts_is_a_reading_and_not_an_error() {
    assert_eq!(
        evaluate(&PollOutcome::Healthy(0, 0)),
        Some(text("Input voltage: 0 Volt / Remaining runtime: 0 Minutes"))
    );
    let next = after_voltage(Ok(RawValue::Gauge(0)));
    assert_eq!(next, AfterVoltage::QueryRuntime(0));
    let absent = after_voltage(Ok(RawValue::Absent));
    assert_eq!(
        absent,
        AfterVoltage::Finished(PollOutcome::QueryFailed(QueryError::MissingValue(text("error reading voltage"))))
    );
}

#[test]
fn alert_message_carries_both_readings() {
    assert_eq!(
        evaluate(&PollOutcome::Healthy(7, 715_827)),
        Some(text("Input voltage: 7 Volt / Remaining runtime: 715827 Minutes"))
    );
}

#[test]
fn failed_query_raises_an_error_alert() {
    let outcome = PollOutcome::QueryFailed(QueryError::session_open(text("connection refused")));
    assert_eq!(evaluate(&outcome), Some(text("Error: connection refused")));
    let lost = PollOutcome::QueryFailed(QueryError::transport(ProtocolFault::ReceiveError));
    assert_eq!(evaluate(&lost), Some(text("Error: ReceiveError")));
}

#[test]
fn unavailable_voltage_raises_an_error_alert() {
    let outcome = PollOutcome::VoltageUnavailable(QueryError::MissingValue(text("error reading voltage")));
    assert_eq!(evaluate(&outcome), Some(text("Error: error reading voltage")));
}

#[test]
fn unavailable_runtime_alerts_whatever_the_voltage() {
    for volts in [0u32, 199, 200, 230, u32::MAX] {
        let outcome = PollOutcome::RuntimeUnavailable(
            volts,
            QueryError::TypeMismatch(text("error reading time remaining")),
        );
        assert_eq!(evaluate(&outcome), Some(text("Error: error reading time remaining")));
    }
}

#[test]
fn evaluating_twice_gives_the_same_alert() {
    let outcome = PollOutcome::Healthy(199, 30);
    let first = evaluate(&outcome);
    let second = evaluate(&outcome);
    assert_eq!(first, second);
    assert_eq!(first, Some(text("Input voltage: 199 Volt / Remaining runtime: 30 Minutes")));
    let copy = outcome.clone();
    assert_eq!(evaluate(&copy), first);
}

#[test]
fn voltage_answer_decides_how_the_round_goes_on() {
    assert_eq!(after_voltage(Ok(RawValue::Gauge(1999))), AfterVoltage::QueryRuntime(199));
    assert_eq!(after_voltage(Ok(RawValue::Gauge(2000))), AfterVoltage::QueryRuntime(200));
    assert_eq!(
        after_voltage(Ok(RawValue::TimeTicks(2000))),
        AfterVoltage::Finished(PollOutcome::QueryFailed(QueryError::TypeMismatch(text("error reading voltage"))))
    );
    assert_eq!(
        after_voltage(Ok(RawValue::Unsupported)),
        AfterVoltage::Finished(PollOutcome::QueryFailed(QueryError::TypeMismatch(text("error reading voltage"))))
    );
    let refused = QueryError::session_open(text("connection refused"));
    assert_eq!(
        after_voltage(Err(refused.clone())),
        AfterVoltage::Finished(PollOutcome::QueryFailed(refused))
    );
}

#[test]
fn runtime_answer_closes_the_round() {
    assert_eq!(after_runtime(230, Ok(RawValue::TimeTicks(12345))), PollOutcome::Healthy(230, 2));
    assert_eq!(after_runtime(199, Ok(RawValue::TimeTicks(180_000))), PollOutcome::Healthy(199, 30));
    assert_eq!(
        after_runtime(230, Ok(RawValue::Absent)),
        PollOutcome::RuntimeUnavailable(230, QueryError::MissingValue(text("error reading time remaining")))
    );
    assert_eq!(
        after_runtime(230, Ok(RawValue::Gauge(12345))),
        PollOutcome::RuntimeUnavailable(230, QueryError::TypeMismatch(text("error reading time remaining")))
    );
    let lost = QueryError::transport(ProtocolFault::ReceiveError);
    assert_eq!(after_runtime(150, Err(lost.clone())), PollOutcome::RuntimeUnavailable(150, lost));
}

#[test]
fn runtime_failure_after_good_voltage_still_alerts() {
    let volts = match after_voltage(Ok(RawValue::Gauge(2305))) {
        AfterVoltage::QueryRuntime(volts) => volts,
        AfterVoltage::Finished(outcome) => panic!("round ended early: {:?}", outcome),
    };
    assert_eq!(volts, 230);
    let outcome = after_runtime(volts, Err(QueryError::transport(ProtocolFault::ReceiveError)));
    assert_eq!(evaluate(&outcome), Some(text("Error: ReceiveError")));
}
