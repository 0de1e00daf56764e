use ups_monitor::error::{FailureKind, ProtocolFault, QueryError};
use ups_monitor::metric::{
    read_scalar, Metric, RawValue, ValueKind, BATTERY_RUNTIME_ID, INPUT_VOLTAGE_ID, QUERY_TIMEOUT_SECS,
};

fn text(s: &str) -> String {
    String::from(s)
}

#[test]
fn identifiers_are_the_well_known_paths() {
    assert_eq!(INPUT_VOLTAGE_ID, [1, 3, 6, 1, 4, 1, 318, 1, 1, 1, 3, 3, 1, 0]);
    assert_eq!(BATTERY_RUNTIME_ID, [1, 3, 6, 1, 4, 1, 318, 1, 1, 1, 2, 2, 3, 0]);
    assert_eq!(Metric::InputVoltage.identifier(), INPUT_VOLTAGE_ID);
    assert_eq!(Metric::BatteryRuntime.identifier(), BATTERY_RUNTIME_ID);
}

#[test]
fn each_metric_expects_its_kind() {
    assert_eq!(Metric::InputVoltage.expected_kind(), ValueKind::Gauge);
    assert_eq!(Metric::BatteryRuntime.expected_kind(), ValueKind::TimeTicks);
}

#[test]
fn query_timeout_is_two_seconds() {
    assert_eq!(QUERY_TIMEOUT_SECS, 2);
}

#[test]
fn value_of_the_expected_kind_is_read() {
    assert_eq!(read_scalar(Metric::InputVoltage, Ok(RawValue::Gauge(2305))), Ok(2305));
    assert_eq!(read_scalar(Metric::BatteryRuntime, Ok(RawValue::TimeTicks(180_000))), Ok(180_000));
    assert_eq!(read_scalar(Metric::InputVoltage, Ok(RawValue::Gauge(0))), Ok(0));
    assert_eq!(read_scalar(Metric::BatteryRuntime, Ok(RawValue::TimeTicks(u32::MAX))), Ok(u32::MAX));
}

#[test]
fn value_of_another_kind_is_a_type_mismatch() {
    assert_eq!(
        read_scalar(Metric::InputVoltage, Ok(RawValue::TimeTicks(2305))),
        Err(QueryError::TypeMismatch(text("error reading voltage")))
    );
    assert_eq!(
        read_scalar(Metric::InputVoltage, Ok(RawValue::Unsupported)),
        Err(QueryError::TypeMismatch(text("error reading voltage")))
    );
    assert_eq!(
        read_scalar(Metric::BatteryRuntime, Ok(RawValue::Gauge(180_000))),
        Err(QueryError::TypeMismatch(text("error reading time remaining")))
    );
    assert_eq!(
        read_scalar(Metric::BatteryRuntime, Ok(RawValue::Unsupported)),
        Err(QueryError::TypeMismatch(text("error reading time remaining")))
    );
}

#[test]
fn response_without_a_binding_is_a_missing_value() {
    assert_eq!(
        read_scalar(Metric::InputVoltage, Ok(RawValue::Absent)),
        Err(QueryError::MissingValue(text("error reading voltage")))
    );
    assert_eq!(
        read_scalar(Metric::BatteryRuntime, Ok(RawValue::Absent)),
        Err(QueryError::MissingValue(text("error reading time remaining")))
    );
}

#[test]
fn failed_query_keeps_its_error() {
    let open = QueryError::session_open(text("connection refused"));
    assert_eq!(read_scalar(Metric::InputVoltage, Err(open.clone())), Err(open));
    let lost = QueryError::transport(ProtocolFault::ReceiveError);
    assert_eq!(read_scalar(Metric::BatteryRuntime, Err(lost.clone())), Err(lost));
}

#[test]
fn error_reports_its_kind_and_cause() {
    let open = QueryError::session_open(text("network unreachable"));
    assert_eq!(open, QueryError::SessionOpen(text("network unreachable")));
    assert_eq!(open.kind(), FailureKind::SessionOpen);
    assert_eq!(open.message(), "network unreachable");

    let lost = QueryError::transport(ProtocolFault::SendError);
    assert_eq!(lost, QueryError::Transport(text("SendError")));
    assert_eq!(lost.kind(), FailureKind::Transport);
    assert_eq!(lost.message(), "SendError");

    let missing = QueryError::new(FailureKind::MissingValue, text("nothing there"));
    assert_eq!(missing, QueryError::MissingValue(text("nothing there")));
    assert_eq!(missing.kind(), FailureKind::MissingValue);
    assert_eq!(missing.message(), "nothing there");

    let mismatch = QueryError::new(FailureKind::TypeMismatch, text("not a gauge"));
    assert_eq!(mismatch, QueryError::TypeMismatch(text("not a gauge")));
    assert_eq!(mismatch.kind(), FailureKind::TypeMismatch);
    assert_eq!(mismatch.message(), "not a gauge");

    assert_eq!(QueryError::new(FailureKind::SessionOpen, text("a")), QueryError::SessionOpen(text("a")));
    assert_eq!(QueryError::new(FailureKind::Transport, text("b")), QueryError::Transport(text("b")));
}

#[test]
fn fault_names_are_those_of_the_protocol_layer() {
    let pairs = [
        (ProtocolFault::AsnParseError, snmp::SnmpError::AsnParseError),
        (ProtocolFault::AsnInvalidLen, snmp::SnmpError::AsnInvalidLen),
        (ProtocolFault::AsnWrongType, snmp::SnmpError::AsnWrongType),
        (ProtocolFault::AsnUnsupportedType, snmp::SnmpError::AsnUnsupportedType),
        (ProtocolFault::AsnEof, snmp::SnmpError::AsnEof),
        (ProtocolFault::AsnIntOverflow, snmp::SnmpError::AsnIntOverflow),
        (ProtocolFault::UnsupportedVersion, snmp::SnmpError::UnsupportedVersion),
        (ProtocolFault::RequestIdMismatch, snmp::SnmpError::RequestIdMismatch),
        (ProtocolFault::CommunityMismatch, snmp::SnmpError::CommunityMismatch),
        (ProtocolFault::ValueOutOfRange, snmp::SnmpError::ValueOutOfRange),
        (ProtocolFault::SendError, snmp::SnmpError::SendError),
        (ProtocolFault::ReceiveError, snmp::SnmpError::ReceiveError),
    ];
    for (fault, outside) in pairs {
        assert_eq!(fault.name(), format!("{:?}", outside));
        assert_eq!(QueryError::transport(fault).message(), format!("{:?}", outside));
    }
}

#[test]
fn fault_names_are_written_out() {
    assert_eq!(ProtocolFault::AsnParseError.name(), "AsnParseError");
    assert_eq!(ProtocolFault::RequestIdMismatch.name(), "RequestIdMismatch");
    assert_eq!(ProtocolFault::CommunityMismatch.name(), "CommunityMismatch");
    assert_eq!(ProtocolFault::ReceiveError.name(), "ReceiveError");
}
