//! The two device metrics, the raw values a device answers with, and the
//! validation of an answer against the kind a metric is expected to have.

use vstd::prelude::*;
use vstd::string::*;
use crate::error::{Failure, FailureKind, QueryError};

verus! {

/// Seconds a single query may wait for its response.
pub const QUERY_TIMEOUT_SECS: u64 = 2;

/// Identifier of the input line voltage, in tenths of a volt.
pub const INPUT_VOLTAGE_ID: [u32; 14] = [1, 3, 6, 1, 4, 1, 318, 1, 1, 1, 3, 3, 1, 0];

/// Identifier of the remaining battery runtime, in hundredths of a second.
pub const BATTERY_RUNTIME_ID: [u32; 14] = [1, 3, 6, 1, 4, 1, 318, 1, 1, 1, 2, 2, 3, 0];

/// Wire kind of a scalar value.
#[derive(Clone, Copy, Debug, PartialEq, Eq, Structural)]
pub enum ValueKind {
    /// Unsigned 32-bit instantaneous reading.
    Gauge,
    /// Unsigned 32-bit counter of hundredths of a second.
    TimeTicks,
}

/// What the first value binding of a response holds.
#[derive(Clone, Copy, Debug, PartialEq, Eq, Structural)]
pub enum RawValue {
    Gauge(u32),
    TimeTicks(u32),
    /// A value of any other wire kind.
    Unsupported,
    /// The response held no value binding at all.
    Absent,
}

/// A metric that the monitor tracks.
#[derive(Clone, Copy, Debug, PartialEq, Eq, Structural)]
pub enum Metric {
    InputVoltage,
    BatteryRuntime,
}

/// The answer to one query as the transport hands it over: the first value
/// binding, or the reason why no response was obtained.
pub type Response = Result<RawValue, QueryError>;

/// Mathematical model of a [`Response`].
pub open spec fn response_view(response: Response) -> Result<RawValue, Failure> {
    match response {
        Ok(raw) => Ok(raw),
        Err(error) => Err(error@),
    }
}

/// Mathematical model of a validated scalar or the error in its place.
pub open spec fn scalar_view(scalar: Result<u32, QueryError>) -> Result<u32, Failure> {
    match scalar {
        Ok(value) => Ok(value),
        Err(error) => Err(error@),
    }
}

impl RawValue {
    /// The wire kind of a present scalar, if it is one the monitor reads.
    pub open spec fn kind_of(self) -> Option<ValueKind> {
        match self {
            RawValue::Gauge(_) => Some(ValueKind::Gauge),
            RawValue::TimeTicks(_) => Some(ValueKind::TimeTicks),
            RawValue::Unsupported => None,
            RawValue::Absent => None,
        }
    }

    /// The number a present scalar carries.
    pub open spec fn scalar_of(self) -> u32 {
        match self {
            RawValue::Gauge(value) => value,
            RawValue::TimeTicks(value) => value,
            RawValue::Unsupported => 0,
            RawValue::Absent => 0,
        }
    }
}

impl Metric {
    /// The identifier under which a device publishes the metric.
    pub open spec fn identifier_of(self) -> Seq<u32> {
        match self {
            Metric::InputVoltage => seq![1u32, 3, 6, 1, 4, 1, 318, 1, 1, 1, 3, 3, 1, 0],
            Metric::BatteryRuntime => seq![1u32, 3, 6, 1, 4, 1, 318, 1, 1, 1, 2, 2, 3, 0],
        }
    }

    /// The wire kind a device must answer with.
    pub open spec fn expected_kind_of(self) -> ValueKind {
        match self {
            Metric::InputVoltage => ValueKind::Gauge,
            Metric::BatteryRuntime => ValueKind::TimeTicks,
        }
    }

    /// The cause reported when a response holds no usable value.
    pub open spec fn unreadable_text(self) -> Seq<char> {
        match self {
            Metric::InputVoltage => "error reading voltage"@,
            Metric::BatteryRuntime => "error reading time remaining"@,
        }
    }

    /// The identifier to put into the get-request.
    pub fn identifier(self) -> (oid: [u32; 14])
        ensures
            oid@ == self.identifier_of(),
    {
        let oid: [u32; 14] = match self {
            Metric::InputVoltage => INPUT_VOLTAGE_ID,
            Metric::BatteryRuntime => BATTERY_RUNTIME_ID,
        };
        assert(oid@ =~= self.identifier_of());
        oid
    }

    /// The wire kind that the first value binding must have.
    pub fn expected_kind(self) -> (kind: ValueKind)
        ensures
            kind == self.expected_kind_of(),
    {
        match self {
            Metric::InputVoltage => ValueKind::Gauge,
            Metric::BatteryRuntime => ValueKind::TimeTicks,
        }
    }

    /// The error for a response without a usable value.
    fn unreadable(self, kind: FailureKind) -> (error: QueryError)
        ensures
            error@ == (Failure { kind, cause: self.unreadable_text() }),
    {
        let cause: &'static str = match self {
            Metric::InputVoltage => "error reading voltage",
            Metric::BatteryRuntime => "error reading time remaining",
        };
        QueryError::new(kind, String::from_str(cause))
    }
}

/// The scalar that a response yields for `metric`.
///
/// A response that could not be obtained keeps its error. An absent binding
/// is a missing value, a binding of another kind than the metric expects is
/// a type mismatch; neither is ever read as a number.
pub open spec fn validated(metric: Metric, response: Result<RawValue, Failure>) -> Result<u32, Failure> {
    match response {
        Err(failure) => Err(failure),
        Ok(raw) => if raw is Absent {
            Err(Failure { kind: FailureKind::MissingValue, cause: metric.unreadable_text() })
        } else if raw.kind_of() == Some(metric.expected_kind_of()) {
            Ok(raw.scalar_of())
        } else {
            Err(Failure { kind: FailureKind::TypeMismatch, cause: metric.unreadable_text() })
        },
    }
}

/// Validates the response to a query for `metric` and extracts its scalar.
pub fn read_scalar(metric: Metric, response: Response) -> (scalar: Result<u32, QueryError>)
    ensures
        scalar_view(scalar) == validated(metric, response_view(response)),
{
    match response {
        Err(error) => Err(error),
        Ok(RawValue::Absent) => Err(metric.unreadable(FailureKind::MissingValue)),
        Ok(RawValue::Gauge(value)) => match metric {
            Metric::InputVoltage => Ok(value),
            Metric::BatteryRuntime => Err(metric.unreadable(FailureKind::TypeMismatch)),
        },
        Ok(RawValue::TimeTicks(value)) => match metric {
            Metric::InputVoltage => Err(metric.unreadable(FailureKind::TypeMismatch)),
            Metric::BatteryRuntime => Ok(value),
        },
        Ok(RawValue::Unsupported) => Err(metric.unreadable(FailureKind::TypeMismatch)),
    }
}

} // verus!
