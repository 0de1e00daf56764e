//! Decision core of a UPS telemetry monitor: unit conversion of raw device
//! values, classification of one poll round, the alert policy, and the
//! scheduler's transition function.

pub mod cycle;
pub mod decimal;
pub mod endpoint;
pub mod error;
pub mod metric;
pub mod policy;
pub mod reading;
pub mod rounds;
pub mod scheduler;
