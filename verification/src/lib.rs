/// The health body: fixed status and service name, the current UTC time as
/// the timestamp, and its rendering as a JSON object.
pub mod health;
/// Listening-port resolution: primary variable, fallback variable, default.
pub mod port;
/// A checker for RFC 3339 timestamps in UTC.
pub mod rfc3339;
