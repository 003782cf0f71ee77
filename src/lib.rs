//! Telemetry bridge for smart electricity meters speaking SML: frame decoding,
//! register extraction, the metering state machine, the serial driver's
//! decisions and the payloads it publishes.

pub mod driver;
pub mod frame;
pub mod graph;
pub mod laws;
pub mod message;
pub mod metering;
pub mod pipeline;
pub mod publish;
pub mod text;
