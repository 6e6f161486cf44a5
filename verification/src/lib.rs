//! Weather push for a wearable device.
//!
//! The library has three parts: `codec` serializes weather readings into the
//! fixed-layout byte messages the device firmware expects; `provider` reports
//! which of a closed set of system weather services are present and maps
//! their condition codes to device icons; `session` is the state machine that
//! decides when the provider-watch and weather-delivery tasks start and stop.
//! All I/O (the wireless link, the service bus, the UI) stays with the
//! caller, which feeds events in and carries the returned actions out.

pub mod codec;
pub mod provider;
pub mod session;
