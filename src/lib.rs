//! Subscription negotiation, scheduling and data marshalling for the BSEC
//! air-quality fusion engine.
//!
//! The engine itself is a native library reached through a flat call
//! surface. This crate holds everything around those calls: the table of
//! subscribed virtual sensors and the physical sensors the engine asks for
//! ([`Bsec`]), the conversion between the caller's millisecond clock and
//! the engine's nanosecond clock, the conversion of the engine's settings
//! into a [`Control`], the input list built from the available readings,
//! and the decoding of the engine's output list into typed,
//! accuracy-tagged [`Outputs`].
//!
//! Each engine call splits a cycle in two: the crate prepares what the call
//! takes, the caller makes the call, and the crate turns the call's status
//! code and results into the library's values.

mod control;
mod error;
mod pipeline;
mod sensors;
mod subscription;
mod time;

pub use control::{control_from_settings, Control, EngineSettings};
pub use error::{status_of, Error, Version, BSEC_OK};
pub use pipeline::{
    build_inputs, decode_outputs, outputs_from_engine, Accuracy, InputEntry, InputList,
    Inputs, OutputEntry, Outputs, CENTI, MAX_INPUTS,
};
pub use sensors::{
    PhysicalSensor, SampleRate, VirtualSensor, NUM_PHYSICAL_SENSORS, NUM_VIRTUAL_SENSORS,
};
pub use subscription::{Bsec, SubscriptionEntry};
pub use time::{engine_time, external_time, NANOS_PER_MILLI};
