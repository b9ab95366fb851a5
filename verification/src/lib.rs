//! Device-selection and command-submission sequencing policy for a GPU
//! compute playground.
//!
//! The driver itself (instance creation, memory allocation, queue
//! submission) is an opaque service that the surrounding program calls; this
//! library holds the decisions that sit between those calls: which physical
//! device and queue families to use, how many work groups cover a buffer,
//! what a one-shot command recording may contain, when destination memory
//! may be read, and how driver diagnostics map to log levels.

pub mod capability;
pub mod diagnostics;
pub mod dispatch;
pub mod errors;
pub mod facade;
pub mod names;
pub mod pipeline;
pub mod selector;
pub mod sequencer;
pub mod transform;
