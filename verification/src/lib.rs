//! Conformance checking of a virtual machine's execution trace against an
//! expected reference.
//!
//! * [`trace`]: execution steps and the first difference of two traces.
//! * [`decimal`]: the unsigned decimal numbers of a trace file's fields.
//! * [`loader`]: loading an expected trace from a comma-separated table.
//! * [`text`]: substring containment, for the messages of failed runs.
//! * [`engine`]: the configuration and the outcome of a run.
//! * [`driver`]: the verdict on an outcome.

pub mod decimal;
pub mod driver;
pub mod engine;
pub mod loader;
pub mod text;
pub mod trace;
