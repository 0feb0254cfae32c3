//! Composition of processing units: processors, early-return control flow,
//! layers and adapters, and fan-out over many inputs.

/// Processors: reusable transformation units from an input to an output.
pub mod processor;

/// Monadic flow control.
pub mod flow;

/// Something that wraps around a processor.
pub mod layer;

/// Message passing tools: the codec traits and their unified errors.
pub mod message;
