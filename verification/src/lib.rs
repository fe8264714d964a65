//! Code-generation core for hardware/software co-simulation glue.
//!
//! Given a hardware unit's interface description — a named, ordered set of
//! typed ports plus optional generic parameters, tagged with a target
//! hardware-description dialect — this crate renders the textual snippets a
//! software testbench needs to drive and check that unit: a bus-functional
//! interface (record) type, instance declarations, a stimulus-driving
//! routine and a response-checking routine.
//!
//! Parsing the description from disk and writing the rendered text out are
//! the caller's business; the crate works on in-memory values only.

pub mod laws;
pub mod link;
pub mod model;
pub mod text;
