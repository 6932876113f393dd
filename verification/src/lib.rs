//! Decoder for a self-describing binary telemetry log and the pipeline
//! that turns its records into schema-tagged, sequenced output messages.
//!
//! The record layout is learned from definition records interleaved with
//! the data; the decoder tolerates a source that ends mid-record. All
//! floating-point values are carried as bit patterns or as caller-supplied
//! rendered number text: the library itself is free of floating-point
//! arithmetic.
pub mod codec;
pub mod fused;
pub mod json;
pub mod laws;
pub mod pipeline;
pub mod reader;
pub mod transform;
pub mod text;
