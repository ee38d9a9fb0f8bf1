//! Adapters between a foreign callback interface and Rust closures.
//!
//! A native component calls a callback interface through a single invocation
//! method that takes raw arguments and returns a status code. The adapters
//! here turn the raw arguments into owned values, call a stored closure with
//! them, and turn the closure's result back into a status code.
//!
//! - `status`: status codes, decoded failures and the mapping between them.
//! - `wide`: raw wide strings and their decoding into text.
//! - `arg`: the categories of raw arguments and their conversion.
//! - `answer`: what an adapter's answer to an invocation is.
//! - `completed`: the one-shot adapter, whose closure is used up by the
//!   first invocation.
//! - `event`: the multi-shot adapter, whose closure serves every
//!   invocation.
//! - `completed_handlers`, `event_handlers`: one named adapter for each
//!   callback interface of the browser control.

pub mod answer;
pub mod arg;
pub mod completed;
pub mod completed_handlers;
pub mod event;
pub mod event_handlers;
pub mod status;
pub mod wide;
