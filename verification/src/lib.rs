//! A single-shot GPU compute pipeline, modelled and verified on the host.
//!
//! The per-element kernel marks each buffer slot as prime (kept) or not
//! (collapsed to 1); the dispatch arithmetic derives how many workgroups a
//! buffer of a given length needs; the pipeline module models the strictly
//! linear host-side stages and the command sequence they record; the timing
//! module handles the timestamp-query arithmetic.

pub mod commands;
pub mod dispatch;
pub mod kernel;
pub mod pipeline;
pub mod timing;
