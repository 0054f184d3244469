//! Input-capture and report-synthesis engine for a wireless game controller.
//!
//! The library turns a snapshot of switch states into a fixed-layout wire
//! report and decides when a fresh report must be handed to the transport:
//!
//! * [`game_pad`] — the pad's fixed key table and its code-array translation;
//! * [`code_map`] — the channel-to-code table with its mutual-exclusion rule;
//! * [`report`] — report assembly with the truncation policy, and change
//!   detection over whole report buffers;
//! * [`mask`] — the single-bitmask report variant with its analog sub-range;
//! * [`engine`] — the assembled pipeline, the transmit coordinator and the
//!   shared latest-report cell;
//! * [`laws`] — proofs of the engine-wide guarantees.
//!
//! All I/O (pin sampling, the wireless link, task scheduling) stays outside:
//! callers hand in plain snapshots and carry the returned buffers out.

pub mod code_map;
pub mod engine;
pub mod game_pad;
pub mod laws;
pub mod mask;
pub mod report;
