//! Per-object request statistics for a trace-driven cache simulator.
//!
//! A [`store::Store`] owns one [`record::Record`] per object key and keeps a
//! single-slot cursor on the most recently touched key, so a driver can run
//! the `touch`, then `record_outcome`, then `snapshot` sequence for each
//! simulated request without repeating the key.

pub mod record;
pub mod store;

