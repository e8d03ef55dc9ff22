//! Core logic of a chat code-redemption pipeline: cross-session code
//! deduplication, redeem-outcome classification, structured per-event log
//! assembly, and notification payload construction.
//!
//! All network, gateway and terminal I/O lives outside this library; the
//! functions here take plain values (statuses, timestamps, resolved names)
//! and return plain values, with contracts describing exactly what they do.

pub mod decimal;
pub mod discord;
pub mod logging;
pub mod webhook;
