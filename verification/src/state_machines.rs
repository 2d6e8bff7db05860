//! The automations: what each decides from a snapshot and its own state, and
//! the register writes that carry the decision out.
//!
//! None of them performs I/O. The poll loop evaluates them, issues the writes
//! and reports back how the writes went.
pub mod adaptive;
pub mod adaptive_laws;
pub mod agile;
pub mod control;
pub mod cosy;
pub mod export;
pub mod export_laws;
pub mod export_writes;
pub mod floor;
pub mod issue;
pub mod laws;
pub mod limiter;
pub mod limiter_laws;
pub mod rearm;
pub mod tariff_laws;
pub mod winter;
pub mod winter_laws;
