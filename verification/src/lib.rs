//! Decision logic of a home-energy manager for GivEnergy inverters.
//!
//! The library turns decoded inverter readings into trusted snapshots and
//! register writes. It performs no I/O: callers hand it plain values and carry
//! out the writes it returns.
pub mod clock;
pub mod counts;
pub mod model;
pub mod ordering;
pub mod page;
pub mod plain;
pub mod quantity;
pub mod sanitizer;
pub mod registers;
pub mod settings;
pub mod text;
pub mod text_laws;
pub mod startup;
pub mod state_machines;
pub mod wall_clock;
