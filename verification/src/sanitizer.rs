//! Defence against corrupted register values.
//!
//! The data adapter of the inverter returns corrupted registers often enough,
//! above all right after a connect, that no reading is trusted on its own:
//!
//! - [`fingerprint`] recognises whole blocks that hold leaked adapter memory.
//! - [`grace`] takes the median of the readings after a connect.
//! - [`carry_forward`] keeps values whose register block was not read.
//! - [`bms`] derives and validates battery-management data.
//! - [`power`], [`balance`] and [`energy`] judge single readings against
//!   absolute limits, against each other and against the previous snapshot.
pub mod balance;
pub mod bms;
pub mod carry_forward;
pub mod carry_laws;
pub mod clock;
pub mod energy;
pub mod fingerprint;
pub mod grace;
pub mod invariants;
pub mod laws;
pub mod meter_laws;
pub mod meters;
pub mod power;
pub mod reading_laws;
pub mod readings;
pub mod slots;
pub mod snapshot;
