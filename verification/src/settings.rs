//! The settings that the automations read.
use vstd::prelude::*;

verus! {

/// One daily period of the adaptive charge controller.
#[derive(Clone, Copy, Debug, PartialEq, Eq, Structural)]
pub struct AdaptiveChargePeriod {
    pub enabled: bool,
    pub all_day: bool,
    pub start_hour: u8,
    pub start_minute: u8,
    pub end_hour: u8,
    pub end_minute: u8,
    /// At or below this state of charge the recovery rate takes over.
    pub low_soc: u8,
    /// At or above this state of charge the preferred rate returns.
    pub recovery_soc: u8,
    pub preferred_rate_percent: u8,
    pub recovery_rate_percent: u8,
}

/// Configuration of the adaptive charge controller.
#[derive(Clone, Debug)]
pub struct AdaptiveChargeConfig {
    pub periods: Vec<AdaptiveChargePeriod>,
    /// Consecutive readings that confirm a change of rate.
    pub confirmation_readings: u32,
}

/// The charge limit that was in force before the controller took over.
#[derive(Clone, Debug)]
pub struct AdaptiveChargeSavedLimit {
    pub inverter_serial: String,
    pub device_type_code: String,
    pub register_address: u16,
    pub raw_value: u16,
}

/// A charge slot of the Cosy tariff.
#[derive(Clone, Copy, Debug, PartialEq, Eq, Structural)]
pub struct CosySlot {
    pub enabled: bool,
    pub start_hour: u8,
    pub start_minute: u8,
    pub end_hour: u8,
    pub end_minute: u8,
    pub target_soc: u8,
}

/// Which side of the battery the Agile automation may drive.
#[derive(Clone, Copy, Debug, PartialEq, Eq, Structural)]
pub enum AgileScope {
    Off,
    Full,
    ChargeOnly,
    DischargeOnly,
}

impl AgileScope {
    /// Whether the automation may charge.
    pub fn owns_charge(self) -> (r: bool)
        ensures
            r == (self is Full || self is ChargeOnly),
    {
        matches!(self, AgileScope::Full | AgileScope::ChargeOnly)
    }

    /// Whether the automation may discharge.
    pub fn owns_discharge(self) -> (r: bool)
        ensures
            r == (self is Full || self is DischargeOnly),
    {
        matches!(self, AgileScope::Full | AgileScope::DischargeOnly)
    }
}

} // verus!
