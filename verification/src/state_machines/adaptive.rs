//! Adaptive Charge: a charge rate that follows the time of day and the state of
//! charge.
use crate::model::{
    clock_minutes, daily_window, in_daily_window, three_phase_family, DeviceType, InverterSnapshot,
};
use crate::registers::{
    setting, RegisterWrite, HR_3PH_BATTERY_CHARGE_LIMIT, HR_AC_BATTERY_CHARGE_LIMIT,
    HR_BATTERY_CHARGE_LIMIT,
};
use crate::settings::{AdaptiveChargeConfig, AdaptiveChargePeriod, AdaptiveChargeSavedLimit};
use vstd::prelude::*;

verus! {

/// State of the controller.
#[derive(Clone, Debug, PartialEq, Eq)]
pub enum AdaptiveChargeState {
    /// Not in control.
    Inactive,
    /// The limit to return to was read once.
    BaselinePending { raw_value: u16 },
    /// Enabled, outside every period.
    OutsideWindow,
    /// Inside a period, at its preferred rate.
    Preferred { period: usize, low_count: u32 },
    /// Inside a period, at its recovery rate.
    Recovery { period: usize, high_count: u32 },
    /// Auto-winter is in control.
    SuspendedAutoWinter { restore_pending: bool },
    /// The limit to return to was written and is not yet read back.
    Restoring,
    Error { message: String },
}

/// The mathematical state of the controller.
pub enum AdaptivePhase {
    Inactive,
    BaselinePending { raw_value: u16 },
    OutsideWindow,
    Preferred { period: usize, low_count: u32 },
    Recovery { period: usize, high_count: u32 },
    SuspendedAutoWinter { restore_pending: bool },
    Restoring,
    Error { message: Seq<char> },
}

impl View for AdaptiveChargeState {
    type V = AdaptivePhase;

    open spec fn view(&self) -> AdaptivePhase {
        match *self {
            AdaptiveChargeState::Inactive => AdaptivePhase::Inactive,
            AdaptiveChargeState::BaselinePending { raw_value } => AdaptivePhase::BaselinePending {
                raw_value,
            },
            AdaptiveChargeState::OutsideWindow => AdaptivePhase::OutsideWindow,
            AdaptiveChargeState::Preferred { period, low_count } => AdaptivePhase::Preferred {
                period,
                low_count,
            },
            AdaptiveChargeState::Recovery { period, high_count } => AdaptivePhase::Recovery {
                period,
                high_count,
            },
            AdaptiveChargeState::SuspendedAutoWinter {
                restore_pending,
            } => AdaptivePhase::SuspendedAutoWinter { restore_pending },
            AdaptiveChargeState::Restoring => AdaptivePhase::Restoring,
            AdaptiveChargeState::Error { message } => AdaptivePhase::Error { message: message@ },
        }
    }
}

impl AdaptivePhase {
    /// Whether the confirmation counter has room to grow.
    pub open spec fn can_count(self) -> bool {
        match self {
            AdaptivePhase::Preferred { low_count, .. } => low_count < u32::MAX,
            AdaptivePhase::Recovery { high_count, .. } => high_count < u32::MAX,
            _ => true,
        }
    }
}

impl Default for AdaptiveChargeState {
    fn default() -> (r: AdaptiveChargeState)
        ensures
            r@ == AdaptivePhase::Inactive,
    {
        AdaptiveChargeState::Inactive
    }
}

impl AdaptiveChargeState {
    /// The name of the state in the API.
    pub fn api_name(&self) -> (r: &'static str)
        ensures
            r@ == match self@ {
                AdaptivePhase::Inactive => "inactive"@,
                AdaptivePhase::BaselinePending { .. } => "baseline_pending"@,
                AdaptivePhase::OutsideWindow => "outside_window"@,
                AdaptivePhase::Preferred { .. } => "preferred"@,
                AdaptivePhase::Recovery { .. } => "recovery"@,
                AdaptivePhase::SuspendedAutoWinter { .. } => "suspended_auto_winter"@,
                AdaptivePhase::Restoring => "restoring"@,
                AdaptivePhase::Error { .. } => "error"@,
            },
    {
        match self {
            AdaptiveChargeState::Inactive => "inactive",
            AdaptiveChargeState::BaselinePending { .. } => "baseline_pending",
            AdaptiveChargeState::OutsideWindow => "outside_window",
            AdaptiveChargeState::Preferred { .. } => "preferred",
            AdaptiveChargeState::Recovery { .. } => "recovery",
            AdaptiveChargeState::SuspendedAutoWinter { .. } => "suspended_auto_winter",
            AdaptiveChargeState::Restoring => "restoring",
            AdaptiveChargeState::Error { .. } => "error",
        }
    }

    /// The number of the period in control, counted from 1 and kept to 8 bits.
    pub fn active_period(&self) -> (r: Option<u8>)
        requires
            match self@ {
                AdaptivePhase::Preferred { period, .. } | AdaptivePhase::Recovery {
                    period,
                    ..
                } => period < usize::MAX,
                _ => true,
            },
        ensures
            r == match self@ {
                AdaptivePhase::Preferred { period, .. } | AdaptivePhase::Recovery {
                    period,
                    ..
                } => Some(((period + 1) % 256) as u8),
                _ => None,
            },
    {
        match self {
            AdaptiveChargeState::Preferred { period, .. } | AdaptiveChargeState::Recovery {
                period,
                ..
            } => Some(((*period + 1) % 256) as u8),
            _ => None,
        }
    }
}

/// What the controller decided.
#[derive(Clone, Copy, Debug, PartialEq, Eq, Structural)]
pub struct AdaptiveChargeOutcome {
    /// The charge limit to write.
    pub write: Option<RegisterWrite>,
    /// The rate (%) that the controller wants.
    pub desired_rate_percent: Option<u8>,
}

/// The mathematical form of a saved limit.
pub struct SavedLimit {
    pub inverter_serial: Seq<char>,
    pub device_type_code: Seq<char>,
    pub register_address: u16,
    pub raw_value: u16,
}

impl View for AdaptiveChargeSavedLimit {
    type V = SavedLimit;

    open spec fn view(&self) -> SavedLimit {
        SavedLimit {
            inverter_serial: self.inverter_serial@,
            device_type_code: self.device_type_code@,
            register_address: self.register_address,
            raw_value: self.raw_value,
        }
    }
}

/// The saved limit, if there is one.
pub open spec fn saved_view(saved: Option<AdaptiveChargeSavedLimit>) -> Option<SavedLimit> {
    match saved {
        Some(s) => Some(s@),
        None => None,
    }
}

/// The register of the charge limit; `None` on models without a battery to
/// limit.
pub open spec fn charge_register(device_type: DeviceType) -> Option<u16> {
    if three_phase_family(device_type) {
        Some(HR_3PH_BATTERY_CHARGE_LIMIT)
    } else {
        match device_type {
            DeviceType::ACCoupled | DeviceType::ACCoupledMk2 => Some(HR_AC_BATTERY_CHARGE_LIMIT),
            DeviceType::PvInverter
            | DeviceType::Ems
            | DeviceType::EmsCommercial
            | DeviceType::Gateway
            | DeviceType::Unknown(_) => None,
            _ => Some(HR_BATTERY_CHARGE_LIMIT),
        }
    }
}

/// Whether the register counts in steps of two percent, 0 to 50.
pub open spec fn half_steps(device_type: DeviceType) -> bool {
    charge_register(device_type) == Some(HR_BATTERY_CHARGE_LIMIT)
}

/// The register value of a rate: steps of two percent rounded up, or the
/// percentage itself, never zero.
pub open spec fn rate_to_raw(device_type: DeviceType, percent: u8) -> u16 {
    if half_steps(device_type) {
        if (percent + 1) / 2 > 50 {
            50
        } else {
            ((percent + 1) / 2) as u16
        }
    } else if percent < 1 {
        1
    } else if percent > 100 {
        100
    } else {
        percent as u16
    }
}

/// The rate of a register value, no more than 100 %.
pub open spec fn raw_to_rate(device_type: DeviceType, raw: u16) -> u8 {
    let rate = if half_steps(device_type) {
        raw * 2
    } else {
        raw as int
    };
    if rate > 100 {
        100
    } else {
        rate as u8
    }
}

/// Whether the register can hold the value.
pub open spec fn raw_valid(device_type: DeviceType, raw: u16) -> bool {
    charge_register(device_type) is Some && if half_steps(device_type) {
        raw <= 50
    } else {
        1 <= raw <= 100
    }
}

/// Whether a period is enabled and contains the minute.
pub open spec fn period_active(period: AdaptiveChargePeriod, now: int) -> bool {
    period.enabled && (period.all_day || daily_window(
        clock_minutes(period.start_hour, period.start_minute),
        clock_minutes(period.end_hour, period.end_minute),
        now,
    ))
}

/// The first active period at or after `from`.
pub open spec fn first_active(periods: Seq<AdaptiveChargePeriod>, now: int, from: int) -> Option<
    int,
>
    decreases periods.len() - from,
{
    if from >= periods.len() {
        None
    } else if period_active(periods[from], now) {
        Some(from)
    } else {
        first_active(periods, now, from + 1)
    }
}

/// Whether a saved limit was taken on another inverter or register.
pub open spec fn foreign(saved: SavedLimit, snap: InverterSnapshot) -> bool {
    saved.inverter_serial != snap.inverter_serial@ || saved.device_type_code
        != snap.device_type_code@ || Some(saved.register_address) != charge_register(
        snap.device_type,
    )
}

/// The limit in force, as it would be saved.
pub open spec fn observed_limit(snap: InverterSnapshot) -> SavedLimit {
    SavedLimit {
        inverter_serial: snap.inverter_serial@,
        device_type_code: snap.device_type_code@,
        register_address: charge_register(snap.device_type)->0,
        raw_value: snap.charge_rate as u16,
    }
}

/// The mathematical decision.
pub struct AdaptiveStep {
    pub phase: AdaptivePhase,
    pub saved: Option<SavedLimit>,
    pub write: Option<RegisterWrite>,
    pub desired: Option<u8>,
}

/// A step that wants nothing.
pub open spec fn idle(phase: AdaptivePhase, saved: Option<SavedLimit>) -> AdaptiveStep {
    AdaptiveStep { phase, saved, write: None, desired: None }
}

/// A step that reports an error.
pub open spec fn failed(message: Seq<char>, saved: Option<SavedLimit>) -> AdaptiveStep {
    idle(AdaptivePhase::Error { message }, saved)
}

/// A step that writes the saved limit back.
pub open spec fn restore(phase: AdaptivePhase, saved: SavedLimit, snap: InverterSnapshot) -> AdaptiveStep {
    AdaptiveStep {
        phase,
        saved: Some(saved),
        write: Some(setting(charge_register(snap.device_type)->0, saved.raw_value)),
        desired: Some(raw_to_rate(snap.device_type, saved.raw_value)),
    }
}

/// The step while disabled: the saved limit is written back and forgotten once
/// it is read back.
pub open spec fn disabled_step(snap: InverterSnapshot, saved: Option<SavedLimit>) -> AdaptiveStep {
    match saved {
        None => idle(AdaptivePhase::Inactive, None),
        Some(base) => if foreign(base, snap) {
            failed("Saved charge limit belongs to a different inverter"@, saved)
        } else if !raw_valid(snap.device_type, base.raw_value) {
            failed("Saved charge limit is outside this inverter's valid range"@, saved)
        } else if snap.charge_rate == base.raw_value {
            idle(AdaptivePhase::Inactive, None)
        } else {
            restore(AdaptivePhase::Restoring, base, snap)
        },
    }
}

/// The phase inside a period, and so the rate: a low state of charge starts the
/// recovery, a recovered one ends it, each when it has been read often enough.
pub open spec fn rate_phase(
    phase: AdaptivePhase,
    index: usize,
    period: AdaptiveChargePeriod,
    soc: u8,
    confirmations: int,
) -> AdaptivePhase {
    match phase {
        AdaptivePhase::Recovery { period: current, high_count } if current == index => {
            let count = if soc >= period.recovery_soc {
                high_count + 1
            } else {
                0
            };
            if count >= confirmations {
                AdaptivePhase::Preferred { period: index, low_count: 0 }
            } else {
                AdaptivePhase::Recovery { period: index, high_count: count as u32 }
            }
        },
        AdaptivePhase::Preferred { period: current, low_count } if current == index => {
            let count = if soc <= period.low_soc {
                low_count + 1
            } else {
                0
            };
            if count >= confirmations {
                AdaptivePhase::Recovery { period: index, high_count: 0 }
            } else {
                AdaptivePhase::Preferred { period: index, low_count: count as u32 }
            }
        },
        _ => if soc <= period.low_soc {
            AdaptivePhase::Recovery { period: index, high_count: 0 }
        } else {
            AdaptivePhase::Preferred { period: index, low_count: 0 }
        },
    }
}

/// How many readings confirm a change of rate.
pub open spec fn confirmations(config: AdaptiveChargeConfig) -> int {
    if config.confirmation_readings < 1 {
        1
    } else {
        config.confirmation_readings as int
    }
}

/// The step outside every period: the controller returns what it took, and
/// otherwise follows what the user set.
pub open spec fn outside_step(snap: InverterSnapshot, phase: AdaptivePhase, base: SavedLimit) -> AdaptiveStep {
    let owned = phase is Preferred || phase is Recovery || phase is Restoring;
    if owned && snap.charge_rate != base.raw_value {
        restore(AdaptivePhase::Restoring, base, snap)
    } else {
        AdaptiveStep {
            phase: AdaptivePhase::OutsideWindow,
            saved: Some(SavedLimit { raw_value: snap.charge_rate as u16, ..base }),
            write: None,
            desired: Some(raw_to_rate(snap.device_type, snap.charge_rate as u16)),
        }
    }
}

/// The step inside the period at `index`.
pub open spec fn period_step(
    snap: InverterSnapshot,
    config: AdaptiveChargeConfig,
    phase: AdaptivePhase,
    base: SavedLimit,
    index: usize,
) -> AdaptiveStep {
    let period = config.periods@[index as int];
    let next = rate_phase(phase, index, period, snap.soc, confirmations(config));
    let percent = if next is Recovery {
        period.recovery_rate_percent
    } else {
        period.preferred_rate_percent
    };
    let raw = rate_to_raw(snap.device_type, percent);
    AdaptiveStep {
        phase: next,
        saved: Some(base),
        write: if snap.charge_rate != raw {
            Some(setting(charge_register(snap.device_type)->0, raw))
        } else {
            None
        },
        desired: Some(percent),
    }
}

/// The step with a limit to return to.
pub open spec fn owned_step(
    snap: InverterSnapshot,
    config: AdaptiveChargeConfig,
    phase: AdaptivePhase,
    base: SavedLimit,
    now: int,
) -> AdaptiveStep {
    if foreign(base, snap) {
        failed("Saved charge limit belongs to a different inverter"@, Some(base))
    } else if !raw_valid(snap.device_type, base.raw_value) {
        failed("Saved charge limit is outside this inverter's valid range"@, Some(base))
    } else if snap.auto_winter_active {
        let pending = match phase {
            AdaptivePhase::SuspendedAutoWinter { restore_pending } => restore_pending,
            _ => true,
        };
        if pending && snap.charge_rate != base.raw_value {
            restore(AdaptivePhase::SuspendedAutoWinter { restore_pending: true }, base, snap)
        } else {
            idle(AdaptivePhase::SuspendedAutoWinter { restore_pending: false }, Some(base))
        }
    } else {
        match first_active(config.periods@, now, 0) {
            None => outside_step(snap, phase, base),
            Some(index) => period_step(snap, config, phase, base, index as usize),
        }
    }
}

/// The step while enabled: a limit to return to is captured once it has been
/// read twice.
pub open spec fn enabled_step(
    snap: InverterSnapshot,
    config: AdaptiveChargeConfig,
    config_error: Option<Seq<char>>,
    phase: AdaptivePhase,
    saved: Option<SavedLimit>,
    now: int,
) -> AdaptiveStep {
    match config_error {
        Some(message) => failed(message, saved),
        None => if !raw_valid(snap.device_type, snap.charge_rate as u16) {
            idle(
                if saved is None {
                    AdaptivePhase::Inactive
                } else {
                    phase
                },
                saved,
            )
        } else {
            match saved {
                None => if phase == (AdaptivePhase::BaselinePending {
                    raw_value: snap.charge_rate as u16,
                }) {
                    owned_step(snap, config, phase, observed_limit(snap), now)
                } else {
                    idle(
                        AdaptivePhase::BaselinePending { raw_value: snap.charge_rate as u16 },
                        None,
                    )
                },
                Some(base) => owned_step(snap, config, phase, base, now),
            }
        },
    }
}

/// One poll of the controller.
pub open spec fn adaptive_step(
    snap: InverterSnapshot,
    config: AdaptiveChargeConfig,
    config_error: Option<Seq<char>>,
    enabled: bool,
    phase: AdaptivePhase,
    saved: Option<SavedLimit>,
    now: int,
) -> AdaptiveStep {
    if charge_register(snap.device_type) is None {
        failed("Adaptive Charge is not supported by this inverter"@, saved)
    } else if !enabled {
        disabled_step(snap, saved)
    } else {
        enabled_step(snap, config, config_error, phase, saved, now)
    }
}

/// The register of the charge limit on models that have one.
pub fn adaptive_charge_register(device_type: DeviceType) -> (r: Option<u16>)
    ensures
        r == charge_register(device_type),
{
    if device_type.uses_three_phase_schedule_slots() {
        return Some(HR_3PH_BATTERY_CHARGE_LIMIT);
    }
    match device_type {
        DeviceType::ACCoupled | DeviceType::ACCoupledMk2 => Some(HR_AC_BATTERY_CHARGE_LIMIT),
        DeviceType::PvInverter
        | DeviceType::Ems
        | DeviceType::EmsCommercial
        | DeviceType::Gateway
        | DeviceType::Unknown(_) => None,
        _ => Some(HR_BATTERY_CHARGE_LIMIT),
    }
}

/// The register value of a rate in percent.
pub fn normalized_charge_rate_to_raw(device_type: DeviceType, percent: u8) -> (r: Option<u16>)
    ensures
        r == if charge_register(device_type) is Some {
            Some(rate_to_raw(device_type, percent))
        } else {
            None
        },
{
    match adaptive_charge_register(device_type) {
        None => None,
        Some(register) => if register == HR_BATTERY_CHARGE_LIMIT {
            let steps: u16 = (percent as u16 + 1) / 2;
            Some(if steps > 50 {
                50
            } else {
                steps
            })
        } else if percent < 1 {
            Some(1)
        } else if percent > 100 {
            Some(100)
        } else {
            Some(percent as u16)
        },
    }
}

/// The rate in percent of a register value.
pub fn raw_charge_rate_to_normalized(device_type: DeviceType, raw: u16) -> (r: u8)
    ensures
        r == raw_to_rate(device_type, raw),
{
    let doubled: bool = match adaptive_charge_register(device_type) {
        Some(register) => register == HR_BATTERY_CHARGE_LIMIT,
        None => false,
    };
    let rate: u32 = if doubled { raw as u32 * 2 } else { raw as u32 };
    if rate > 100 {
        100
    } else {
        rate as u8
    }
}

/// Whether the model's register can hold the value.
pub fn observed_charge_rate_is_valid(device_type: DeviceType, raw: u16) -> (r: bool)
    ensures
        r == raw_valid(device_type, raw),
{
    match adaptive_charge_register(device_type) {
        Some(register) => if register == HR_BATTERY_CHARGE_LIMIT {
            raw <= 50
        } else {
            raw >= 1 && raw <= 100
        },
        None => false,
    }
}

/// The first period that is enabled and contains the minute.
pub fn adaptive_period_at(config: &AdaptiveChargeConfig, now_minutes: u16) -> (r: Option<usize>)
    ensures
        match first_active(config.periods@, now_minutes as int, 0) {
            Some(index) => r is Some && r->0 == index && index < config.periods.len(),
            None => r is None,
        },
{
    let mut i: usize = 0;
    while i < config.periods.len()
        invariant
            i <= config.periods.len(),
            first_active(config.periods@, now_minutes as int, 0) == first_active(
                config.periods@,
                now_minutes as int,
                i as int,
            ),
        decreases config.periods.len() - i,
    {
        let period: AdaptiveChargePeriod = config.periods[i];
        if period.enabled && (period.all_day || in_daily_window(
            period.start_hour as u16 * 60 + period.start_minute as u16,
            period.end_hour as u16 * 60 + period.end_minute as u16,
            now_minutes,
        )) {
            return Some(i);
        }
        i += 1;
    }
    None
}

/// Whether a saved limit was taken on another inverter or register.
fn is_foreign(saved: &AdaptiveChargeSavedLimit, snap: &InverterSnapshot, register: u16) -> (r: bool)
    requires
        charge_register(snap.device_type) == Some(register),
    ensures
        r == foreign(saved@, *snap),
{
    saved.inverter_serial != snap.inverter_serial || saved.device_type_code != snap.device_type_code
        || saved.register_address != register
}

fn no_action() -> (r: AdaptiveChargeOutcome)
    ensures
        r == (AdaptiveChargeOutcome { write: None, desired_rate_percent: None }),
{
    AdaptiveChargeOutcome { write: None, desired_rate_percent: None }
}

fn write_back(device_type: DeviceType, register: u16, raw_value: u16) -> (r: AdaptiveChargeOutcome)
    ensures
        r.write == Some(setting(register, raw_value)),
        r.desired_rate_percent == Some(raw_to_rate(device_type, raw_value)),
{
    AdaptiveChargeOutcome {
        write: Some(RegisterWrite { address: register, value: raw_value }),
        desired_rate_percent: Some(raw_charge_rate_to_normalized(device_type, raw_value)),
    }
}

/// What a decision and the values it leaves amount to.
pub open spec fn decided(
    outcome: AdaptiveChargeOutcome,
    state: AdaptiveChargeState,
    saved: Option<AdaptiveChargeSavedLimit>,
) -> AdaptiveStep {
    AdaptiveStep {
        phase: state@,
        saved: saved_view(saved),
        write: outcome.write,
        desired: outcome.desired_rate_percent,
    }
}

fn restore_when_disabled(
    snap: &InverterSnapshot,
    register: u16,
    state: &mut AdaptiveChargeState,
    saved: &mut Option<AdaptiveChargeSavedLimit>,
) -> (r: AdaptiveChargeOutcome)
    requires
        charge_register(snap.device_type) == Some(register),
    ensures
        decided(r, *final(state), *final(saved)) == disabled_step(*snap, saved_view(*old(saved))),
{
    let (alien, raw_value): (bool, u16) = match saved {
        None => {
            *state = AdaptiveChargeState::Inactive;
            return no_action();
        },
        Some(base) => (is_foreign(base, snap, register), base.raw_value),
    };
    if alien {
        *state = AdaptiveChargeState::Error {
            message: "Saved charge limit belongs to a different inverter".to_owned(),
        };
        return no_action();
    }
    if !observed_charge_rate_is_valid(snap.device_type, raw_value) {
        *state = AdaptiveChargeState::Error {
            message: "Saved charge limit is outside this inverter's valid range".to_owned(),
        };
        return no_action();
    }
    if snap.charge_rate as u16 == raw_value {
        *saved = None;
        *state = AdaptiveChargeState::Inactive;
        return no_action();
    }
    *state = AdaptiveChargeState::Restoring;
    write_back(snap.device_type, register, raw_value)
}

/// The phase inside a period; returns whether it is the recovery.
fn advance_rate(
    state: &mut AdaptiveChargeState,
    index: usize,
    period: &AdaptiveChargePeriod,
    soc: u8,
    confirmation_readings: u32,
) -> (r: bool)
    requires
        old(state)@.can_count(),
        confirmation_readings >= 1,
    ensures
        final(state)@ == rate_phase(
            old(state)@,
            index,
            *period,
            soc,
            confirmation_readings as int,
        ),
        r == (final(state)@ is Recovery),
{
    match *state {
        AdaptiveChargeState::Recovery { period: current, high_count } if current == index => {
            let count: u32 = if soc >= period.recovery_soc { high_count + 1 } else { 0 };
            if count >= confirmation_readings {
                *state = AdaptiveChargeState::Preferred { period: index, low_count: 0 };
                false
            } else {
                *state = AdaptiveChargeState::Recovery { period: index, high_count: count };
                true
            }
        },
        AdaptiveChargeState::Preferred { period: current, low_count } if current == index => {
            let count: u32 = if soc <= period.low_soc { low_count + 1 } else { 0 };
            if count >= confirmation_readings {
                *state = AdaptiveChargeState::Recovery { period: index, high_count: 0 };
                true
            } else {
                *state = AdaptiveChargeState::Preferred { period: index, low_count: count };
                false
            }
        },
        _ => {
            if soc <= period.low_soc {
                *state = AdaptiveChargeState::Recovery { period: index, high_count: 0 };
                true
            } else {
                *state = AdaptiveChargeState::Preferred { period: index, low_count: 0 };
                false
            }
        },
    }
}

/// The decision with a limit to return to.
fn control_rate(
    snap: &InverterSnapshot,
    config: &AdaptiveChargeConfig,
    register: u16,
    state: &mut AdaptiveChargeState,
    saved: &mut Option<AdaptiveChargeSavedLimit>,
    now_minutes: u16,
) -> (r: AdaptiveChargeOutcome)
    requires
        charge_register(snap.device_type) == Some(register),
        *old(saved) is Some,
        old(state)@.can_count(),
    ensures
        decided(r, *final(state), *final(saved)) == owned_step(
            *snap,
            *config,
            old(state)@,
            (*old(saved))->0@,
            now_minutes as int,
        ),
{
    let (alien, raw_value): (bool, u16) = match saved {
        None => (true, 0),
        Some(base) => (is_foreign(base, snap, register), base.raw_value),
    };
    if alien {
        *state = AdaptiveChargeState::Error {
            message: "Saved charge limit belongs to a different inverter".to_owned(),
        };
        return no_action();
    }
    if !observed_charge_rate_is_valid(snap.device_type, raw_value) {
        *state = AdaptiveChargeState::Error {
            message: "Saved charge limit is outside this inverter's valid range".to_owned(),
        };
        return no_action();
    }
    let observed: u16 = snap.charge_rate as u16;
    if snap.auto_winter_active {
        let pending: bool = match *state {
            AdaptiveChargeState::SuspendedAutoWinter { restore_pending } => restore_pending,
            _ => true,
        };
        if pending && observed != raw_value {
            *state = AdaptiveChargeState::SuspendedAutoWinter { restore_pending: true };
            return write_back(snap.device_type, register, raw_value);
        }
        *state = AdaptiveChargeState::SuspendedAutoWinter { restore_pending: false };
        return no_action();
    }
    match adaptive_period_at(config, now_minutes) {
        None => {
            let owned: bool = matches!(
                state,
                AdaptiveChargeState::Preferred { .. }
                    | AdaptiveChargeState::Recovery { .. }
                    | AdaptiveChargeState::Restoring
            );
            if owned && observed != raw_value {
                *state = AdaptiveChargeState::Restoring;
                return write_back(snap.device_type, register, raw_value);
            }
            if let Some(base) = saved {
                base.raw_value = observed;
            }
            *state = AdaptiveChargeState::OutsideWindow;
            AdaptiveChargeOutcome {
                write: None,
                desired_rate_percent: Some(
                    raw_charge_rate_to_normalized(snap.device_type, observed),
                ),
            }
        },
        Some(index) => {
            let period: AdaptiveChargePeriod = config.periods[index];
            let needed: u32 = if config.confirmation_readings < 1 {
                1
            } else {
                config.confirmation_readings
            };
            let recovery: bool = advance_rate(state, index, &period, snap.soc, needed);
            let percent: u8 = if recovery {
                period.recovery_rate_percent
            } else {
                period.preferred_rate_percent
            };
            let raw: u16 = match normalized_charge_rate_to_raw(snap.device_type, percent) {
                Some(raw) => raw,
                None => 0,
            };
            AdaptiveChargeOutcome {
                write: if observed != raw {
                    Some(RegisterWrite { address: register, value: raw })
                } else {
                    None
                },
                desired_rate_percent: Some(percent),
            }
        },
    }
}

/// Evaluates Adaptive Charge: at most one write of the charge limit.
///
/// `config_error` is what the settings found wrong with `config`, if anything.
/// `saved` is the limit to return to. It is captured when the controller takes
/// over and kept until the return was read back after the mode was disabled.
pub fn check_adaptive_charge(
    snap: &InverterSnapshot,
    config: &AdaptiveChargeConfig,
    config_error: Option<String>,
    enabled: bool,
    state: &mut AdaptiveChargeState,
    saved: &mut Option<AdaptiveChargeSavedLimit>,
    now_minutes: u16,
) -> (r: AdaptiveChargeOutcome)
    requires
        old(state)@.can_count(),
    ensures
        decided(r, *final(state), *final(saved)) == adaptive_step(
            *snap,
            *config,
            match config_error {
                Some(m) => Some(m@),
                None => None,
            },
            enabled,
            old(state)@,
            saved_view(*old(saved)),
            now_minutes as int,
        ),
{
    let register: u16 = match adaptive_charge_register(snap.device_type) {
        Some(register) => register,
        None => {
            *state = AdaptiveChargeState::Error {
                message: "Adaptive Charge is not supported by this inverter".to_owned(),
            };
            return no_action();
        },
    };
    if !enabled {
        return restore_when_disabled(snap, register, state, saved);
    }
    if let Some(message) = config_error {
        *state = AdaptiveChargeState::Error { message };
        return no_action();
    }
    let observed: u16 = snap.charge_rate as u16;
    if !observed_charge_rate_is_valid(snap.device_type, observed) {
        if saved.is_none() {
            *state = AdaptiveChargeState::Inactive;
        }
        return no_action();
    }
    if saved.is_none() {
        let stable: bool = match *state {
            AdaptiveChargeState::BaselinePending { raw_value } => raw_value == observed,
            _ => false,
        };
        if !stable {
            *state = AdaptiveChargeState::BaselinePending { raw_value: observed };
            return no_action();
        }
        *saved = Some(
            AdaptiveChargeSavedLimit {
                inverter_serial: snap.inverter_serial.clone(),
                device_type_code: snap.device_type_code.clone(),
                register_address: register,
                raw_value: observed,
            },
        );
    }
    control_rate(snap, config, register, state, saved, now_minutes)
}

} // verus!
