//! What Adaptive Charge is for, poll by poll.
use crate::model::{DeviceType, InverterSnapshot};
use crate::plain::put;
use crate::settings::{AdaptiveChargeConfig, AdaptiveChargePeriod};
use crate::state_machines::adaptive::{
    adaptive_step, charge_register, first_active, period_active, rate_to_raw, raw_to_rate,
    raw_valid, AdaptivePhase, AdaptiveStep, SavedLimit,
};
use vstd::prelude::*;

verus! {

/// The register of the charge limit: 1110 on models of the three-phase block,
/// 313 on AC-coupled ones, none on plants, plain PV inverters and unknown models,
/// and 111 on all others.
pub open spec fn limit_register(device_type: DeviceType) -> Option<u16> {
    match device_type {
        DeviceType::ThreePhase
        | DeviceType::ACThreePhase
        | DeviceType::AioCommercial
        | DeviceType::HybridHvGen3
        | DeviceType::AllInOneHybrid => Some(1110),
        DeviceType::ACCoupled | DeviceType::ACCoupledMk2 => Some(313),
        DeviceType::Gen2Hybrid
        | DeviceType::Gen3Hybrid
        | DeviceType::AllInOne6kW
        | DeviceType::AllInOne3_6kW
        | DeviceType::AllInOne5kW => Some(111),
        _ => None,
    }
}

/// Whether a register can hold a limit: 0 to 50 in register 111, 1 to 100 in the
/// others.
pub open spec fn holds_limit(register: u16, raw: int) -> bool {
    if register == 111 {
        0 <= raw <= 50
    } else {
        1 <= raw <= 100
    }
}

/// What a limit in a register means in percent.
pub open spec fn limit_percent(register: u16, raw: int) -> int {
    let percent = if register == 111 {
        2 * raw
    } else {
        raw
    };
    if percent > 100 {
        100
    } else {
        percent
    }
}

/// Each model has the register, the range and the meaning of limits above.
pub proof fn law_charge_limits_of_models(device_type: DeviceType, raw: u16)
    ensures
        charge_register(device_type) == limit_register(device_type),
        limit_register(device_type) matches Some(register) ==> {
            &&& raw_valid(device_type, raw) <==> holds_limit(register, raw as int)
            &&& raw_to_rate(device_type, raw) == limit_percent(register, raw as int)
        },
        limit_register(device_type) is None ==> !raw_valid(device_type, raw),
{
}

/// The limit written for a rate is one that the register holds, and the smallest
/// that gives at least the rate, taken as 1 to 100 % where the register counts
/// single percents and as at most 100 % where it counts double ones.
pub proof fn law_rate_written_is_the_smallest_that_suffices(device_type: DeviceType, percent: u8)
    requires
        limit_register(device_type) is Some,
    ensures
        ({
            let register = limit_register(device_type)->0;
            let raw = rate_to_raw(device_type, percent) as int;
            let asked = if percent > 100 {
                100
            } else {
                percent as int
            };
            &&& holds_limit(register, raw)
            &&& limit_percent(register, raw) >= asked
            &&& holds_limit(register, raw - 1) ==> limit_percent(register, raw - 1) < asked
        }),
{
}

/// Whether a period is enabled and on at a minute of the day: all day, from its
/// start up to its end on the same day, or else from its start on and before its
/// end.
pub open spec fn period_on(period: AdaptiveChargePeriod, now: int) -> bool {
    let start = 60 * period.start_hour + period.start_minute;
    let end = 60 * period.end_hour + period.end_minute;
    period.enabled && if period.all_day {
        true
    } else if start < end {
        start <= now && now < end
    } else {
        start <= now || now < end
    }
}

/// Whether the period at `index` is the first that is on.
pub open spec fn first_on(periods: Seq<AdaptiveChargePeriod>, now: int, index: int) -> bool {
    &&& 0 <= index < periods.len()
    &&& period_on(periods[index], now)
    &&& forall|i: int| 0 <= i < index ==> !period_on(#[trigger] periods[i], now)
}

/// Whether no period is on.
pub open spec fn none_on(periods: Seq<AdaptiveChargePeriod>, now: int) -> bool {
    forall|i: int| 0 <= i < periods.len() ==> !period_on(#[trigger] periods[i], now)
}

proof fn lemma_first_active(periods: Seq<AdaptiveChargePeriod>, now: int, from: int)
    requires
        0 <= from <= periods.len(),
        forall|i: int| 0 <= i < from ==> !period_on(#[trigger] periods[i], now),
    ensures
        match first_active(periods, now, from) {
            Some(index) => first_on(periods, now, index),
            None => none_on(periods, now),
        },
    decreases periods.len() - from,
{
    if from < periods.len() {
        assert(period_on(periods[from], now) == period_active(periods[from], now));
        if !period_active(periods[from], now) {
            lemma_first_active(periods, now, from + 1);
        }
    }
}

/// The period in control is the first that is on, and there is none exactly
/// where none is on.
pub proof fn law_first_period_that_is_on_controls(
    periods: Seq<AdaptiveChargePeriod>,
    now: int,
    index: int,
)
    ensures
        first_active(periods, now, 0) == Some(index) <==> first_on(periods, now, index),
        first_active(periods, now, 0) is None <==> none_on(periods, now),
{
    lemma_first_active(periods, now, 0);
    if let Some(found) = first_active(periods, now, 0) {
        if first_on(periods, now, index) && found < index {
            assert(!period_on(periods[found], now));
        }
        if first_on(periods, now, index) && index < found {
            assert(!period_on(periods[index], now));
        }
        if none_on(periods, now) {
            assert(!period_on(periods[found], now));
        }
    } else {
        if first_on(periods, now, index) {
            assert(!period_on(periods[index], now));
        }
    }
}

/// Whether a saved limit is this inverter's and one that its register holds.
pub open spec fn usable(saved: SavedLimit, snap: InverterSnapshot) -> bool {
    &&& limit_register(snap.device_type) == Some(saved.register_address)
    &&& saved.inverter_serial == snap.inverter_serial@
    &&& saved.device_type_code == snap.device_type_code@
    &&& holds_limit(saved.register_address, saved.raw_value as int)
}

/// Whether the controller is at work: enabled, without a fault in its
/// configuration, with a limit that the register can hold in force, and with a
/// usable limit to return to.
pub open spec fn at_work(
    snap: InverterSnapshot,
    config_error: Option<Seq<char>>,
    saved: SavedLimit,
) -> bool {
    &&& config_error is None
    &&& usable(saved, snap)
    &&& holds_limit(saved.register_address, snap.charge_rate as int)
}

/// The readings that a change of rate takes: as many as configured, and one at
/// least.
pub open spec fn readings_needed(config: AdaptiveChargeConfig) -> int {
    if config.confirmation_readings == 0 {
        1
    } else {
        config.confirmation_readings as int
    }
}

/// The first period that is on decides by its own thresholds, and its own rates
/// are used. A state of charge at or below its low threshold starts the
/// recovery, one at or above its recovery threshold ends it, each when it was
/// read as often as needed in a row; a period that is new to the controller
/// starts at once.
#[verifier::rlimit(60)]
pub proof fn law_period_sets_the_rate(
    snap: InverterSnapshot,
    config: AdaptiveChargeConfig,
    config_error: Option<Seq<char>>,
    phase: AdaptivePhase,
    saved: SavedLimit,
    now: int,
    index: usize,
)
    requires
        at_work(snap, config_error, saved),
        !snap.auto_winter_active,
        first_on(config.periods@, now, index as int),
        phase.can_count(),
    ensures
        ({
            let period = config.periods@[index as int];
            let step = adaptive_step(snap, config, config_error, true, phase, Some(saved), now);
            let low = snap.soc <= period.low_soc;
            let recovered = snap.soc >= period.recovery_soc;
            let needed = readings_needed(config);
            let next = match phase {
                AdaptivePhase::Preferred { period: of, low_count } if of == index => if low {
                    if low_count + 1 >= needed {
                        AdaptivePhase::Recovery { period: index, high_count: 0 }
                    } else {
                        AdaptivePhase::Preferred {
                            period: index,
                            low_count: (low_count + 1) as u32,
                        }
                    }
                } else {
                    AdaptivePhase::Preferred { period: index, low_count: 0 }
                },
                AdaptivePhase::Recovery { period: of, high_count } if of == index => if recovered {
                    if high_count + 1 >= needed {
                        AdaptivePhase::Preferred { period: index, low_count: 0 }
                    } else {
                        AdaptivePhase::Recovery {
                            period: index,
                            high_count: (high_count + 1) as u32,
                        }
                    }
                } else {
                    AdaptivePhase::Recovery { period: index, high_count: 0 }
                },
                _ => if low {
                    AdaptivePhase::Recovery { period: index, high_count: 0 }
                } else {
                    AdaptivePhase::Preferred { period: index, low_count: 0 }
                },
            };
            let percent = if next is Recovery {
                period.recovery_rate_percent
            } else {
                period.preferred_rate_percent
            };
            &&& step.phase == next
            &&& step.saved == Some(saved)
            &&& step.desired == Some(percent)
            &&& if snap.charge_rate == rate_to_raw(snap.device_type, percent) {
                step.write is None
            } else {
                step.write == Some(
                    put(
                        saved.register_address as int,
                        rate_to_raw(snap.device_type, percent) as int,
                    ),
                )
            }
        }),
{
    law_charge_limits_of_models(snap.device_type, snap.charge_rate as u16);
    law_charge_limits_of_models(snap.device_type, saved.raw_value);
    law_first_period_that_is_on_controls(config.periods@, now, index as int);
}

/// Periods other than the one in control play no part: whatever they say, the
/// decision is the same.
pub proof fn law_other_periods_play_no_part(
    snap: InverterSnapshot,
    one: AdaptiveChargeConfig,
    other: AdaptiveChargeConfig,
    config_error: Option<Seq<char>>,
    enabled: bool,
    phase: AdaptivePhase,
    saved: Option<SavedLimit>,
    now: int,
    index: usize,
)
    requires
        one.confirmation_readings == other.confirmation_readings,
        first_on(one.periods@, now, index as int),
        first_on(other.periods@, now, index as int),
        one.periods@[index as int] == other.periods@[index as int],
    ensures
        adaptive_step(snap, one, config_error, enabled, phase, saved, now) == adaptive_step(
            snap,
            other,
            config_error,
            enabled,
            phase,
            saved,
            now,
        ),
{
    law_first_period_that_is_on_controls(one.periods@, now, index as int);
    law_first_period_that_is_on_controls(other.periods@, now, index as int);
}

/// Whether a step writes the saved limit back and wants its rate.
pub open spec fn returns_limit(step: AdaptiveStep, phase: AdaptivePhase, saved: SavedLimit) -> bool {
    &&& step.phase == phase
    &&& step.saved == Some(saved)
    &&& step.write == Some(put(saved.register_address as int, saved.raw_value as int))
    &&& step.desired is Some
    &&& step.desired->0 == limit_percent(saved.register_address, saved.raw_value as int)
}

/// Whether a step wants nothing.
pub open spec fn wants_nothing(
    step: AdaptiveStep,
    phase: AdaptivePhase,
    saved: Option<SavedLimit>,
) -> bool {
    step.phase == phase && step.saved == saved && step.write is None && step.desired is None
}

/// Outside every period a limit that the controller set is returned until it is
/// read back. A limit that somebody else set is taken over as the one to return
/// to, and left alone.
pub proof fn law_outside_periods_the_limit_is_the_users(
    snap: InverterSnapshot,
    config: AdaptiveChargeConfig,
    config_error: Option<Seq<char>>,
    phase: AdaptivePhase,
    saved: SavedLimit,
    now: int,
)
    requires
        at_work(snap, config_error, saved),
        !snap.auto_winter_active,
        none_on(config.periods@, now),
    ensures
        ({
            let step = adaptive_step(snap, config, config_error, true, phase, Some(saved), now);
            let ours = phase is Preferred || phase is Recovery || phase is Restoring;
            if ours && snap.charge_rate != saved.raw_value {
                returns_limit(step, AdaptivePhase::Restoring, saved)
            } else {
                &&& step.phase is OutsideWindow
                &&& step.saved == Some(SavedLimit { raw_value: snap.charge_rate as u16, ..saved })
                &&& step.write is None
                &&& step.desired is Some
                &&& step.desired->0 == limit_percent(
                    saved.register_address,
                    snap.charge_rate as int,
                )
            }
        }),
{
    law_charge_limits_of_models(snap.device_type, snap.charge_rate as u16);
    law_charge_limits_of_models(snap.device_type, saved.raw_value);
    law_first_period_that_is_on_controls(config.periods@, now, 0);
}

/// While auto-winter is active the limit is returned once and then left alone.
pub proof fn law_winter_suspends_the_controller(
    snap: InverterSnapshot,
    config: AdaptiveChargeConfig,
    config_error: Option<Seq<char>>,
    phase: AdaptivePhase,
    saved: SavedLimit,
    now: int,
)
    requires
        at_work(snap, config_error, saved),
        snap.auto_winter_active,
    ensures
        ({
            let step = adaptive_step(snap, config, config_error, true, phase, Some(saved), now);
            let done = phase == (AdaptivePhase::SuspendedAutoWinter { restore_pending: false });
            if !done && snap.charge_rate != saved.raw_value {
                returns_limit(
                    step,
                    AdaptivePhase::SuspendedAutoWinter { restore_pending: true },
                    saved,
                )
            } else {
                wants_nothing(
                    step,
                    AdaptivePhase::SuspendedAutoWinter { restore_pending: false },
                    Some(saved),
                )
            }
        }),
{
    law_charge_limits_of_models(snap.device_type, snap.charge_rate as u16);
    law_charge_limits_of_models(snap.device_type, saved.raw_value);
}

/// Without a limit to return to, one that the register can hold is noted first,
/// and taken when it is read again: from then on the controller is at work with
/// it. One that the register cannot hold is ignored.
pub proof fn law_limit_is_taken_on_its_second_reading(
    snap: InverterSnapshot,
    config: AdaptiveChargeConfig,
    phase: AdaptivePhase,
    now: int,
)
    requires
        limit_register(snap.device_type) is Some,
    ensures
        ({
            let register = limit_register(snap.device_type)->0;
            let step = adaptive_step(snap, config, None, true, phase, None, now);
            let noted = AdaptivePhase::BaselinePending { raw_value: snap.charge_rate as u16 };
            if !holds_limit(register, snap.charge_rate as int) {
                wants_nothing(step, AdaptivePhase::Inactive, None)
            } else if phase != noted {
                wants_nothing(step, noted, None)
            } else {
                step == adaptive_step(
                    snap,
                    config,
                    None,
                    true,
                    phase,
                    Some(
                        SavedLimit {
                            inverter_serial: snap.inverter_serial@,
                            device_type_code: snap.device_type_code@,
                            register_address: register,
                            raw_value: snap.charge_rate as u16,
                        },
                    ),
                    now,
                )
            }
        }),
{
    law_charge_limits_of_models(snap.device_type, snap.charge_rate as u16);
}

/// A limit in force that the register cannot hold changes nothing once there is
/// a limit to return to.
pub proof fn law_impossible_limit_changes_nothing(
    snap: InverterSnapshot,
    config: AdaptiveChargeConfig,
    phase: AdaptivePhase,
    saved: SavedLimit,
    now: int,
)
    requires
        limit_register(snap.device_type) is Some,
        !holds_limit(limit_register(snap.device_type)->0, snap.charge_rate as int),
    ensures
        wants_nothing(
            adaptive_step(snap, config, None, true, phase, Some(saved), now),
            phase,
            Some(saved),
        ),
{
    law_charge_limits_of_models(snap.device_type, snap.charge_rate as u16);
}

/// What is wrong is reported, and nothing is written or forgotten: a model
/// without a charge limit, a fault in the configuration of an enabled
/// controller, and a saved limit of another inverter or out of range.
#[verifier::rlimit(60)]
pub proof fn law_adaptive_faults(
    snap: InverterSnapshot,
    config: AdaptiveChargeConfig,
    config_error: Option<Seq<char>>,
    enabled: bool,
    phase: AdaptivePhase,
    saved: Option<SavedLimit>,
    now: int,
)
    ensures
        ({
            let step = adaptive_step(snap, config, config_error, enabled, phase, saved, now);
            let register = limit_register(snap.device_type);
            let ready = !enabled || config_error is None && holds_limit(
                register->0,
                snap.charge_rate as int,
            );
            if register is None {
                wants_nothing(
                    step,
                    AdaptivePhase::Error {
                        message: "Adaptive Charge is not supported by this inverter"@,
                    },
                    saved,
                )
            } else if enabled && config_error is Some {
                wants_nothing(step, AdaptivePhase::Error { message: config_error->0 }, saved)
            } else if ready && saved is Some {
                let limit = saved->0;
                if limit.inverter_serial != snap.inverter_serial@ || limit.device_type_code
                    != snap.device_type_code@ || limit.register_address != register->0 {
                    wants_nothing(
                        step,
                        AdaptivePhase::Error {
                            message: "Saved charge limit belongs to a different inverter"@,
                        },
                        saved,
                    )
                } else if !holds_limit(limit.register_address, limit.raw_value as int) {
                    wants_nothing(
                        step,
                        AdaptivePhase::Error {
                            message: "Saved charge limit is outside this inverter's valid range"@,
                        },
                        saved,
                    )
                } else {
                    true
                }
            } else {
                true
            }
        }),
{
    law_charge_limits_of_models(snap.device_type, snap.charge_rate as u16);
    if let Some(limit) = saved {
        law_charge_limits_of_models(snap.device_type, limit.raw_value);
    }
}

/// Switched off, the controller returns a usable limit until it is read back and
/// then forgets it; without one it is inactive.
pub proof fn law_switched_off_controller_returns_the_limit(
    snap: InverterSnapshot,
    config: AdaptiveChargeConfig,
    config_error: Option<Seq<char>>,
    phase: AdaptivePhase,
    saved: Option<SavedLimit>,
    now: int,
)
    requires
        limit_register(snap.device_type) is Some,
        saved is Some ==> usable(saved->0, snap),
    ensures
        ({
            let step = adaptive_step(snap, config, config_error, false, phase, saved, now);
            if saved is Some && snap.charge_rate != saved->0.raw_value {
                returns_limit(step, AdaptivePhase::Restoring, saved->0)
            } else {
                wants_nothing(step, AdaptivePhase::Inactive, None)
            }
        }),
{
    law_charge_limits_of_models(snap.device_type, snap.charge_rate as u16);
    if let Some(limit) = saved {
        law_charge_limits_of_models(snap.device_type, limit.raw_value);
    }
}

} // verus!
