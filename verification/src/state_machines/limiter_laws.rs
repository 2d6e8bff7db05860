//! What the two limiters and the floor guard are for, poll by poll.
use crate::model::{some_covers, BatteryMode, DeviceType, InverterSnapshot};
use crate::plain::{less, no_more, put, slot_open, three_phase_block};
use crate::quantity::Quantity;
use crate::registers::RegisterWrite;
use crate::state_machines::floor::{
    floor_step, reserve_write, DischargeFloorConfig, DischargeFloorState,
};
use crate::state_machines::limiter::{
    heat_step, load_step, pause_writes, LimiterStep, LoadLimiterConfig, LoadLimiterSaved,
    LoadLimiterState, TemperatureLimiterConfig, TemperatureLimiterState,
};
use vstd::prelude::*;

verus! {

/// Eco with the given reserve: power mode 1, discharge disarmed, and the reserve
/// in the register that the model has for it.
pub open spec fn eco_with_reserve(device_type: DeviceType, reserve: int) -> Seq<RegisterWrite> {
    if three_phase_block(device_type) {
        seq![put(27, 1), put(59, 0), put(1122, 0), put(1109, reserve)]
    } else {
        seq![put(27, 1), put(59, 0), put(110, reserve)]
    }
}

/// The reserve that a pause gives back: the saved one, or 4 %.
pub open spec fn reserve_before(saved: Option<LoadLimiterSaved>) -> int {
    match saved {
        Some(s) => s.reserve as int,
        None => 4,
    }
}

/// What is saved when a pause begins: what is saved already, else the reserve in
/// force if it is 4 to 99 %.
pub open spec fn saved_at_pause(saved: Option<LoadLimiterSaved>, reserve: u8) -> Option<
    LoadLimiterSaved,
> {
    match saved {
        Some(s) => Some(s),
        None => if 4 <= reserve && reserve <= 99 {
            Some(LoadLimiterSaved { reserve: reserve as u16 })
        } else {
            None
        },
    }
}

/// Pausing and resuming write Eco with a reserve.
pub proof fn law_pause_writes_eco_with_a_reserve(device_type: DeviceType, reserve: u16)
    ensures
        pause_writes(device_type, reserve) =~= eco_with_reserve(device_type, reserve as int),
{
}

/// Whether the load limiter is on duty: always with both times 00:00, from the
/// start up to the end on the same day, and else from the start on and before
/// the end.
pub open spec fn on_duty(config: LoadLimiterConfig, now: int) -> bool {
    let start = 60 * config.start_hour + config.start_minute;
    let end = 60 * config.end_hour + config.end_minute;
    config.enabled && if start == 0 && end == 0 {
        true
    } else if start < end {
        start <= now && now < end
    } else {
        start <= now || now < end
    }
}

/// Whether so many polls make up the delay.
pub open spec fn long_enough(config: LoadLimiterConfig, interval: int, polls: int) -> bool {
    if interval == 0 {
        polls >= config.trigger_delay_minutes
    } else {
        polls * interval >= config.trigger_delay_minutes * 60
    }
}

proof fn lemma_long_enough(config: LoadLimiterConfig, interval: int, polls: int)
    requires
        interval >= 0,
    ensures
        long_enough(config, interval, polls) <==> polls >= config.delay_polls(interval),
{
    if interval > 0 {
        let need = config.trigger_delay_minutes * 60;
        let delay = (need + interval - 1) / interval;
        vstd::arithmetic::div_mod::lemma_fundamental_div_mod(need + interval - 1, interval);
        let rest = (need + interval - 1) % interval;
        assert(need + interval - 1 == interval * delay + rest);
        assert(0 <= rest < interval);
        if polls >= delay {
            assert(polls * interval >= delay * interval) by (nonlinear_arith)
                requires
                    polls >= delay,
                    interval > 0,
            ;
            assert(delay * interval == interval * delay) by (nonlinear_arith);
        } else {
            assert(polls * interval <= (delay - 1) * interval) by (nonlinear_arith)
                requires
                    polls <= delay - 1,
                    interval > 0,
            ;
            assert((delay - 1) * interval == interval * delay - interval) by (nonlinear_arith);
        }
    }
}

/// Whether a step leaves everything as it was but for the state.
pub open spec fn only_state<S>(
    step: LimiterStep<S>,
    state: S,
    saved: Option<LoadLimiterSaved>,
) -> bool {
    step.state == state && step.saved == saved && step.writes is None
}

/// Off duty the load limiter holds nothing back: a pause of its own ends at once
/// with the reserve from before, unless another limiter still wants it, and any
/// count is dropped.
pub proof fn law_load_limiter_off_duty(
    snap: InverterSnapshot,
    config: LoadLimiterConfig,
    state: LoadLimiterState,
    interval: int,
    saved: Option<LoadLimiterSaved>,
    now: int,
    other_active: bool,
)
    requires
        !on_duty(config, now),
    ensures
        ({
            let step = load_step(snap, config, state, interval, saved, now, other_active);
            let pausing = state is Paused || state is PausedFromRestart || state is LowLoadPending;
            if pausing && !other_active {
                &&& step.state is Idle
                &&& step.saved is None
                &&& step.writes is Some
                &&& step.writes->0 =~= eco_with_reserve(snap.device_type, reserve_before(saved))
            } else {
                only_state(step, LoadLimiterState::Idle, saved)
            }
        }),
{
}

/// On duty a load above the threshold is counted, and pauses discharge once the
/// count makes up the delay, at the second reading at the earliest. The reserve
/// in force is saved first. Where another limiter pauses already, nothing is
/// written. A load that is not above the threshold ends the count.
pub proof fn law_load_limiter_pauses(
    snap: InverterSnapshot,
    config: LoadLimiterConfig,
    consecutive: u32,
    interval: int,
    saved: Option<LoadLimiterSaved>,
    now: int,
    other_active: bool,
)
    requires
        on_duty(config, now),
        interval >= 0,
        consecutive < u32::MAX,
    ensures
        only_state(
            load_step(
                snap,
                config,
                LoadLimiterState::Idle,
                interval,
                saved,
                now,
                other_active,
            ),
            if snap.home_power > config.threshold_w {
                LoadLimiterState::HighLoadPending { consecutive: 1 }
            } else {
                LoadLimiterState::Idle
            },
            saved,
        ),
        ({
            let step = load_step(
                snap,
                config,
                LoadLimiterState::HighLoadPending { consecutive },
                interval,
                saved,
                now,
                other_active,
            );
            if snap.home_power <= config.threshold_w {
                only_state(step, LoadLimiterState::Idle, saved)
            } else if !long_enough(config, interval, consecutive + 1) {
                only_state(
                    step,
                    LoadLimiterState::HighLoadPending { consecutive: (consecutive + 1) as u32 },
                    saved,
                )
            } else {
                &&& step.state is Paused
                &&& step.saved == saved_at_pause(saved, snap.battery_reserve)
                &&& if other_active {
                    step.writes is None
                } else {
                    step.writes is Some && step.writes->0 =~= eco_with_reserve(
                        snap.device_type,
                        100,
                    )
                }
            }
        }),
{
    lemma_long_enough(config, interval, consecutive + 1);
}

/// On duty a pause lasts while the load is above the threshold, and is written
/// again where the battery is not paused. A load that is not above it is
/// counted, and ends the pause once the count makes up the delay: with the
/// reserve from before, or in silence where another limiter wants the pause.
pub proof fn law_load_limiter_resumes(
    snap: InverterSnapshot,
    config: LoadLimiterConfig,
    consecutive: u32,
    interval: int,
    saved: Option<LoadLimiterSaved>,
    now: int,
    other_active: bool,
)
    requires
        on_duty(config, now),
        interval >= 0,
        consecutive < u32::MAX,
    ensures
        ({
            let step = load_step(
                snap,
                config,
                LoadLimiterState::Paused,
                interval,
                saved,
                now,
                other_active,
            );
            if snap.home_power <= config.threshold_w {
                only_state(step, LoadLimiterState::LowLoadPending { consecutive: 1 }, saved)
            } else if snap.battery_mode == BatteryMode::EcoPaused {
                only_state(step, LoadLimiterState::Paused, saved)
            } else {
                &&& step.state is Paused
                &&& step.saved == saved
                &&& step.writes is Some
                &&& step.writes->0 =~= eco_with_reserve(snap.device_type, 100)
            }
        }),
        ({
            let step = load_step(
                snap,
                config,
                LoadLimiterState::LowLoadPending { consecutive },
                interval,
                saved,
                now,
                other_active,
            );
            if snap.home_power > config.threshold_w {
                only_state(step, LoadLimiterState::Paused, saved)
            } else if !long_enough(config, interval, consecutive + 1) {
                only_state(
                    step,
                    LoadLimiterState::LowLoadPending { consecutive: (consecutive + 1) as u32 },
                    saved,
                )
            } else if other_active {
                only_state(step, LoadLimiterState::Idle, saved)
            } else {
                &&& step.state is Idle
                &&& step.saved is None
                &&& step.writes is Some
                &&& step.writes->0 =~= eco_with_reserve(snap.device_type, reserve_before(saved))
            }
        }),
{
    lemma_long_enough(config, interval, consecutive + 1);
}

/// On duty a pause from before a restart is over when Eco is read back. Until
/// then a high load makes it an ordinary pause, and any other load ends it
/// without a delay: by writing the reserve from before, poll after poll, or by
/// leaving it to another limiter.
pub proof fn law_load_limiter_after_restart(
    snap: InverterSnapshot,
    config: LoadLimiterConfig,
    interval: int,
    saved: Option<LoadLimiterSaved>,
    now: int,
    other_active: bool,
)
    requires
        on_duty(config, now),
    ensures
        ({
            let step = load_step(
                snap,
                config,
                LoadLimiterState::PausedFromRestart,
                interval,
                saved,
                now,
                other_active,
            );
            if snap.battery_mode == BatteryMode::Eco {
                only_state(
                    step,
                    LoadLimiterState::Idle,
                    if other_active {
                        saved
                    } else {
                        None
                    },
                )
            } else if snap.home_power > config.threshold_w {
                &&& step.state is Paused
                &&& step.saved == saved
                &&& if snap.battery_mode == BatteryMode::EcoPaused {
                    step.writes is None
                } else {
                    step.writes is Some && step.writes->0 =~= eco_with_reserve(
                        snap.device_type,
                        100,
                    )
                }
            } else if other_active {
                only_state(step, LoadLimiterState::Idle, saved)
            } else {
                &&& step.state is PausedFromRestart
                &&& step.saved == saved
                &&& step.writes is Some
                &&& step.writes->0 =~= eco_with_reserve(snap.device_type, reserve_before(saved))
            }
        }),
{
}

/// The thermal pause is written again where the battery is not paused, or where
/// it is asked for.
pub open spec fn pause_upheld(
    step: LimiterStep<TemperatureLimiterState>,
    state: TemperatureLimiterState,
    snap: InverterSnapshot,
    saved: Option<LoadLimiterSaved>,
    reassert_pause: bool,
) -> bool {
    &&& step.state == state
    &&& step.saved == saved
    &&& if reassert_pause || snap.battery_mode != BatteryMode::EcoPaused {
        step.writes is Some && step.writes->0 =~= eco_with_reserve(snap.device_type, 100)
    } else {
        step.writes is None
    }
}

/// The thermal pause ends: in silence where another limiter wants it, and else
/// by writing the reserve from before until Eco is read back.
pub open spec fn pause_handed_back(
    step: LimiterStep<TemperatureLimiterState>,
    snap: InverterSnapshot,
    saved: Option<LoadLimiterSaved>,
    other_active: bool,
) -> bool {
    if other_active {
        only_state(step, TemperatureLimiterState::Idle, saved)
    } else {
        &&& step.state is PausedFromRestart
        &&& step.saved == saved
        &&& step.writes is Some
        &&& step.writes->0 =~= eco_with_reserve(snap.device_type, reserve_before(saved))
    }
}

/// Switched off, the temperature limiter hands a pause of its own back, and is
/// idle once Eco is read back.
pub proof fn law_heat_limiter_switched_off(
    snap: InverterSnapshot,
    config: TemperatureLimiterConfig,
    state: TemperatureLimiterState,
    saved: Option<LoadLimiterSaved>,
    other_active: bool,
    reassert_pause: bool,
)
    requires
        !config.enabled,
    ensures
        ({
            let step = heat_step(snap, config, state, saved, other_active, reassert_pause);
            if state is Idle || state is HighPending {
                only_state(step, TemperatureLimiterState::Idle, saved)
            } else if state is PausedFromRestart && snap.battery_mode == BatteryMode::Eco
                && !other_active {
                only_state(step, TemperatureLimiterState::Idle, None)
            } else {
                pause_handed_back(step, snap, saved, other_active)
            }
        }),
{
}

/// Readings at or above the high threshold are counted and pause discharge when
/// there are as many as asked for; the reserve in force is saved first. Any
/// other reading ends the count.
pub proof fn law_heat_limiter_pauses(
    snap: InverterSnapshot,
    config: TemperatureLimiterConfig,
    consecutive: u32,
    saved: Option<LoadLimiterSaved>,
    other_active: bool,
    reassert_pause: bool,
)
    requires
        config.enabled,
        snap.inverter_temperature is Nano,
        consecutive < u32::MAX,
    ensures
        ({
            let idle = heat_step(
                snap,
                config,
                TemperatureLimiterState::Idle,
                saved,
                other_active,
                reassert_pause,
            );
            let counting = heat_step(
                snap,
                config,
                TemperatureLimiterState::HighPending { consecutive },
                saved,
                other_active,
                reassert_pause,
            );
            if !no_more(config.high_threshold, snap.inverter_temperature) {
                &&& only_state(idle, TemperatureLimiterState::Idle, saved)
                &&& only_state(counting, TemperatureLimiterState::Idle, saved)
            } else {
                &&& if config.confirmation_readings == 1 {
                    &&& idle.state is Paused
                    &&& idle.saved == saved_at_pause(saved, snap.battery_reserve)
                    &&& idle.writes is Some
                    &&& idle.writes->0 =~= eco_with_reserve(snap.device_type, 100)
                } else {
                    only_state(
                        idle,
                        TemperatureLimiterState::HighPending { consecutive: 1 },
                        saved,
                    )
                }
                &&& if consecutive + 1 >= config.confirmation_readings {
                    &&& counting.state is Paused
                    &&& counting.saved == saved_at_pause(saved, snap.battery_reserve)
                    &&& counting.writes is Some
                    &&& counting.writes->0 =~= eco_with_reserve(snap.device_type, 100)
                } else {
                    only_state(
                        counting,
                        TemperatureLimiterState::HighPending {
                            consecutive: (consecutive + 1) as u32,
                        },
                        saved,
                    )
                }
            }
        }),
{
}

/// A thermal pause is upheld until as many readings as asked for were at or
/// below the recovery threshold; any other reading ends that count. Then it is
/// handed back.
pub proof fn law_heat_limiter_resumes(
    snap: InverterSnapshot,
    config: TemperatureLimiterConfig,
    consecutive: u32,
    saved: Option<LoadLimiterSaved>,
    other_active: bool,
    reassert_pause: bool,
)
    requires
        config.enabled,
        snap.inverter_temperature is Nano,
        consecutive < u32::MAX,
    ensures
        ({
            let cool = no_more(snap.inverter_temperature, config.recovery_threshold);
            let paused = heat_step(
                snap,
                config,
                TemperatureLimiterState::Paused,
                saved,
                other_active,
                reassert_pause,
            );
            let cooling = heat_step(
                snap,
                config,
                TemperatureLimiterState::CoolingPending { consecutive },
                saved,
                other_active,
                reassert_pause,
            );
            if !cool {
                &&& pause_upheld(
                    paused,
                    TemperatureLimiterState::Paused,
                    snap,
                    saved,
                    reassert_pause,
                )
                &&& pause_upheld(
                    cooling,
                    TemperatureLimiterState::Paused,
                    snap,
                    saved,
                    reassert_pause,
                )
            } else {
                &&& if config.confirmation_readings == 1 {
                    pause_handed_back(paused, snap, saved, other_active)
                } else {
                    pause_upheld(
                        paused,
                        TemperatureLimiterState::CoolingPending { consecutive: 1 },
                        snap,
                        saved,
                        reassert_pause,
                    )
                }
                &&& if consecutive + 1 >= config.confirmation_readings {
                    pause_handed_back(cooling, snap, saved, other_active)
                } else {
                    pause_upheld(
                        cooling,
                        TemperatureLimiterState::CoolingPending {
                            consecutive: (consecutive + 1) as u32,
                        },
                        snap,
                        saved,
                        reassert_pause,
                    )
                }
            }
        }),
{
}

/// A pause that is being handed back, or comes from before a restart, goes on as
/// an ordinary one while the inverter is not cool. On a cool one it is left to
/// another limiter, over when Eco is read back, and else handed back again.
pub proof fn law_heat_limiter_after_restart(
    snap: InverterSnapshot,
    config: TemperatureLimiterConfig,
    saved: Option<LoadLimiterSaved>,
    other_active: bool,
    reassert_pause: bool,
)
    requires
        config.enabled,
        snap.inverter_temperature is Nano,
    ensures
        ({
            let step = heat_step(
                snap,
                config,
                TemperatureLimiterState::PausedFromRestart,
                saved,
                other_active,
                reassert_pause,
            );
            if !no_more(snap.inverter_temperature, config.recovery_threshold) {
                pause_upheld(
                    step,
                    TemperatureLimiterState::Paused,
                    snap,
                    saved,
                    reassert_pause,
                )
            } else if !other_active && snap.battery_mode == BatteryMode::Eco {
                only_state(step, TemperatureLimiterState::Idle, None)
            } else {
                pause_handed_back(step, snap, saved, other_active)
            }
        }),
{
}

/// Degrees in billionths.
pub open spec fn degrees(n: int) -> Quantity {
    Quantity::Nano((n * 1_000_000_000) as i64)
}

/// A temperature configuration is accepted exactly with a high threshold of 30
/// to 90 degrees, a recovery threshold of 20 to less than 90 degrees and below
/// the high one, and 1 to 30 readings.
pub proof fn law_heat_configuration_is_accepted(config: TemperatureLimiterConfig)
    ensures
        config.fault() is None <==> {
            &&& no_more(degrees(30), config.high_threshold)
            &&& no_more(config.high_threshold, degrees(90))
            &&& no_more(degrees(20), config.recovery_threshold)
            &&& less(config.recovery_threshold, degrees(90))
            &&& less(config.recovery_threshold, config.high_threshold)
            &&& 1 <= config.confirmation_readings <= 30
        },
{
}

/// The guard takes the floor where it is enabled, a discharge slot is open and
/// the reserve is below the floor. It keeps it while a slot is open, writing it
/// again over a lower reserve, and gives the earlier reserve back otherwise.
pub proof fn law_floor_follows_the_slots(
    snap: InverterSnapshot,
    config: DischargeFloorConfig,
    state: DischargeFloorState,
    now: int,
)
    ensures
        ({
            let open = exists|i: int|
                0 <= i < 10 && slot_open(#[trigger] snap.discharge_slots@[i], now);
            let floor = if snap.battery_reserve < config.floor_soc {
                Some(config.floor_soc as u16)
            } else {
                None
            };
            floor_step(snap, config, state, now) == match state {
                DischargeFloorState::Idle => if config.enabled && open && floor is Some {
                    (
                        DischargeFloorState::FloorHeld {
                            saved_reserve: snap.battery_reserve as u16,
                        },
                        floor,
                    )
                } else {
                    (DischargeFloorState::Idle, None)
                },
                DischargeFloorState::FloorHeld { saved_reserve }
                | DischargeFloorState::HeldFromRestart { saved_reserve } => if config.enabled
                    && open {
                    (DischargeFloorState::FloorHeld { saved_reserve }, floor)
                } else {
                    (DischargeFloorState::Idle, Some(saved_reserve))
                },
            }
        }),
{
    let held = snap.discharge_slots@;
    assert(held.len() == 10);
    assert forall|i: int| 0 <= i < held.len() implies slot_open(#[trigger] held[i], now)
        == held[i].covers(now) by {}
    if some_covers(held, now) {
        let i = choose|i: int| 0 <= i < held.len() && (#[trigger] held[i]).covers(now);
        assert(slot_open(held[i], now));
    }
}

/// The reserve is written to register 1109 on models of the three-phase block
/// and to register 110 on all others.
pub proof fn law_reserve_register(device_type: DeviceType, reserve: u16)
    ensures
        reserve_write(device_type, reserve) == if three_phase_block(device_type) {
            put(1109, reserve as int)
        } else {
            put(110, reserve as int)
        },
{
}

} // verus!
