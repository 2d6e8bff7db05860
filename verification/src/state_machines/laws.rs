//! What holds of the automations as a whole.
use crate::model::{
    daily_window, discharge_slot_limit, three_phase_family, BatteryMode, DeviceType,
    InverterSnapshot, ScheduleSlot,
};
use crate::registers::{
    setting, RegisterWrite, HR_BATTERY_POWER_MODE, HR_ENABLE_CHARGE, HR_ENABLE_CHARGE_TARGET,
    HR_ENABLE_DISCHARGE,
};
use crate::state_machines::cosy::cosy_writes;
use crate::state_machines::issue::{batch_run, law_batch_stops_at_first_rejection};
use crate::state_machines::adaptive::{
    adaptive_step, charge_register, foreign, rate_to_raw, raw_to_rate, raw_valid, AdaptivePhase,
    SavedLimit,
};
use crate::settings::{AdaptiveChargeConfig, CosySlot};
use crate::state_machines::export::{
    entry_writes, exit_writes, export_step, ExportInputs, ExportPhase, TimedExportConfig,
    TimedExportWriteOutcome, TIMED_EXPORT_MAX_WRITE_RETRIES,
};
use crate::state_machines::export_writes::{
    clear_slots, compensate_slots, discharge_enable, discharge_enable_register, prior_target,
    prior_times, restorable, restore_slots, slot_register, slot_times,
};
use crate::state_machines::floor::{floor_step, DischargeFloorConfig, DischargeFloorState};
use crate::state_machines::limiter::{
    captured, heat_step, load_step, pause_writes, reserve_to_restore, LoadLimiterConfig,
    LoadLimiterSaved, LoadLimiterState, TemperatureLimiterConfig, TemperatureLimiterState,
};
use crate::state_machines::winter::{
    restoration, target_writes, winter_step, AutoWinterConfig, AutoWinterSaved,
    AutoWinterWriteOutcome, WinterPhase,
};
use vstd::prelude::*;

verus! {

/// A stopped schedule, or one without windows, never exports: from every state
/// the machine issues nothing or the writes that leave export, and it ends up
/// off, leaving, or reporting that leaving failed.
pub proof fn law_stopped_schedule_never_exports(inputs: ExportInputs, phase: ExportPhase)
    requires
        !inputs.scheduled,
    ensures
        ({
            let step = export_step(inputs, phase);
            &&& step.writes.len() == 0 || step.writes == inputs.leave
            &&& step.phase is Off || step.phase is Exiting || step.phase is Error
        }),
{
}

/// Once the registers read Eco, a stopped schedule is off and silent whatever
/// the state was.
pub proof fn law_stop_settles_in_eco(inputs: ExportInputs, phase: ExportPhase)
    requires
        !inputs.scheduled,
        inputs.eco,
    ensures
        export_step(inputs, phase).phase == ExportPhase::Off,
        export_step(inputs, phase).writes.len() == 0,
{
}

/// Export is entered only inside a window of an enabled schedule, and never
/// while discharge is paused: then the machine issues nothing or the writes that
/// leave export.
pub proof fn law_entry_only_inside_a_window(inputs: ExportInputs, phase: ExportPhase)
    requires
        inputs.entry != inputs.leave,
        inputs.entry.len() > 0,
    ensures
        export_step(inputs, phase).writes == inputs.entry ==> inputs.scheduled && inputs.in_window
            && !inputs.paused,
        inputs.paused ==> export_step(inputs, phase).writes.len() == 0 || export_step(
            inputs,
            phase,
        ).writes == inputs.leave,
{
    let step = export_step(inputs, phase);
    assert(Seq::<RegisterWrite>::empty().len() == 0);
}

/// The machine issues the entry writes, the exit writes or nothing, and marks
/// exactly the exit writes as disarming.
pub proof fn law_every_batch_is_entry_or_exit(inputs: ExportInputs, phase: ExportPhase)
    ensures
        ({
            let step = export_step(inputs, phase);
            if step.exit {
                step.writes == inputs.leave && step.phase is Exiting
            } else {
                step.writes.len() == 0 || (step.writes == inputs.entry && step.phase is Entering)
            }
        }),
{
}

/// The machine claims to export only on what the registers read back, inside a
/// window that is not paused or at the end of an entry.
pub proof fn law_active_is_read_back(inputs: ExportInputs, phase: ExportPhase)
    ensures
        export_step(inputs, phase).phase is Active ==> inputs.scheduled && inputs.exporting && (
        phase is Entering || phase is Active && inputs.in_window && !inputs.paused),
{
}

/// A running export ends with its window.
pub proof fn law_window_end_disarms(inputs: ExportInputs)
    requires
        inputs.scheduled,
        !inputs.in_window,
    ensures
        export_step(inputs, ExportPhase::Active).writes == inputs.leave,
        export_step(inputs, ExportPhase::Active).phase is Exiting,
{
}

/// While a re-arm of the firmware is being watched for, a machine at rest
/// outside its windows does not disarm.
pub proof fn law_observation_holds_repairs(inputs: ExportInputs, phase: ExportPhase)
    requires
        inputs.observing,
        !inputs.in_window,
        phase is Off || phase is Configured,
    ensures
        export_step(inputs, phase).writes.len() == 0,
{
}

/// A populated slot without a schedule of ours belongs to another controller:
/// unless we left a stop unfinished, nothing is written.
pub proof fn law_foreign_slots_are_left_alone(inputs: ExportInputs, phase: ExportPhase)
    requires
        !inputs.scheduled,
        inputs.slots_populated,
        !inputs.stop_pending,
        !(phase is Exiting),
    ensures
        export_step(inputs, phase).writes.len() == 0,
        export_step(inputs, phase).phase == ExportPhase::Off,
{
}

/// A stop whose return to Eco is not confirmed keeps being repaired, even with
/// populated slots, unless a re-arm is being watched for or the machine has
/// given up.
pub proof fn law_unfinished_stop_is_repaired(inputs: ExportInputs, phase: ExportPhase)
    requires
        !inputs.scheduled,
        inputs.stop_pending,
        !inputs.eco,
        !inputs.observing,
        inputs.outcome == TimedExportWriteOutcome::NoneIssued,
        !(phase is Exiting),
    ensures
        export_step(inputs, phase).writes == inputs.leave,
        export_step(inputs, phase).exit,
{
}

/// An error is left only by a schedule change: while the schedule stands, the
/// machine stays put and writes nothing.
pub proof fn law_error_is_sticky(inputs: ExportInputs, reason: Seq<char>)
    requires
        inputs.scheduled,
    ensures
        export_step(inputs, ExportPhase::Error { reason }).phase == (ExportPhase::Error { reason }),
        export_step(inputs, ExportPhase::Error { reason }).writes.len() == 0,
        export_step(inputs, ExportPhase::Error { reason }).log is None,
        !export_step(inputs, ExportPhase::Error { reason }).exit,
{
}

/// The retry budget is kept: the counters of a machine within it stay within
/// it, so that a further failure ends in an error.
pub proof fn law_retries_stay_bounded(inputs: ExportInputs, phase: ExportPhase)
    requires
        match phase {
            ExportPhase::Entering { retries, .. } | ExportPhase::Exiting { retries, .. } => retries
                <= TIMED_EXPORT_MAX_WRITE_RETRIES,
            _ => true,
        },
    ensures
        match export_step(inputs, phase).phase {
            ExportPhase::Entering { retries, .. } | ExportPhase::Exiting { retries, .. } => retries
                <= TIMED_EXPORT_MAX_WRITE_RETRIES,
            _ => true,
        },
        export_step(inputs, phase).phase.can_retry(),
{
}

/// The state after `n` polls with the same inputs.
pub open spec fn export_after(inputs: ExportInputs, phase: ExportPhase, n: nat) -> ExportPhase
    decreases n,
{
    if n == 0 {
        phase
    } else {
        export_step(inputs, export_after(inputs, phase, (n - 1) as nat)).phase
    }
}

/// Writes that keep failing are issued again three times; the fourth failure is
/// an error, for an entry as for an exit.
pub proof fn law_persistent_failure_ends_in_error(inputs: ExportInputs)
    requires
        inputs.outcome == TimedExportWriteOutcome::Failed,
        !inputs.eco,
        !inputs.exporting,
        !inputs.paused,
    ensures
        inputs.scheduled && inputs.in_window ==> {
            let start = ExportPhase::Entering { polls_waiting: 0, retries: 0 };
            &&& forall|n: nat|
                n <= 3 ==> #[trigger] export_after(inputs, start, n) == (ExportPhase::Entering {
                    polls_waiting: 0,
                    retries: n as u32,
                })
            &&& forall|n: nat|
                n < 3 ==> export_step(
                    inputs,
                    #[trigger] export_after(inputs, start, n),
                ).writes == inputs.entry
            &&& export_after(inputs, start, 4) is Error
        },
        !inputs.in_window ==> {
            let start = ExportPhase::Exiting { polls_waiting: 0, retries: 0 };
            &&& forall|n: nat|
                n <= 3 ==> #[trigger] export_after(inputs, start, n) == (ExportPhase::Exiting {
                    polls_waiting: 0,
                    retries: n as u32,
                })
            &&& forall|n: nat|
                n < 3 ==> export_step(
                    inputs,
                    #[trigger] export_after(inputs, start, n),
                ).writes == inputs.leave
            &&& export_after(inputs, start, 4) is Error
        },
{
    let entering = ExportPhase::Entering { polls_waiting: 0, retries: 0 };
    let exiting = ExportPhase::Exiting { polls_waiting: 0, retries: 0 };
    reveal_with_fuel(export_after, 6);
    assert(export_after(inputs, entering, 0) == entering);
    assert(export_after(inputs, exiting, 0) == exiting);
    if inputs.scheduled && inputs.in_window {
        assert(export_after(inputs, entering, 1) == (ExportPhase::Entering {
            polls_waiting: 0,
            retries: 1,
        }));
        assert(export_after(inputs, entering, 2) == (ExportPhase::Entering {
            polls_waiting: 0,
            retries: 2,
        }));
        assert(export_after(inputs, entering, 3) == (ExportPhase::Entering {
            polls_waiting: 0,
            retries: 3,
        }));
        assert(export_after(inputs, entering, 4) is Error);
    }
    if !inputs.in_window {
        assert(export_after(inputs, exiting, 1) == (ExportPhase::Exiting {
            polls_waiting: 0,
            retries: 1,
        }));
        assert(export_after(inputs, exiting, 2) == (ExportPhase::Exiting {
            polls_waiting: 0,
            retries: 2,
        }));
        assert(export_after(inputs, exiting, 3) == (ExportPhase::Exiting {
            polls_waiting: 0,
            retries: 3,
        }));
        assert(export_after(inputs, exiting, 4) is Error);
    }
}

/// Successful writes that are not read back are left alone for two polls and
/// issued again on the third.
pub proof fn law_unconfirmed_success_gets_its_grace(inputs: ExportInputs)
    requires
        inputs.outcome == TimedExportWriteOutcome::Succeeded,
        inputs.scheduled,
        inputs.in_window,
        !inputs.paused,
        !inputs.exporting,
    ensures
        ({
            let start = ExportPhase::Entering { polls_waiting: 0, retries: 0 };
            &&& export_step(inputs, export_after(inputs, start, 0)).writes.len() == 0
            &&& export_step(inputs, export_after(inputs, start, 1)).writes.len() == 0
            &&& export_step(inputs, export_after(inputs, start, 2)).writes == inputs.entry
        }),
{
    let start = ExportPhase::Entering { polls_waiting: 0, retries: 0 };
    reveal_with_fuel(export_after, 4);
    assert(export_after(inputs, start, 0) == start);
    assert(export_after(inputs, start, 1) == (ExportPhase::Entering {
        polls_waiting: 1,
        retries: 0,
    }));
    assert(export_after(inputs, start, 2) == (ExportPhase::Entering {
        polls_waiting: 2,
        retries: 0,
    }));
}

/// Clearing reaches the registers of every slot that the model has.
pub proof fn law_clear_covers_every_slot(device_type: DeviceType, slot: int, n: int)
    requires
        1 <= slot <= n <= discharge_slot_limit(device_type),
    ensures
        clear_slots(device_type, n).contains(setting(slot_register(device_type, slot), 0)),
        clear_slots(device_type, n).contains(
            setting((slot_register(device_type, slot) + 1) as u16, 0),
        ),
    decreases n,
{
    let all = clear_slots(device_type, n);
    let rest = clear_slots(device_type, n - 1);
    let own = slot_times(device_type, n, 0, 0);
    if slot == n {
        assert(all[rest.len() as int] == own[0]);
        assert(all[rest.len() as int + 1] == own[1]);
    } else {
        law_clear_covers_every_slot(device_type, slot, n - 1);
        let a = setting(slot_register(device_type, slot), 0);
        let b = setting((slot_register(device_type, slot) + 1) as u16, 0);
        let i = choose|i: int| 0 <= i < rest.len() && rest[i] == a;
        let j = choose|j: int| 0 <= j < rest.len() && rest[j] == b;
        assert(all[i] == a);
        assert(all[j] == b);
    }
}

/// Compensation writes the times of every slot that the model has, the prior
/// ones or cleared.
pub proof fn law_compensation_covers_every_slot(
    device_type: DeviceType,
    prior: Seq<ScheduleSlot>,
    slot: int,
    n: int,
)
    requires
        1 <= slot <= n <= discharge_slot_limit(device_type),
    ensures
        ({
            let (start, end) = prior_times(slot, prior);
            &&& compensate_slots(device_type, prior, n).contains(
                setting(slot_register(device_type, slot), start),
            )
            &&& compensate_slots(device_type, prior, n).contains(
                setting((slot_register(device_type, slot) + 1) as u16, end),
            )
        }),
    decreases n,
{
    let (start, end) = prior_times(slot, prior);
    let (own_start, own_end) = prior_times(n, prior);
    let all = compensate_slots(device_type, prior, n);
    let rest = compensate_slots(device_type, prior, n - 1);
    let own = slot_times(device_type, n, own_start, own_end);
    assert(all =~= rest + own + prior_target(device_type, n, prior));
    if slot == n {
        assert(all[rest.len() as int] == own[0]);
        assert(all[rest.len() as int + 1] == own[1]);
    } else {
        law_compensation_covers_every_slot(device_type, prior, slot, n - 1);
        let a = setting(slot_register(device_type, slot), start);
        let b = setting((slot_register(device_type, slot) + 1) as u16, end);
        let i = choose|i: int| 0 <= i < rest.len() && rest[i] == a;
        let j = choose|j: int| 0 <= j < rest.len() && rest[j] == b;
        assert(all[i] == a);
        assert(all[j] == b);
    }
}

/// Putting back a schedule without a configured slot clears every slot.
pub proof fn law_empty_compensation_clears(
    device_type: DeviceType,
    prior: Seq<ScheduleSlot>,
    n: int,
)
    requires
        0 <= n <= discharge_slot_limit(device_type),
        forall|i: int| 0 <= i < prior.len() ==> !(#[trigger] prior[i]).configured(),
    ensures
        compensate_slots(device_type, prior, n) == clear_slots(device_type, n),
    decreases n,
{
    if n > 0 {
        law_empty_compensation_clears(device_type, prior, n - 1);
        assert(compensate_slots(device_type, prior, n) =~= clear_slots(device_type, n));
    }
}

/// Clearing writes zeros only.
pub proof fn law_clear_writes_zeros(device_type: DeviceType, n: int)
    ensures
        forall|i: int|
            0 <= i < clear_slots(device_type, n).len() ==> (#[trigger] clear_slots(
                device_type,
                n,
            )[i]).value == 0,
    decreases n,
{
    if n > 0 {
        law_clear_writes_zeros(device_type, n - 1);
        let all = clear_slots(device_type, n);
        let rest = clear_slots(device_type, n - 1);
        assert forall|i: int| 0 <= i < all.len() implies (#[trigger] all[i]).value == 0 by {
            if i < rest.len() {
                assert(all[i] == rest[i]);
            } else {
                assert(all[i] == slot_times(device_type, n, 0, 0)[i - rest.len()]);
            }
        }
    }
}

/// Leaving export disarms discharge and then selects Eco, as its last two
/// writes; whatever comes before clears slots, so nothing arms and firmware has
/// nothing left to re-arm from.
pub proof fn law_exit_disarms_then_eco(device_type: DeviceType, config: TimedExportConfig)
    ensures
        ({
            let w = exit_writes(device_type, config);
            let n = w.len() as int;
            &&& n >= 2
            &&& w[n - 2] == discharge_enable(device_type, false)
            &&& w[n - 1] == setting(HR_BATTERY_POWER_MODE, 1)
            &&& forall|i: int| 0 <= i < n - 2 ==> (#[trigger] w[i]).value == 0
            &&& !config.device_rearm_confirmed ==> n == 2
        }),
{
    law_clear_writes_zeros(device_type, discharge_slot_limit(device_type));
    let w = exit_writes(device_type, config);
    let head = if config.device_rearm_confirmed {
        clear_slots(device_type, discharge_slot_limit(device_type))
    } else {
        Seq::empty()
    };
    assert forall|i: int| 0 <= i < w.len() - 2 implies (#[trigger] w[i]).value == 0 by {
        assert(w[i] == head[i]);
    }
}

/// Entering export selects maximum power and then arms discharge, as its last
/// two writes; whatever comes before restores slots.
pub proof fn law_entry_arms_last(device_type: DeviceType, config: TimedExportConfig)
    ensures
        ({
            let w = entry_writes(device_type, config);
            let n = w.len() as int;
            &&& n >= 2
            &&& w[n - 2] == setting(HR_BATTERY_POWER_MODE, 0)
            &&& w[n - 1] == discharge_enable(device_type, true)
            &&& w.take(n - 2) == if config.device_rearm_confirmed {
                restore_slots(device_type, config.slots@, restorable(device_type, config.slots@))
            } else {
                Seq::empty()
            }
            &&& w != exit_writes(device_type, config)
        }),
{
    let w = entry_writes(device_type, config);
    let n = w.len() as int;
    let head = if config.device_rearm_confirmed {
        restore_slots(device_type, config.slots@, restorable(device_type, config.slots@))
    } else {
        Seq::empty()
    };
    assert(w.take(n - 2) =~= head);
    let x = exit_writes(device_type, config);
    if w == x {
        law_exit_disarms_then_eco(device_type, config);
        assert(w[n - 1].value == 1);
        assert(x[x.len() - 1].address == HR_BATTERY_POWER_MODE);
        assert(w[n - 1].address == discharge_enable_register(device_type));
    }
}

/// A daily window and the one with its ends exchanged split the day: the pause
/// window covers exactly the minutes that the visible discharge window does
/// not.
pub proof fn law_window_and_inverse_split_the_day(start: int, end: int, now: int)
    requires
        start != end,
    ensures
        daily_window(start, end, now) <==> !daily_window(end, start, now),
{
}

/// A window starts with its first minute and is over at its last.
pub proof fn law_window_is_half_open(start: int, end: int)
    requires
        start != end,
    ensures
        daily_window(start, end, start),
        !daily_window(start, end, end),
{
}

/// The guard returns exactly the reserve that it found: while it holds the
/// floor it never forgets it, and when it lets go it writes it.
pub proof fn law_floor_returns_what_it_took(
    snap: InverterSnapshot,
    config: DischargeFloorConfig,
    state: DischargeFloorState,
    now: int,
)
    ensures
        ({
            let (next, written) = floor_step(snap, config, state, now);
            match state {
                DischargeFloorState::Idle => match next {
                    DischargeFloorState::FloorHeld {
                        saved_reserve,
                    } => saved_reserve == snap.battery_reserve && saved_reserve < config.floor_soc
                        && written == Some(config.floor_soc as u16),
                    _ => next is Idle && written is None,
                },
                DischargeFloorState::FloorHeld { saved_reserve }
                | DischargeFloorState::HeldFromRestart { saved_reserve } => if next is Idle {
                    written == Some(saved_reserve)
                } else {
                    next == (DischargeFloorState::FloorHeld { saved_reserve }) && (written is None
                        || written == Some(config.floor_soc as u16))
                },
            }
        }),
{
}

/// The guard never lowers the reserve below what the user set: it writes the
/// floor only over a lower reserve.
pub proof fn law_floor_only_raises(
    snap: InverterSnapshot,
    config: DischargeFloorConfig,
    state: DischargeFloorState,
    now: int,
)
    ensures
        ({
            let (next, written) = floor_step(snap, config, state, now);
            next is FloorHeld && written is Some ==> written->0 > snap.battery_reserve
        }),
{
}

/// No limiter write arms discharge: each batch selects Eco, clears the discharge
/// enables and sets the reserve, in this order.
pub proof fn law_pause_never_arms(device_type: DeviceType, reserve: u16)
    ensures
        ({
            let w = pause_writes(device_type, reserve);
            let n = w.len() as int;
            &&& n >= 3
            &&& w[0] == setting(HR_BATTERY_POWER_MODE, 1)
            &&& w[1] == setting(HR_ENABLE_DISCHARGE, 0)
            &&& forall|i: int| 1 <= i < n - 1 ==> (#[trigger] w[i]).value == 0
            &&& w[n - 1].value == reserve
            &&& exists|i: int|
                0 <= i < n && (#[trigger] w[i]) == discharge_enable(device_type, false)
        }),
{
    let w = pause_writes(device_type, reserve);
    if three_phase_family(device_type) {
        assert(w[2] == discharge_enable(device_type, false));
    } else {
        assert(w[1] == discharge_enable(device_type, false));
    }
}

/// The load limiter keeps the saved reserve for as long as it pauses discharge,
/// and gives the pause up only by writing that reserve back, by leaving the
/// pause to another limiter, or on reading that discharge has resumed.
pub proof fn law_load_pause_keeps_the_reserve(
    snap: InverterSnapshot,
    config: LoadLimiterConfig,
    state: LoadLimiterState,
    interval: int,
    saved: Option<LoadLimiterSaved>,
    now: int,
    other_active: bool,
)
    requires
        state.pauses(),
    ensures
        ({
            let step = load_step(snap, config, state, interval, saved, now, other_active);
            if step.state.pauses() {
                step.saved == saved
            } else {
                ||| step.writes == Some(pause_writes(snap.device_type, reserve_to_restore(saved)))
                    && step.saved is None
                ||| other_active && step.writes is None && step.saved == saved
                ||| state is PausedFromRestart && snap.battery_mode == BatteryMode::Eco
                    && step.writes is None && step.saved is None
            }
        }),
{
}

/// The temperature limiter keeps the saved reserve until it reads that discharge
/// has resumed, or leaves the pause to another limiter.
pub proof fn law_heat_pause_keeps_the_reserve(
    snap: InverterSnapshot,
    config: TemperatureLimiterConfig,
    state: TemperatureLimiterState,
    saved: Option<LoadLimiterSaved>,
    other_active: bool,
    reassert_pause: bool,
)
    requires
        state.pauses(),
    ensures
        ({
            let step = heat_step(snap, config, state, saved, other_active, reassert_pause);
            if step.state.pauses() {
                step.saved == saved
            } else {
                ||| other_active && step.writes is None && step.saved == saved
                ||| state is PausedFromRestart && snap.battery_mode == BatteryMode::Eco
                    && step.writes is None && step.saved is None
            }
        }),
{
}

/// A limiter that takes over pauses discharge and remembers the reserve that
/// was in force, unless another limiter had already saved one.
pub proof fn law_takeover_saves_the_reserve(
    snap: InverterSnapshot,
    config: LoadLimiterConfig,
    state: LoadLimiterState,
    interval: int,
    saved: Option<LoadLimiterSaved>,
    now: int,
    other_active: bool,
)
    requires
        !state.pauses(),
    ensures
        ({
            let step = load_step(snap, config, state, interval, saved, now, other_active);
            step.state.pauses() ==> {
                &&& step.saved == captured(saved, snap.battery_reserve)
                &&& other_active || step.writes == Some(pause_writes(snap.device_type, 100))
            }
        }),
{
}

/// The state of the load limiter after polls that all read a high load.
pub open spec fn load_after(
    snaps: Seq<InverterSnapshot>,
    config: LoadLimiterConfig,
    interval: int,
    now: int,
) -> LoadLimiterState
    decreases snaps.len(),
{
    if snaps.len() == 0 {
        LoadLimiterState::Idle
    } else {
        load_step(
            snaps.last(),
            config,
            load_after(snaps.drop_last(), config, interval, now),
            interval,
            None,
            now,
            false,
        ).state
    }
}

/// High load pauses discharge exactly when it has lasted for the configured
/// delay, and for two polls at least: one reading never does.
pub proof fn law_load_pause_takes_the_delay(
    snaps: Seq<InverterSnapshot>,
    config: LoadLimiterConfig,
    interval: int,
    now: int,
)
    requires
        config.enabled,
        config.watches(now),
        0 < snaps.len() <= u32::MAX,
        snaps.len() <= 2 || snaps.len() <= config.delay_polls(interval),
        forall|i: int|
            0 <= i < snaps.len() ==> (#[trigger] snaps[i]).home_power > config.threshold_w,
    ensures
        load_after(snaps, config, interval, now) == if snaps.len() == 1 || snaps.len()
            < config.delay_polls(interval) {
            LoadLimiterState::HighLoadPending { consecutive: snaps.len() as u32 }
        } else {
            LoadLimiterState::Paused
        },
    decreases snaps.len(),
{
    let rest = snaps.drop_last();
    assert(snaps.last() == snaps[snaps.len() - 1]);
    if rest.len() > 0 {
        assert forall|i: int| 0 <= i < rest.len() implies (#[trigger] rest[i]).home_power
            > config.threshold_w by {
            assert(rest[i] == snaps[i]);
        }
        law_load_pause_takes_the_delay(rest, config, interval, now);
    } else {
        assert(load_after(rest, config, interval, now) == LoadLimiterState::Idle);
    }
}

/// One reading of a low load ends the count towards a pause.
pub proof fn law_low_load_resets_the_count(
    snap: InverterSnapshot,
    config: LoadLimiterConfig,
    consecutive: u32,
    interval: int,
    saved: Option<LoadLimiterSaved>,
    now: int,
    other_active: bool,
)
    requires
        snap.home_power <= config.threshold_w,
    ensures
        ({
            let step = load_step(
                snap,
                config,
                LoadLimiterState::HighLoadPending { consecutive },
                interval,
                saved,
                now,
                other_active,
            );
            step.state == LoadLimiterState::Idle && step.writes is None
        }),
{
}

/// The state of the temperature limiter after a run of polls.
pub open spec fn heat_after(
    start: TemperatureLimiterState,
    snaps: Seq<InverterSnapshot>,
    config: TemperatureLimiterConfig,
) -> TemperatureLimiterState
    decreases snaps.len(),
{
    if snaps.len() == 0 {
        start
    } else {
        heat_step(
            snaps.last(),
            config,
            heat_after(start, snaps.drop_last(), config),
            None,
            false,
            false,
        ).state
    }
}

/// A hot inverter pauses discharge exactly with the configured number of
/// consecutive readings.
pub proof fn law_heat_pause_takes_the_readings(
    snaps: Seq<InverterSnapshot>,
    config: TemperatureLimiterConfig,
)
    requires
        config.enabled,
        config.confirmation_readings >= 1,
        0 < snaps.len() <= config.confirmation_readings,
        forall|i: int|
            0 <= i < snaps.len() ==> config.high_threshold.le(
                (#[trigger] snaps[i]).inverter_temperature,
            ),
    ensures
        heat_after(TemperatureLimiterState::Idle, snaps, config) == if snaps.len()
            < config.confirmation_readings {
            TemperatureLimiterState::HighPending { consecutive: snaps.len() as u32 }
        } else {
            TemperatureLimiterState::Paused
        },
    decreases snaps.len(),
{
    let rest = snaps.drop_last();
    assert(snaps.last() == snaps[snaps.len() - 1]);
    if rest.len() > 0 {
        assert forall|i: int| 0 <= i < rest.len() implies config.high_threshold.le(
            (#[trigger] rest[i]).inverter_temperature,
        ) by {
            assert(rest[i] == snaps[i]);
        }
        law_heat_pause_takes_the_readings(rest, config);
    } else {
        assert(heat_after(TemperatureLimiterState::Idle, rest, config)
            == TemperatureLimiterState::Idle);
    }
}

/// Discharge is handed back exactly with the configured number of consecutive
/// cool readings.
pub proof fn law_heat_release_takes_the_readings(
    snaps: Seq<InverterSnapshot>,
    config: TemperatureLimiterConfig,
)
    requires
        config.enabled,
        config.confirmation_readings >= 1,
        0 < snaps.len() <= config.confirmation_readings,
        forall|i: int|
            0 <= i < snaps.len() ==> (#[trigger] snaps[i]).inverter_temperature.le(
                config.recovery_threshold,
            ),
    ensures
        heat_after(TemperatureLimiterState::Paused, snaps, config) == if snaps.len()
            < config.confirmation_readings {
            TemperatureLimiterState::CoolingPending { consecutive: snaps.len() as u32 }
        } else {
            TemperatureLimiterState::PausedFromRestart
        },
    decreases snaps.len(),
{
    let rest = snaps.drop_last();
    assert(snaps.last() == snaps[snaps.len() - 1]);
    if rest.len() > 0 {
        assert forall|i: int| 0 <= i < rest.len() implies (
        #[trigger] rest[i]).inverter_temperature.le(config.recovery_threshold) by {
            assert(rest[i] == snaps[i]);
        }
        law_heat_release_takes_the_readings(rest, config);
    } else {
        assert(heat_after(TemperatureLimiterState::Paused, rest, config)
            == TemperatureLimiterState::Paused);
    }
}

/// One reading that is not hot ends the count towards a thermal pause, and one
/// that is not cool the count towards its end.
pub proof fn law_heat_counts_restart(
    snap: InverterSnapshot,
    config: TemperatureLimiterConfig,
    consecutive: u32,
    saved: Option<LoadLimiterSaved>,
    other_active: bool,
    reassert_pause: bool,
)
    requires
        config.enabled,
        !(snap.inverter_temperature is Nan),
    ensures
        !config.high_threshold.le(snap.inverter_temperature) ==> heat_step(
            snap,
            config,
            TemperatureLimiterState::HighPending { consecutive },
            saved,
            other_active,
            reassert_pause,
        ).state == TemperatureLimiterState::Idle,
        !snap.inverter_temperature.le(config.recovery_threshold) ==> heat_step(
            snap,
            config,
            TemperatureLimiterState::CoolingPending { consecutive },
            saved,
            other_active,
            reassert_pause,
        ).state == TemperatureLimiterState::Paused,
{
}

/// Without a temperature reading nothing changes.
pub proof fn law_no_temperature_changes_nothing(
    snap: InverterSnapshot,
    config: TemperatureLimiterConfig,
    state: TemperatureLimiterState,
    saved: Option<LoadLimiterSaved>,
    other_active: bool,
    reassert_pause: bool,
)
    requires
        config.enabled,
        snap.inverter_temperature is Nan,
    ensures
        ({
            let step = heat_step(snap, config, state, saved, other_active, reassert_pause);
            step.state == state && step.saved == saved && step.writes is None
        }),
{
}

/// The state of auto-winter after polls that all read cold.
pub open spec fn winter_after(snaps: Seq<InverterSnapshot>, config: AutoWinterConfig) -> WinterPhase
    decreases snaps.len(),
{
    if snaps.len() == 0 {
        WinterPhase::Idle
    } else {
        winter_step(
            snaps.last(),
            config,
            winter_after(snaps.drop_last(), config),
            None,
            AutoWinterWriteOutcome::NoneIssued,
        ).phase
    }
}

/// Auto-winter acts exactly with the configured number of consecutive cold
/// readings, and two at least: a single reading never does.
pub proof fn law_winter_takes_the_readings(
    snaps: Seq<InverterSnapshot>,
    config: AutoWinterConfig,
)
    requires
        config.enabled,
        0 < snaps.len(),
        snaps.len() <= 2 || snaps.len() <= config.debounce_readings,
        forall|i: int|
            0 <= i < snaps.len() ==> (#[trigger] snaps[i]).battery_temperature.lt(
                config.cold_threshold,
            ),
    ensures
        winter_after(snaps, config) == if snaps.len() == 1 || snaps.len()
            < config.debounce_readings {
            WinterPhase::ColdPending { consecutive: snaps.len() as u32 }
        } else {
            WinterPhase::Activating { retries: 0 }
        },
    decreases snaps.len(),
{
    let rest = snaps.drop_last();
    assert(snaps.last() == snaps[snaps.len() - 1]);
    if rest.len() > 0 {
        assert forall|i: int| 0 <= i < rest.len() implies (
        #[trigger] rest[i]).battery_temperature.lt(config.cold_threshold) by {
            assert(rest[i] == snaps[i]);
        }
        law_winter_takes_the_readings(rest, config);
    } else {
        assert(winter_after(rest, config) == WinterPhase::Idle);
    }
}

/// One reading on the other side of the threshold starts the count again, on
/// the cold side as on the warm side.
pub proof fn law_winter_count_restarts(
    snap: InverterSnapshot,
    config: AutoWinterConfig,
    consecutive: u32,
    saved: Option<AutoWinterSaved>,
    outcome: AutoWinterWriteOutcome,
)
    requires
        config.enabled,
    ensures
        config.cold_threshold.le(snap.battery_temperature) ==> winter_step(
            snap,
            config,
            WinterPhase::ColdPending { consecutive },
            saved,
            outcome,
        ).phase == WinterPhase::Idle,
        snap.battery_temperature.le(config.recovery_threshold) ==> winter_step(
            snap,
            config,
            WinterPhase::WarmPending { consecutive },
            saved,
            outcome,
        ).phase == WinterPhase::WinterActive,
{
}

/// The state of auto-winter after polls that all read warm.
pub open spec fn spring_after(
    snaps: Seq<InverterSnapshot>,
    config: AutoWinterConfig,
    saved: Option<AutoWinterSaved>,
) -> WinterPhase
    decreases snaps.len(),
{
    if snaps.len() == 0 {
        WinterPhase::WinterActive
    } else {
        winter_step(
            snaps.last(),
            config,
            spring_after(snaps.drop_last(), config, saved),
            saved,
            AutoWinterWriteOutcome::NoneIssued,
        ).phase
    }
}

/// Winter mode ends exactly with the configured number of consecutive readings
/// above the recovery threshold, and two at least.
pub proof fn law_winter_ends_with_the_readings(
    snaps: Seq<InverterSnapshot>,
    config: AutoWinterConfig,
    saved: Option<AutoWinterSaved>,
)
    requires
        config.enabled,
        0 < snaps.len(),
        snaps.len() <= 2 || snaps.len() <= config.debounce_readings,
        forall|i: int|
            0 <= i < snaps.len() ==> config.recovery_threshold.lt(
                (#[trigger] snaps[i]).battery_temperature,
            ),
    ensures
        spring_after(snaps, config, saved) == if snaps.len() == 1 || snaps.len()
            < config.debounce_readings {
            WinterPhase::WarmPending { consecutive: snaps.len() as u32 }
        } else {
            WinterPhase::Restoring { retries: 0 }
        },
    decreases snaps.len(),
{
    let rest = snaps.drop_last();
    assert(snaps.last() == snaps[snaps.len() - 1]);
    if rest.len() > 0 {
        assert forall|i: int| 0 <= i < rest.len() implies config.recovery_threshold.lt(
            (#[trigger] rest[i]).battery_temperature,
        ) by {
            assert(rest[i] == snaps[i]);
        }
        law_winter_ends_with_the_readings(rest, config, saved);
    } else {
        assert(spring_after(rest, config, saved) == WinterPhase::WinterActive);
    }
}

/// Auto-winter never overwrites a saved target, forgets it only when it is in
/// force again or the feature is switched off, and restores nothing else.
pub proof fn law_winter_restores_what_it_saved(
    snap: InverterSnapshot,
    config: AutoWinterConfig,
    phase: WinterPhase,
    saved: AutoWinterSaved,
    outcome: AutoWinterWriteOutcome,
)
    requires
        config.enabled,
    ensures
        ({
            let step = winter_step(snap, config, phase, Some(saved), outcome);
            &&& step.saved == Some(saved) || step.saved is None && phase is Restoring
                && snap.target_soc == saved.target_soc && snap.enable_charge_target
                == saved.enable_charge_target
            &&& step.phase is Restoring ==> step.writes == Some(
                target_writes(restoration(Some(saved)).0, saved.target_soc as u16),
            )
        }),
{
}

/// Auto-winter counts as active only once the winter target is read back.
pub proof fn law_winter_active_is_read_back(
    snap: InverterSnapshot,
    config: AutoWinterConfig,
    retries: u8,
    saved: Option<AutoWinterSaved>,
    outcome: AutoWinterWriteOutcome,
)
    requires
        config.enabled,
    ensures
        winter_step(
            snap,
            config,
            WinterPhase::Activating { retries },
            saved,
            outcome,
        ).phase is WinterActive <==> snap.enable_charge_target && snap.target_soc
            == config.target_soc,
{
}

/// Adaptive Charge writes the charge limit of the model and nothing else, and
/// only values that the register can hold.
pub proof fn law_adaptive_writes_one_valid_limit(
    snap: InverterSnapshot,
    config: AdaptiveChargeConfig,
    config_error: Option<Seq<char>>,
    enabled: bool,
    phase: AdaptivePhase,
    saved: Option<SavedLimit>,
    now: int,
)
    ensures
        adaptive_step(snap, config, config_error, enabled, phase, saved, now).write matches Some(
            w,
        ) ==> charge_register(snap.device_type) == Some(w.address) && raw_valid(
            snap.device_type,
            w.value,
        ) && w.value != snap.charge_rate,
{
}

/// A limit that was saved on another inverter is never written.
pub proof fn law_foreign_limit_is_never_written(
    snap: InverterSnapshot,
    config: AdaptiveChargeConfig,
    config_error: Option<Seq<char>>,
    enabled: bool,
    phase: AdaptivePhase,
    saved: SavedLimit,
    now: int,
)
    requires
        foreign(saved, snap),
    ensures
        ({
            let step = adaptive_step(
                snap,
                config,
                config_error,
                enabled,
                phase,
                Some(saved),
                now,
            );
            step.write is None && step.saved == Some(saved)
        }),
{
}

/// Disabling returns the saved limit: it is written until it is read back, and
/// only then forgotten.
pub proof fn law_disabling_returns_the_limit(
    snap: InverterSnapshot,
    config: AdaptiveChargeConfig,
    config_error: Option<Seq<char>>,
    phase: AdaptivePhase,
    saved: SavedLimit,
    now: int,
)
    requires
        charge_register(snap.device_type) is Some,
        !foreign(saved, snap),
        raw_valid(snap.device_type, saved.raw_value),
    ensures
        ({
            let step = adaptive_step(
                snap,
                config,
                config_error,
                false,
                phase,
                Some(saved),
                now,
            );
            if snap.charge_rate == saved.raw_value {
                step.phase is Inactive && step.saved is None && step.write is None
            } else {
                step.phase is Restoring && step.saved == Some(saved) && step.write == Some(
                    setting(saved.register_address, saved.raw_value),
                )
            }
        }),
{
}

/// A limit to return to is captured only on the second equal reading in a row.
pub proof fn law_baseline_needs_two_readings(
    snap: InverterSnapshot,
    config: AdaptiveChargeConfig,
    config_error: Option<Seq<char>>,
    phase: AdaptivePhase,
    now: int,
)
    ensures
        ({
            let step = adaptive_step(snap, config, config_error, true, phase, None, now);
            step.saved is Some ==> phase == (AdaptivePhase::BaselinePending {
                raw_value: snap.charge_rate as u16,
            }) && step.saved->0.raw_value == snap.charge_rate
        }),
{
}

/// A valid register value survives the way to a rate and back.
pub proof fn law_rate_round_trip(device_type: DeviceType, raw: u16)
    requires
        raw_valid(device_type, raw),
    ensures
        rate_to_raw(device_type, raw_to_rate(device_type, raw)) == raw,
{
}

/// The rate that the register gives is no lower than what was asked for, and
/// less than two steps of one percent above it.
pub proof fn law_rate_is_rounded_up(device_type: DeviceType, percent: u8)
    requires
        charge_register(device_type) is Some,
        1 <= percent <= 100,
    ensures
        percent <= raw_to_rate(device_type, rate_to_raw(device_type, percent)) < percent + 2,
{
}

/// A write of the entry batch that is rejected keeps discharge from being
/// armed: the arming write is the last one and is not issued behind it.
pub proof fn law_rejected_entry_never_arms(
    device_type: DeviceType,
    config: TimedExportConfig,
    accepted: Seq<bool>,
    rejected: int,
)
    requires
        accepted.len() == entry_writes(device_type, config).len() <= usize::MAX,
        0 <= rejected < accepted.len() - 1,
        !accepted[rejected],
    ensures
        !batch_run(accepted, 0).0,
        batch_run(accepted, 0).1 < accepted.len(),
{
    law_batch_stops_at_first_rejection(accepted, 0);
    let issued = batch_run(accepted, 0).1;
    if issued == accepted.len() {
        assert(accepted[rejected]);
    }
}

/// The times of a Cosy slot come before what makes the inverter charge by them,
/// so that a rejected time keeps it from charging.
pub proof fn law_cosy_times_come_first(slot: CosySlot, device_type: DeviceType, accepted: Seq<bool>)
    requires
        accepted.len() == cosy_writes(slot, device_type, true).len() > 0,
        !accepted[0] || !accepted[1],
    ensures
        ({
            let w = cosy_writes(slot, device_type, true);
            &&& w.len() >= 5
            &&& w[2] == setting(HR_ENABLE_CHARGE, 1)
            &&& w[3] == setting(HR_ENABLE_CHARGE_TARGET, 1)
            &&& forall|i: int|
                0 <= i < 2 ==> (#[trigger] w[i]).address != HR_ENABLE_CHARGE && w[i].address
                    != HR_ENABLE_CHARGE_TARGET
            &&& batch_run(accepted, 0).1 <= 2
        }),
{
    let w = cosy_writes(slot, device_type, true);
    assert(w[0].address != HR_ENABLE_CHARGE);
    assert(w[1].address != HR_ENABLE_CHARGE);
    law_batch_stops_at_first_rejection(accepted, 0);
    let issued = batch_run(accepted, 0).1;
    if issued > 2 {
        assert(accepted[0]);
        assert(accepted[1]);
    }
}

/// A slot that is only preloaded changes times and never charges.
pub proof fn law_preloaded_slot_never_charges(slot: CosySlot, device_type: DeviceType)
    ensures
        forall|i: int|
            0 <= i < cosy_writes(slot, device_type, false).len() ==> (#[trigger] cosy_writes(
                slot,
                device_type,
                false,
            )[i]).address != HR_ENABLE_CHARGE && cosy_writes(slot, device_type, false)[i].address
                != HR_ENABLE_CHARGE_TARGET,
{
}

} // verus!
