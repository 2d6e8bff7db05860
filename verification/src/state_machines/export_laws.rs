//! What Timed Export is for, poll by poll.
use crate::model::{some_configured, some_covers, DeviceType, InverterSnapshot, ScheduleSlot};
use crate::plain::{open_at, put, slot_open, slot_set, ten_slots, three_phase_block};
use crate::registers::RegisterWrite;
use crate::state_machines::export::{
    entry_writes, exit_writes, export_inputs, export_step, ExportInputs, ExportPhase, ExportStep,
    TimedExportConfig, TimedExportWriteOutcome,
};
use crate::state_machines::export_writes::{
    clear_slots, compensate_slots, restore_slot, restore_slots, unbounded,
};
use crate::text::decimal;
use vstd::prelude::*;

verus! {

/// A poll sees a window open where an enabled slot of the schedule is open, a
/// pause where mode 2 or 3 has its own window open, export where power mode 0 is
/// armed and Eco where power mode 1 is not.
pub proof fn law_poll_reads_schedule_pause_and_registers(
    snapshot: InverterSnapshot,
    config: TimedExportConfig,
    minute: int,
    device_type: DeviceType,
    outcome: TimedExportWriteOutcome,
    observing: bool,
)
    ensures
        ({
            let seen = export_inputs(snapshot, config, minute, device_type, outcome, observing);
            let pause = snapshot.battery_pause_slot;
            &&& seen.in_window <==> exists|i: int|
                0 <= i < config.slots@.len() && slot_open(#[trigger] config.slots@[i], minute)
            &&& seen.scheduled <==> config.schedule_enabled && exists|i: int|
                0 <= i < config.slots@.len() && slot_set(#[trigger] config.slots@[i])
            &&& seen.paused <==> (snapshot.battery_pause_mode == 2 || snapshot.battery_pause_mode
                == 3) && pause.enabled && open_at(
                pause.start_hour,
                pause.start_minute,
                pause.end_hour,
                pause.end_minute,
                minute,
            )
            &&& seen.slots_populated <==> exists|i: int|
                0 <= i < 10 && slot_set(#[trigger] snapshot.discharge_slots@[i])
            &&& seen.exporting <==> snapshot.battery_power_mode == 0 && snapshot.enable_discharge
            &&& seen.eco <==> snapshot.battery_power_mode == 1 && !snapshot.enable_discharge
            &&& seen.stop_pending == config.stop_pending
            &&& seen.observing == observing
            &&& seen.outcome == outcome
            &&& seen.entry == entry_writes(device_type, config)
            &&& seen.leave == exit_writes(device_type, config)
        }),
{
    let slots = config.slots@;
    let held = snapshot.discharge_slots@;
    assert(held.len() == 10);
    assert forall|i: int| 0 <= i < slots.len() implies slot_open(#[trigger] slots[i], minute)
        == slots[i].covers(minute) && slot_set(slots[i]) == slots[i].configured() by {}
    assert forall|i: int| 0 <= i < held.len() implies slot_set(#[trigger] held[i])
        == held[i].configured() by {}
    if some_covers(slots, minute) {
        let i = choose|i: int| 0 <= i < slots.len() && (#[trigger] slots[i]).covers(minute);
        assert(slot_open(slots[i], minute));
    }
    if some_configured(slots) {
        let i = choose|i: int| 0 <= i < slots.len() && (#[trigger] slots[i]).configured();
        assert(slot_set(slots[i]));
    }
    if some_configured(held) {
        let i = choose|i: int| 0 <= i < held.len() && (#[trigger] held[i]).configured();
        assert(slot_set(held[i]));
    }
}

/// Inside an open window of an enabled schedule, without a pause, the machine
/// enters export from every state of rest and again where export was lost,
/// whatever the inverter's own slots hold.
pub proof fn law_open_window_starts_export(inputs: ExportInputs, phase: ExportPhase)
    requires
        inputs.scheduled,
        inputs.in_window,
        !inputs.paused,
        phase is Off || phase is Configured || phase is BlockedByPause || phase is Active
            && !inputs.exporting || phase is Exiting && !inputs.eco,
    ensures
        ({
            let step = export_step(inputs, phase);
            &&& step.phase == (ExportPhase::Entering { polls_waiting: 0, retries: 0 })
            &&& step.writes == inputs.entry
            &&& !step.exit
            &&& step.log == Some(
                match phase {
                    ExportPhase::BlockedByPause => "Timed Export unblocked, entering export"@,
                    ExportPhase::Active => "Timed Export re-entering (registers changed externally)"@,
                    ExportPhase::Exiting { .. } => "Timed Export re-entering window"@,
                    _ => "Timed Export entering"@,
                },
            )
        }),
{
}

/// Inside an open window a pause keeps or puts the machine on hold, and nothing
/// is written.
pub proof fn law_pause_holds_the_machine(inputs: ExportInputs, phase: ExportPhase)
    requires
        inputs.scheduled,
        inputs.in_window,
        inputs.paused,
        phase is Off || phase is Configured || phase is BlockedByPause || phase is Active
            || phase is Entering && !inputs.exporting || phase is Exiting && !inputs.eco,
    ensures
        ({
            let step = export_step(inputs, phase);
            &&& step.phase is BlockedByPause
            &&& step.writes == Seq::<RegisterWrite>::empty()
            &&& !step.exit
            &&& step.log == match phase {
                ExportPhase::Off => Some("Timed Export blocked by Pause Discharge"@),
                ExportPhase::Configured => Some(
                    "Timed Export window entered but blocked by pause"@,
                ),
                ExportPhase::Entering { .. } => Some("Timed Export blocked by pause during entry"@),
                ExportPhase::BlockedByPause => None,
                _ => Some("Timed Export blocked by pause"@),
            }
        }),
{
}

/// What an entry waits for is export read back: then the machine is active. It
/// stays so, silently, while the window is open, unpaused and export is read.
pub proof fn law_read_back_export_is_active(inputs: ExportInputs, phase: ExportPhase)
    requires
        inputs.scheduled,
        inputs.exporting,
        phase is Entering || phase is Active && inputs.in_window && !inputs.paused,
    ensures
        ({
            let step = export_step(inputs, phase);
            &&& step.phase is Active
            &&& step.writes == Seq::<RegisterWrite>::empty()
            &&& !step.exit
            &&& step.log == if phase is Entering {
                Some("Timed Export active (entry confirmed)"@)
            } else {
                None
            }
        }),
{
}

/// Outside every window a machine that exports, enters or was on hold with
/// anything but Eco in force leaves export; on hold it also leaves while the
/// pause lasts.
pub proof fn law_closed_window_ends_export(inputs: ExportInputs, phase: ExportPhase)
    requires
        inputs.scheduled,
        !inputs.in_window,
        phase is Active || phase is Entering && !inputs.exporting || phase is BlockedByPause && (
        inputs.paused || !inputs.eco),
    ensures
        ({
            let step = export_step(inputs, phase);
            &&& step.phase == (ExportPhase::Exiting { polls_waiting: 0, retries: 0 })
            &&& step.writes == inputs.leave
            &&& step.exit
            &&& step.log == Some(
                match phase {
                    ExportPhase::Active => "Timed Export exiting"@,
                    ExportPhase::Entering { .. } => "Timed Export exiting (window ended during entry)"@,
                    _ => if inputs.paused {
                        "Timed Export exiting while blocked"@
                    } else {
                        "Timed Export unblocked after window end, restoring Eco"@
                    },
                },
            )
        }),
{
}

/// Outside every window a machine at rest leaves a state that is not Eco, unless
/// a re-arm is being watched for, and else waits for the next window.
pub proof fn law_rest_outside_windows_is_eco(inputs: ExportInputs, phase: ExportPhase)
    requires
        inputs.scheduled,
        !inputs.in_window,
        phase is Off || phase is Configured,
    ensures
        ({
            let step = export_step(inputs, phase);
            if !inputs.eco && !inputs.observing {
                &&& step.phase == (ExportPhase::Exiting { polls_waiting: 0, retries: 0 })
                &&& step.writes == inputs.leave
                &&& step.exit
                &&& step.log == Some(
                    if phase is Off {
                        "Timed Export: startup repair — export-armed outside window"@
                    } else {
                        "Timed Export: repair — export-armed outside window"@
                    },
                )
            } else {
                &&& step.phase is Configured
                &&& step.writes == Seq::<RegisterWrite>::empty()
                &&& !step.exit
                &&& step.log == if phase is Off {
                    Some("Timed Export configured for future window"@)
                } else {
                    None
                }
            }
        }),
{
}

/// An exit that is read back as Eco is over: the machine waits for the next
/// window, or is off without a schedule. A machine on hold that finds window and
/// pause over and Eco in force waits too.
pub proof fn law_read_back_eco_ends_the_exit(inputs: ExportInputs, phase: ExportPhase)
    requires
        inputs.eco,
        phase is Exiting || phase is BlockedByPause && inputs.scheduled && !inputs.in_window
            && !inputs.paused,
    ensures
        ({
            let step = export_step(inputs, phase);
            &&& if inputs.scheduled {
                step.phase is Configured
            } else {
                step.phase is Off
            }
            &&& step.writes == Seq::<RegisterWrite>::empty()
            &&& !step.exit
            &&& step.log == Some(
                if phase is Exiting {
                    "Timed Export exited, Eco restored"@
                } else {
                    "Timed Export unblocked, awaiting window"@
                },
            )
        }),
{
}

/// What an unconfirmed batch does on its next poll. A failure issues it again at
/// once as one more retry; a success is waited for over two polls and then
/// issued again as one more retry; beyond three retries the machine gives up.
pub open spec fn reissued(
    step: ExportStep,
    entering: bool,
    writes: Seq<RegisterWrite>,
    outcome: TimedExportWriteOutcome,
    polls_waiting: u32,
    retries: u32,
) -> bool {
    let failed = outcome is Failed;
    let again = failed || polls_waiting >= 2;
    let kept = if failed {
        polls_waiting
    } else {
        0
    };
    if retries > 3 || again && retries == 3 {
        &&& step.phase == (ExportPhase::Error {
            reason: if entering {
                "entry writes failed after retries"@
            } else {
                "exit writes failed after retries"@
            },
        })
        &&& step.writes == Seq::<RegisterWrite>::empty()
        &&& !step.exit
        &&& step.log == Some(
            "Timed Export error: "@ + if entering {
                "entry writes failed after retries"@
            } else {
                "exit writes failed after retries"@
            },
        )
    } else if again {
        &&& step.phase == if entering {
            ExportPhase::Entering { polls_waiting: kept, retries: (retries + 1) as u32 }
        } else {
            ExportPhase::Exiting { polls_waiting: kept, retries: (retries + 1) as u32 }
        }
        &&& step.writes == writes
        &&& step.exit == !entering
        &&& step.log == Some(
            (if entering {
                "Timed Export entry retry "@
            } else {
                "Timed Export exit retry "@
            }) + decimal((retries + 1) as nat) + " of 3"@,
        )
    } else {
        &&& step.phase == if entering {
            ExportPhase::Entering { polls_waiting: (polls_waiting + 1) as u32, retries }
        } else {
            ExportPhase::Exiting { polls_waiting: (polls_waiting + 1) as u32, retries }
        }
        &&& step.writes == Seq::<RegisterWrite>::empty()
        &&& !step.exit
        &&& step.log is None
    }
}

/// An entry inside its open, unpaused window, and an exit outside every window,
/// are issued again as [`reissued`] says until they are read back.
pub proof fn law_unconfirmed_batches_are_reissued(
    inputs: ExportInputs,
    polls_waiting: u32,
    retries: u32,
)
    requires
        inputs.scheduled,
        retries < u32::MAX,
    ensures
        inputs.in_window && !inputs.paused && !inputs.exporting ==> reissued(
            export_step(inputs, ExportPhase::Entering { polls_waiting, retries }),
            true,
            inputs.entry,
            inputs.outcome,
            polls_waiting,
            retries,
        ),
        !inputs.in_window && !inputs.eco ==> reissued(
            export_step(inputs, ExportPhase::Exiting { polls_waiting, retries }),
            false,
            inputs.leave,
            inputs.outcome,
            polls_waiting,
            retries,
        ),
{
}

/// Without a schedule an exit goes on until Eco is read back. One that no batch
/// was issued for yet is issued at once; any other is issued again as
/// [`reissued`] says.
pub proof fn law_stop_is_seen_through(inputs: ExportInputs, polls_waiting: u32, retries: u32)
    requires
        !inputs.scheduled,
        !inputs.eco,
        retries < u32::MAX,
    ensures
        ({
            let step = export_step(inputs, ExportPhase::Exiting { polls_waiting, retries });
            if polls_waiting == 0 && retries == 0 && inputs.outcome is NoneIssued {
                &&& step.phase == (ExportPhase::Exiting { polls_waiting: 0, retries: 0 })
                &&& step.writes == inputs.leave
                &&& step.exit
                &&& step.log == Some("Timed Export: repairing the stop that failed to disarm"@)
            } else {
                reissued(step, false, inputs.leave, inputs.outcome, polls_waiting, retries)
            }
        }),
{
}

/// Without a schedule a machine that is not leaving repairs a stop that is still
/// pending, leaves populated slots to whoever owns them, repairs what else is
/// not Eco, and is off otherwise.
pub proof fn law_machine_without_schedule(inputs: ExportInputs, phase: ExportPhase)
    requires
        !inputs.scheduled,
        !(phase is Exiting),
    ensures
        ({
            let step = export_step(inputs, phase);
            let repair = !inputs.eco && !inputs.observing;
            if inputs.stop_pending && repair {
                if inputs.outcome is NoneIssued {
                    &&& step.phase == (ExportPhase::Exiting { polls_waiting: 0, retries: 0 })
                    &&& step.writes == inputs.leave
                    &&& step.exit
                    &&& step.log == Some(
                        "Timed Export: repairing the stop/exit left pending (stop-pending marker)"@,
                    )
                } else {
                    reissued(step, false, inputs.leave, inputs.outcome, 0, 0)
                }
            } else if phase is Off && repair && !inputs.slots_populated {
                &&& step.phase == (ExportPhase::Exiting { polls_waiting: 0, retries: 0 })
                &&& step.writes == inputs.leave
                &&& step.exit
                &&& step.log == Some(
                    "Timed Export: repairing export-armed registers outside a window"@,
                )
            } else {
                &&& step.phase is Off
                &&& step.writes == Seq::<RegisterWrite>::empty()
                &&& !step.exit
                &&& step.log == if phase is Off || inputs.slots_populated {
                    None
                } else {
                    Some("Timed Export schedule disabled"@)
                }
            }
        }),
{
}

/// A batch is waited for while entering and while leaving, and only then.
pub proof fn law_batches_waited_for(phase: ExportPhase)
    ensures
        phase.boundary_pending() <==> match phase {
            ExportPhase::Entering { .. } | ExportPhase::Exiting { .. } => true,
            _ => false,
        },
{
}

/// With a schedule the inverter's own slots and a pending stop play no part.
pub proof fn law_schedule_ignores_the_inverters_slots(
    one: ExportInputs,
    other: ExportInputs,
    phase: ExportPhase,
)
    requires
        one.scheduled,
        one == (ExportInputs {
            slots_populated: one.slots_populated,
            stop_pending: one.stop_pending,
            ..other
        }),
    ensures
        export_step(one, phase) == export_step(other, phase),
{
}

/// Entering writes power mode 0 to register 27 and then arms discharge; leaving
/// disarms it and then writes power mode 1. Discharge is armed by register 1122
/// on models of the three-phase block, by register 59 on all others. Firmware
/// that re-arms by itself gets its slots restored first, or cleared first.
pub proof fn law_export_writes(device_type: DeviceType, config: TimedExportConfig)
    ensures
        ({
            let arm = if three_phase_block(device_type) {
                1122
            } else {
                59
            };
            let room: int = if ten_slots(device_type) {
                10
            } else {
                2
            };
            let slots = config.slots@;
            let wanted = if slots.len() < room {
                slots.len() as int
            } else {
                room
            };
            &&& entry_writes(device_type, config) =~= (if config.device_rearm_confirmed {
                restore_slots(device_type, slots, wanted)
            } else {
                Seq::empty()
            }) + seq![put(27, 0), put(arm, 1)]
            &&& exit_writes(device_type, config) =~= (if config.device_rearm_confirmed {
                clear_slots(device_type, room)
            } else {
                Seq::empty()
            }) + seq![put(arm, 0), put(27, 1)]
        }),
{
}

/// Discharge that is armed is repaired unless it is forced or one of the slots
/// has a window.
pub proof fn law_unbounded_discharge_is_repaired(armed: bool, slots: Seq<ScheduleSlot>, forced: bool)
    ensures
        unbounded(armed, slots, forced) <==> armed && !forced && forall|i: int|
            0 <= i < slots.len() ==> !slot_set(#[trigger] slots[i]),
{
    assert forall|i: int| 0 <= i < slots.len() implies slot_set(#[trigger] slots[i])
        == slots[i].configured() by {}
    if some_configured(slots) {
        let i = choose|i: int| 0 <= i < slots.len() && (#[trigger] slots[i]).configured();
        assert(slot_set(slots[i]));
    }
}

/// The register that a discharge slot starts at.
pub open spec fn slot_base(device_type: DeviceType, slot: int) -> int {
    if slot == 1 {
        if three_phase_block(device_type) {
            1118
        } else {
            56
        }
    } else if slot == 2 {
        if three_phase_block(device_type) {
            1120
        } else {
            44
        }
    } else {
        276 + 3 * (slot - 3)
    }
}

/// Clearing writes zero to the two registers of each slot, slot by slot.
pub proof fn law_clearing_zeroes_each_slot(device_type: DeviceType, n: int)
    requires
        0 <= n <= 10,
    ensures
        clear_slots(device_type, n).len() == 2 * n,
        forall|i: int|
            0 <= i < 2 * n ==> #[trigger] clear_slots(device_type, n)[i] == put(
                slot_base(device_type, i / 2 + 1) + i % 2,
                0,
            ),
    decreases n,
{
    if n > 0 {
        law_clearing_zeroes_each_slot(device_type, n - 1);
        let rest = clear_slots(device_type, n - 1);
        assert forall|i: int| 0 <= i < 2 * n implies #[trigger] clear_slots(device_type, n)[i]
            == put(slot_base(device_type, i / 2 + 1) + i % 2, 0) by {
            if i < 2 * (n - 1) {
                assert(clear_slots(device_type, n)[i] == rest[i]);
            }
        }
    }
}

/// Whether a slot's clock times are times of day.
pub open spec fn has_times_of_day(slot: ScheduleSlot) -> bool {
    slot.start_hour < 24 && slot.start_minute < 60 && slot.end_hour < 24 && slot.end_minute < 60
}

/// The writes of a slot's target: one on models with ten slots, for a target of
/// 4 to 100.
pub open spec fn target_write(device_type: DeviceType, slot: int, target_soc: u8) -> Seq<
    RegisterWrite,
> {
    if ten_slots(device_type) && 4 <= target_soc && target_soc <= 100 {
        seq![put(272 + 3 * (slot - 1), target_soc as int)]
    } else {
        Seq::empty()
    }
}

/// Restoring a slot writes its start and end as hours times 100 plus minutes and
/// then its target, and nothing for a slot without a window or without times of
/// day.
pub proof fn law_restoring_one_slot(device_type: DeviceType, slot: int, wanted: ScheduleSlot)
    requires
        1 <= slot <= 10,
    ensures
        restore_slot(device_type, slot, wanted) =~= if slot_set(wanted) && has_times_of_day(
            wanted,
        ) {
            seq![
                put(
                    slot_base(device_type, slot),
                    wanted.start_hour * 100 + wanted.start_minute,
                ),
                put(slot_base(device_type, slot) + 1, wanted.end_hour * 100 + wanted.end_minute),
            ] + target_write(device_type, slot, wanted.target_soc)
        } else {
            Seq::empty()
        },
{
}

/// Restoring goes through the slots in order, each by itself.
pub proof fn law_restoring_goes_slot_by_slot(
    device_type: DeviceType,
    slots: Seq<ScheduleSlot>,
    n: int,
)
    requires
        0 <= n < slots.len(),
    ensures
        restore_slots(device_type, slots, 0) =~= Seq::<RegisterWrite>::empty(),
        restore_slots(device_type, slots, n + 1) =~= restore_slots(device_type, slots, n)
            + restore_slot(device_type, n + 1, slots[n]),
{
}

/// Compensation goes through the slots in order: one that had a window gets its
/// times back, or zeros where they are no times of day, and its target; any
/// other is cleared.
pub proof fn law_compensating_goes_slot_by_slot(
    device_type: DeviceType,
    prior: Seq<ScheduleSlot>,
    n: int,
)
    requires
        0 <= n < 10,
    ensures
        compensate_slots(device_type, prior, 0) =~= Seq::<RegisterWrite>::empty(),
        compensate_slots(device_type, prior, n + 1) =~= compensate_slots(device_type, prior, n) + (
        if n < prior.len() && slot_set(prior[n]) {
            (if has_times_of_day(prior[n]) {
                seq![
                    put(
                        slot_base(device_type, n + 1),
                        prior[n].start_hour * 100 + prior[n].start_minute,
                    ),
                    put(
                        slot_base(device_type, n + 1) + 1,
                        prior[n].end_hour * 100 + prior[n].end_minute,
                    ),
                ]
            } else {
                seq![
                    put(slot_base(device_type, n + 1), 0),
                    put(slot_base(device_type, n + 1) + 1, 0),
                ]
            }) + target_write(device_type, n + 1, prior[n].target_soc)
        } else {
            seq![
                put(slot_base(device_type, n + 1), 0),
                put(slot_base(device_type, n + 1) + 1, 0),
            ]
        }),
{
}

} // verus!
