//! Register writes that enter and leave Timed Export.
use crate::model::{
    discharge_slot_limit, extended_schedule, some_configured, three_phase_family, any_configured,
    DeviceType, ScheduleSlot,
};
use crate::registers::{
    encode_hhmm, encoded, hhmm, packed_time, slot_writes, setting, ControlCommand, RegisterWrite,
    HR_3PH_DISCHARGE_SLOT_1_START, HR_3PH_DISCHARGE_SLOT_2_START, HR_3PH_FORCE_DISCHARGE_ENABLE,
    HR_BATTERY_POWER_MODE, HR_DISCHARGE_SLOT_1_START, HR_DISCHARGE_SLOT_2_START,
    HR_DISCHARGE_SLOT_3_START, HR_DISCHARGE_TARGET_SOC_1, HR_ENABLE_DISCHARGE,
};
use crate::text::{decimal, decimal_text, joined};
use vstd::prelude::*;

verus! {

/// The register that arms scheduled discharge on a model.
pub open spec fn discharge_enable_register(device_type: DeviceType) -> u16 {
    if three_phase_family(device_type) {
        HR_3PH_FORCE_DISCHARGE_ENABLE
    } else {
        HR_ENABLE_DISCHARGE
    }
}

/// The write that arms or disarms scheduled discharge.
pub open spec fn discharge_enable(device_type: DeviceType, enabled: bool) -> RegisterWrite {
    setting(
        discharge_enable_register(device_type),
        if enabled {
            1
        } else {
            0
        },
    )
}

/// The writes that disarm discharge and return to Eco, in this order: Eco before
/// the disarm would leave an armed schedule in an ambiguous mode.
pub open spec fn disarm_writes(device_type: DeviceType) -> Seq<RegisterWrite> {
    seq![discharge_enable(device_type, false), setting(HR_BATTERY_POWER_MODE, 1)]
}

/// The writes that select maximum power and arm discharge, in this order.
pub open spec fn arm_writes(device_type: DeviceType) -> Seq<RegisterWrite> {
    seq![setting(HR_BATTERY_POWER_MODE, 0), discharge_enable(device_type, true)]
}

/// The register that holds the start of a discharge slot; the next one holds
/// its end.
pub open spec fn slot_register(device_type: DeviceType, slot: int) -> u16 {
    if slot == 1 {
        if three_phase_family(device_type) {
            HR_3PH_DISCHARGE_SLOT_1_START
        } else {
            HR_DISCHARGE_SLOT_1_START
        }
    } else if slot == 2 {
        if three_phase_family(device_type) {
            HR_3PH_DISCHARGE_SLOT_2_START
        } else {
            HR_DISCHARGE_SLOT_2_START
        }
    } else {
        (HR_DISCHARGE_SLOT_3_START + 3 * (slot - 3)) as u16
    }
}

/// The writes of a discharge slot's times.
pub open spec fn slot_times(device_type: DeviceType, slot: int, start: u16, end: u16) -> Seq<
    RegisterWrite,
> {
    slot_writes(slot_register(device_type, slot), start, end)
}

/// The write of a discharge slot's target, where the model has one and the
/// target is one that the register takes.
pub open spec fn slot_target(device_type: DeviceType, slot: int, target_soc: u8) -> Seq<
    RegisterWrite,
> {
    if extended_schedule(device_type) && 4 <= target_soc <= 100 {
        seq![setting((HR_DISCHARGE_TARGET_SOC_1 + 3 * (slot - 1)) as u16, target_soc as u16)]
    } else {
        Seq::empty()
    }
}

/// The writes that clear the first `n` discharge slots.
pub open spec fn clear_slots(device_type: DeviceType, n: int) -> Seq<RegisterWrite>
    decreases n,
{
    if n <= 0 {
        Seq::empty()
    } else {
        clear_slots(device_type, n - 1) + slot_times(device_type, n, 0, 0)
    }
}

/// The writes that restore one wanted slot: none for a slot that is not
/// configured or whose times are not times of day.
pub open spec fn restore_slot(device_type: DeviceType, slot: int, wanted: ScheduleSlot) -> Seq<
    RegisterWrite,
> {
    match (hhmm(wanted.start_hour, wanted.start_minute), hhmm(wanted.end_hour, wanted.end_minute)) {
        (Some(start), Some(end)) => if wanted.configured() {
            slot_times(device_type, slot, start, end) + slot_target(
                device_type,
                slot,
                wanted.target_soc,
            )
        } else {
            Seq::empty()
        },
        _ => Seq::empty(),
    }
}

/// The writes that restore the first `n` wanted slots.
pub open spec fn restore_slots(device_type: DeviceType, slots: Seq<ScheduleSlot>, n: int) -> Seq<
    RegisterWrite,
>
    decreases n,
{
    if n <= 0 {
        Seq::empty()
    } else {
        restore_slots(device_type, slots, n - 1) + restore_slot(device_type, n, slots[n - 1])
    }
}

/// How many of `slots` the model has room for.
pub open spec fn restorable(device_type: DeviceType, slots: Seq<ScheduleSlot>) -> int {
    if slots.len() < discharge_slot_limit(device_type) {
        slots.len() as int
    } else {
        discharge_slot_limit(device_type)
    }
}

/// The times that put a slot back to what it was; a slot that was not
/// configured, or not with times of day, is cleared.
pub open spec fn prior_times(slot: int, prior: Seq<ScheduleSlot>) -> (u16, u16) {
    if slot - 1 < prior.len() && prior[slot - 1].configured() {
        let s = prior[slot - 1];
        match (hhmm(s.start_hour, s.start_minute), hhmm(s.end_hour, s.end_minute)) {
            (Some(start), Some(end)) => (start, end),
            _ => (0, 0),
        }
    } else {
        (0, 0)
    }
}

/// The target write that puts a slot back to what it was.
pub open spec fn prior_target(device_type: DeviceType, slot: int, prior: Seq<ScheduleSlot>) -> Seq<
    RegisterWrite,
> {
    if slot - 1 < prior.len() && prior[slot - 1].configured() {
        slot_target(device_type, slot, prior[slot - 1].target_soc)
    } else {
        Seq::empty()
    }
}

/// The writes that put the first `n` slots back to what they were.
pub open spec fn compensate_slots(device_type: DeviceType, prior: Seq<ScheduleSlot>, n: int) -> Seq<
    RegisterWrite,
>
    decreases n,
{
    if n <= 0 {
        Seq::empty()
    } else {
        let (start, end) = prior_times(n, prior);
        compensate_slots(device_type, prior, n - 1) + slot_times(device_type, n, start, end)
            + prior_target(device_type, n, prior)
    }
}

/// Arms or disarms scheduled discharge on the register that the model reads it
/// from.
pub fn timed_export_discharge_enable_write(device_type: DeviceType, enabled: bool) -> (r:
    RegisterWrite)
    ensures
        r == discharge_enable(device_type, enabled),
{
    RegisterWrite {
        address: if device_type.uses_three_phase_schedule_slots() {
            HR_3PH_FORCE_DISCHARGE_ENABLE
        } else {
            HR_ENABLE_DISCHARGE
        },
        value: if enabled {
            1
        } else {
            0
        },
    }
}

/// The writes that leave Timed Export and return the inverter to Eco.
pub fn build_timed_export_disable_writes(device_type: DeviceType) -> (r: Vec<RegisterWrite>)
    ensures
        r@ == disarm_writes(device_type),
{
    let r: Vec<RegisterWrite> = vec![
        timed_export_discharge_enable_write(device_type, false),
        RegisterWrite { address: HR_BATTERY_POWER_MODE, value: 1 },
    ];
    assert(r@ =~= disarm_writes(device_type));
    r
}

/// Whether discharge is armed although no slot bounds it and no forced discharge
/// is under way.
pub open spec fn unbounded(armed: bool, slots: Seq<ScheduleSlot>, forced: bool) -> bool {
    armed && !some_configured(slots) && !forced
}

/// Whether discharge is armed although no slot bounds it and no forced
/// discharge is under way, which the poll loop repairs.
pub fn should_repair_timed_export(
    enable_discharge: bool,
    slots: &[ScheduleSlot],
    force_discharge_in_progress: bool,
) -> (r: bool)
    ensures
        r == unbounded(enable_discharge, slots@, force_discharge_in_progress),
{
    enable_discharge && !any_configured(slots) && !force_discharge_in_progress
}

/// The command that sets the times of a discharge slot on a model, or why there
/// is none.
pub fn discharge_slot_command_for(device_type: DeviceType, slot: u8, start: u16, end: u16) -> (r:
    Result<ControlCommand, String>)
    ensures
        match r {
            Ok(command) => 1 <= slot <= 10 && encoded(command) == if packed_time(start)
                && packed_time(end) {
                Some(slot_times(device_type, slot as int, start, end))
            } else {
                None
            },
            Err(e) => !(1 <= slot <= 10) && e@ == "Unsupported discharge slot "@ + decimal(
                slot as nat,
            ),
        },
{
    if slot < 1 || slot > 10 {
        let number: String = decimal_text(slot as u16);
        return Err(joined("Unsupported discharge slot ", number.as_str()));
    }
    let three_phase: bool = device_type.uses_three_phase_schedule_slots();
    if slot == 1 {
        if three_phase {
            Ok(ControlCommand::SetThreePhaseDischargeSlot1 { start, end })
        } else {
            Ok(ControlCommand::SetDischargeSlot1 { start, end })
        }
    } else if slot == 2 {
        if three_phase {
            Ok(ControlCommand::SetThreePhaseDischargeSlot2 { start, end })
        } else {
            Ok(ControlCommand::SetDischargeSlot2 { start, end })
        }
    } else {
        Ok(ControlCommand::SetDischargeSlotN { slot, start, end })
    }
}

/// Appends the writes of a slot's times.
fn push_slot_times(
    out: &mut Vec<RegisterWrite>,
    device_type: DeviceType,
    slot: u8,
    start: u16,
    end: u16,
)
    requires
        1 <= slot <= 10,
        packed_time(start),
        packed_time(end),
    ensures
        final(out)@ == old(out)@ + slot_times(device_type, slot as int, start, end),
{
    match discharge_slot_command_for(device_type, slot, start, end) {
        Ok(command) => match command.encode() {
            Ok(mut writes) => {
                out.append(&mut writes);
            },
            Err(_) => {},
        },
        Err(_) => {},
    }
}

/// Appends the write of a slot's target, where there is one.
fn push_slot_target(
    out: &mut Vec<RegisterWrite>,
    device_type: DeviceType,
    slot: u8,
    target_soc: u8,
)
    requires
        1 <= slot <= 10,
    ensures
        final(out)@ == old(out)@ + slot_target(device_type, slot as int, target_soc),
{
    if device_type.uses_extended_schedule_slots() && target_soc > 0 {
        let command = ControlCommand::SetDischargeTargetSocSlot { slot, soc: target_soc as u16 };
        match command.encode() {
            Ok(mut writes) => {
                out.append(&mut writes);
            },
            Err(_) => {},
        }
    }
    assert(out@ =~= old(out)@ + slot_target(device_type, slot as int, target_soc));
}

/// The writes that clear every discharge slot of the model, so that firmware
/// which re-arms discharge from populated slots has nothing to re-arm from.
pub fn build_timed_export_slot_clear_writes(device_type: DeviceType) -> (r: Vec<RegisterWrite>)
    ensures
        r@ == clear_slots(device_type, discharge_slot_limit(device_type)),
{
    let mut out: Vec<RegisterWrite> = Vec::new();
    let limit: u8 = device_type.max_discharge_slots();
    let mut slot: u8 = 0;
    while slot < limit
        invariant
            slot <= limit <= 10,
            out@ == clear_slots(device_type, slot as int),
        decreases limit - slot,
    {
        slot += 1;
        push_slot_times(&mut out, device_type, slot, 0, 0);
    }
    out
}

/// The writes that restore the wanted export slots; slots that are not
/// configured are already clear.
pub fn build_timed_export_slot_restore_writes(
    device_type: DeviceType,
    slots: &[ScheduleSlot],
) -> (r: Vec<RegisterWrite>)
    ensures
        r@ == restore_slots(device_type, slots@, restorable(device_type, slots@)),
{
    let mut out: Vec<RegisterWrite> = Vec::new();
    let limit: u8 = device_type.max_discharge_slots();
    let mut n: u8 = 0;
    while n < limit && (n as usize) < slots.len()
        invariant
            n <= limit <= 10,
            n <= slots.len(),
            limit == discharge_slot_limit(device_type),
            out@ == restore_slots(device_type, slots@, n as int),
        decreases limit - n,
    {
        let wanted: ScheduleSlot = slots[n as usize];
        n += 1;
        if wanted.is_configured() {
            let start: Option<u16> = encode_hhmm(wanted.start_hour, wanted.start_minute);
            let end: Option<u16> = encode_hhmm(wanted.end_hour, wanted.end_minute);
            if let (Some(start), Some(end)) = (start, end) {
                let ghost before = out@;
                push_slot_times(&mut out, device_type, n, start, end);
                push_slot_target(&mut out, device_type, n, wanted.target_soc);
                assert(out@ =~= before + restore_slot(device_type, n as int, wanted));
            }
        }
        assert(out@ =~= restore_slots(device_type, slots@, n as int));
    }
    out
}

/// The writes that drive every discharge slot back to the schedule `prior`,
/// after an edit was only partly applied: configured slots are rewritten, the
/// others cleared.
pub fn build_timed_export_slot_compensation_writes(
    device_type: DeviceType,
    prior: &[ScheduleSlot],
) -> (r: Vec<RegisterWrite>)
    ensures
        r@ == compensate_slots(device_type, prior@, discharge_slot_limit(device_type)),
{
    let mut out: Vec<RegisterWrite> = Vec::new();
    let limit: u8 = device_type.max_discharge_slots();
    let mut slot: u8 = 0;
    while slot < limit
        invariant
            slot <= limit <= 10,
            limit == discharge_slot_limit(device_type),
            out@ == compensate_slots(device_type, prior@, slot as int),
        decreases limit - slot,
    {
        let index: usize = slot as usize;
        let configured: bool = index < prior.len() && prior[index].is_configured();
        let mut start: u16 = 0;
        let mut end: u16 = 0;
        if configured {
            let s: ScheduleSlot = prior[index];
            let from: Option<u16> = encode_hhmm(s.start_hour, s.start_minute);
            let to: Option<u16> = encode_hhmm(s.end_hour, s.end_minute);
            if let (Some(from), Some(to)) = (from, to) {
                start = from;
                end = to;
            }
        }
        slot += 1;
        assert((start, end) == prior_times(slot as int, prior@));
        push_slot_times(&mut out, device_type, slot, start, end);
        if configured {
            push_slot_target(&mut out, device_type, slot, prior[index].target_soc);
        }
        assert(out@ =~= compensate_slots(device_type, prior@, slot as int));
    }
    out
}

} // verus!
