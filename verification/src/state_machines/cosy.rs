//! Charge slots of the Cosy tariff.
use crate::model::{extended_schedule, three_phase_family, DeviceType};
use crate::registers::{
    encode_hhmm, hhmm, setting, RegisterWrite, HR_3PH_CHARGE_SLOT_1_END, HR_3PH_CHARGE_SLOT_1_START,
    HR_CHARGE_SLOT_1_END, HR_CHARGE_SLOT_1_START, HR_CHARGE_TARGET_SOC, HR_CHARGE_TARGET_SOC_1,
    HR_ENABLE_CHARGE, HR_ENABLE_CHARGE_TARGET,
};
use crate::settings::CosySlot;
use vstd::prelude::*;

verus! {

/// The writes of the first charge slot's times.
pub open spec fn charge_times(device_type: DeviceType, start: u16, end: u16) -> Seq<RegisterWrite> {
    if three_phase_family(device_type) {
        seq![
            setting(HR_3PH_CHARGE_SLOT_1_START, start),
            setting(HR_3PH_CHARGE_SLOT_1_END, end),
        ]
    } else {
        seq![setting(HR_CHARGE_SLOT_1_START, start), setting(HR_CHARGE_SLOT_1_END, end)]
    }
}

/// The writes that make the inverter charge by the first slot up to a target.
pub open spec fn charge_enable(device_type: DeviceType, target_soc: u8) -> Seq<RegisterWrite> {
    let base = seq![
        setting(HR_ENABLE_CHARGE, 1),
        setting(HR_ENABLE_CHARGE_TARGET, 1),
        setting(HR_CHARGE_TARGET_SOC, target_soc as u16),
    ];
    if extended_schedule(device_type) {
        base.push(setting(HR_CHARGE_TARGET_SOC_1, target_soc as u16))
    } else {
        base
    }
}

/// The writes of a Cosy slot: the times, and if the slot is running what makes
/// the inverter act on them. A slot whose times are not times of day is skipped.
pub open spec fn cosy_writes(slot: CosySlot, device_type: DeviceType, active: bool) -> Seq<
    RegisterWrite,
> {
    match (hhmm(slot.start_hour, slot.start_minute), hhmm(slot.end_hour, slot.end_minute)) {
        (Some(start), Some(end)) => charge_times(device_type, start, end) + if active {
            charge_enable(device_type, slot.target_soc)
        } else {
            Seq::empty()
        },
        _ => Seq::empty(),
    }
}

fn times_of_charge(device_type: DeviceType, start: u16, end: u16) -> (r: Vec<RegisterWrite>)
    ensures
        r@ == charge_times(device_type, start, end),
{
    let r: Vec<RegisterWrite> = if device_type.uses_three_phase_schedule_slots() {
        vec![
            RegisterWrite { address: HR_3PH_CHARGE_SLOT_1_START, value: start },
            RegisterWrite { address: HR_3PH_CHARGE_SLOT_1_END, value: end },
        ]
    } else {
        vec![
            RegisterWrite { address: HR_CHARGE_SLOT_1_START, value: start },
            RegisterWrite { address: HR_CHARGE_SLOT_1_END, value: end },
        ]
    };
    assert(r@ =~= charge_times(device_type, start, end));
    r
}

/// The writes that program a Cosy slot.
///
/// A running slot (`active`) gets its times, charging enabled and its target. A
/// slot that is only preloaded gets its times, so that nothing charges yet.
pub fn cosy_slot_register_writes(slot: &CosySlot, device_type: DeviceType, active: bool) -> (r: Vec<
    RegisterWrite,
>)
    ensures
        r@ == cosy_writes(*slot, device_type, active),
{
    let start: Option<u16> = encode_hhmm(slot.start_hour, slot.start_minute);
    let end: Option<u16> = encode_hhmm(slot.end_hour, slot.end_minute);
    if let (Some(start), Some(end)) = (start, end) {
        let mut writes: Vec<RegisterWrite> = times_of_charge(device_type, start, end);
        if active {
            writes.push(RegisterWrite { address: HR_ENABLE_CHARGE, value: 1 });
            writes.push(RegisterWrite { address: HR_ENABLE_CHARGE_TARGET, value: 1 });
            writes.push(
                RegisterWrite { address: HR_CHARGE_TARGET_SOC, value: slot.target_soc as u16 },
            );
            if device_type.uses_extended_schedule_slots() {
                writes.push(
                    RegisterWrite {
                        address: HR_CHARGE_TARGET_SOC_1,
                        value: slot.target_soc as u16,
                    },
                );
            }
        }
        assert(writes@ =~= cosy_writes(*slot, device_type, active));
        return writes;
    }
    let none: Vec<RegisterWrite> = Vec::new();
    assert(none@ =~= Seq::<RegisterWrite>::empty());
    none
}

/// The writes that clear the first charge slot and stop charging by it.
pub open spec fn cosy_clear_writes(device_type: DeviceType) -> Seq<RegisterWrite> {
    charge_times(device_type, 0, 0) + seq![
        setting(HR_ENABLE_CHARGE, 0),
        setting(HR_ENABLE_CHARGE_TARGET, 0),
    ]
}

/// The writes that clear the first charge slot and stop charging by it.
pub fn clear_cosy_slot_registers(device_type: DeviceType) -> (r: Vec<RegisterWrite>)
    ensures
        r@ == cosy_clear_writes(device_type),
{
    let mut writes: Vec<RegisterWrite> = times_of_charge(device_type, 0, 0);
    writes.push(RegisterWrite { address: HR_ENABLE_CHARGE, value: 0 });
    writes.push(RegisterWrite { address: HR_ENABLE_CHARGE_TARGET, value: 0 });
    assert(writes@ =~= cosy_clear_writes(device_type));
    writes
}

} // verus!
