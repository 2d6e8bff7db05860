//! Times, models and writes in plain numbers, for the laws to be stated in.
use crate::model::{DeviceType, ScheduleSlot};
use crate::quantity::Quantity;
use crate::registers::RegisterWrite;
use vstd::prelude::*;

verus! {

/// Whether the daily window between two clock times is open at a minute of the
/// day. It closes with its end, goes past midnight where it ends before it
/// starts, and is never open where it ends as it starts.
pub open spec fn open_at(
    start_hour: u8,
    start_minute: u8,
    end_hour: u8,
    end_minute: u8,
    now: int,
) -> bool {
    let start = 60 * start_hour + start_minute;
    let end = 60 * end_hour + end_minute;
    ||| start < end && start <= now && now < end
    ||| end < start && (now >= start || now < end)
}

/// Whether a slot is enabled and its window is open.
pub open spec fn slot_open(slot: ScheduleSlot, now: int) -> bool {
    slot.enabled && open_at(
        slot.start_hour,
        slot.start_minute,
        slot.end_hour,
        slot.end_minute,
        now,
    )
}

/// Whether a slot is enabled and has a window at all.
pub open spec fn slot_set(slot: ScheduleSlot) -> bool {
    slot.enabled && 60 * slot.start_hour + slot.start_minute != 60 * slot.end_hour
        + slot.end_minute
}

/// The models that keep their schedule in the three-phase block.
pub open spec fn three_phase_block(device_type: DeviceType) -> bool {
    match device_type {
        DeviceType::ThreePhase
        | DeviceType::ACThreePhase
        | DeviceType::AioCommercial
        | DeviceType::HybridHvGen3
        | DeviceType::AllInOneHybrid => true,
        _ => false,
    }
}

/// The models with ten slots and a target for each.
pub open spec fn ten_slots(device_type: DeviceType) -> bool {
    match device_type {
        DeviceType::Gen3Hybrid
        | DeviceType::AllInOne6kW
        | DeviceType::AllInOne3_6kW
        | DeviceType::AllInOne5kW => true,
        _ => three_phase_block(device_type),
    }
}

/// The models that stand for a plant.
pub open spec fn plant(device_type: DeviceType) -> bool {
    match device_type {
        DeviceType::Gateway | DeviceType::Ems | DeviceType::EmsCommercial => true,
        _ => false,
    }
}

/// A register and what is written to it.
pub open spec fn put(address: int, value: int) -> RegisterWrite {
    RegisterWrite { address: address as u16, value: value as u16 }
}

/// Whether both quantities are numbers and the first is below the second.
pub open spec fn less(a: Quantity, b: Quantity) -> bool {
    match (a, b) {
        (Quantity::Nano(x), Quantity::Nano(y)) => x < y,
        _ => false,
    }
}

/// Whether both quantities are numbers and the first is not above the second.
pub open spec fn no_more(a: Quantity, b: Quantity) -> bool {
    match (a, b) {
        (Quantity::Nano(x), Quantity::Nano(y)) => x <= y,
        _ => false,
    }
}

} // verus!
