//! Schedule slots whose times were corrupted.
use crate::model::ScheduleSlot;
use vstd::prelude::*;

verus! {

/// Slots that start and last no longer than this many minutes look like small
/// corrupted register values.
pub const TINY_SLOT_MINUTES: u16 = 10;

/// Length of the slot's window in minutes; one that ends before it starts runs
/// past midnight.
pub open spec fn duration(slot: ScheduleSlot) -> int {
    if slot.end() >= slot.start() {
        slot.end() - slot.start()
    } else {
        24 * 60 - slot.start() + slot.end()
    }
}

/// Whether `slot` is a tiny window just after midnight where the previous
/// snapshot had a real one.
pub open spec fn slot_corrupted(slot: ScheduleSlot, prev: ScheduleSlot) -> bool {
    &&& slot.enabled && slot.start() <= TINY_SLOT_MINUTES && duration(slot) <= TINY_SLOT_MINUTES
    &&& prev.enabled && duration(prev) > TINY_SLOT_MINUTES
}

/// The slot to use.
pub open spec fn kept_slot(slot: ScheduleSlot, prev: ScheduleSlot) -> ScheduleSlot {
    if slot_corrupted(slot, prev) {
        prev
    } else {
        slot
    }
}

/// Start of the slot's window in minutes since midnight.
pub fn slot_start_minutes(slot: &ScheduleSlot) -> (r: u16)
    ensures
        r == slot.start(),
{
    slot.start_minutes()
}

/// Length of the slot's window in minutes.
pub fn slot_duration_minutes(slot: &ScheduleSlot) -> (r: i32)
    ensures
        r == duration(*slot),
{
    let start: i32 = slot.start_minutes() as i32;
    let end: i32 = slot.end_minutes() as i32;
    if end >= start {
        end - start
    } else {
        24 * 60 - start + end
    }
}

/// Puts back the slots of the previous snapshot whose times were corrupted.
/// Returns whether any was.
pub fn check_slot_times(slots: &mut [ScheduleSlot; 10], prev: &[ScheduleSlot; 10]) -> (r: bool)
    ensures
        forall|i: int|
            0 <= i < 10 ==> #[trigger] final(slots)@[i] == kept_slot(old(slots)@[i], prev@[i]),
        r == exists|i: int| 0 <= i < 10 && slot_corrupted(#[trigger] old(slots)@[i], prev@[i]),
{
    let ghost before = slots@;
    let mut flagged: bool = false;
    let mut i: usize = 0;
    while i < 10
        invariant
            i <= 10,
            before.len() == 10,
            forall|j: int|
                0 <= j < 10 ==> #[trigger] slots@[j] == if j < i {
                    kept_slot(before[j], prev@[j])
                } else {
                    before[j]
                },
            flagged == exists|j: int| 0 <= j < i && slot_corrupted(#[trigger] before[j], prev@[j]),
        decreases 10 - i,
    {
        let slot: ScheduleSlot = slots[i];
        let last: ScheduleSlot = prev[i];
        assert(slot == before[i as int]);
        if slot.enabled && slot_start_minutes(&slot) <= TINY_SLOT_MINUTES && slot_duration_minutes(
            &slot,
        ) <= TINY_SLOT_MINUTES as i32 && last.enabled && slot_duration_minutes(&last)
            > TINY_SLOT_MINUTES as i32 {
            slots[i] = last;
            flagged = true;
        }
        i += 1;
    }
    flagged
}

} // verus!
