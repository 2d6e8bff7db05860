//! Values whose register block or module was not read this poll.
use crate::model::{extended_schedule, plant_controller, three_phase_family};
use crate::model::{BatteryModule, DeviceType, InverterSnapshot, ScheduleSlot};
use crate::ordering::{in_order, lemma_insert_position, lemma_stable_sort, ranks, stable_sort};
use vstd::prelude::*;

verus! {

/// Models whose limits and pause window live in the AC configuration block.
pub open spec fn has_ac_config(device_type: DeviceType) -> bool {
    device_type is ACCoupled || device_type is ACCoupledMk2 || device_type is ACThreePhase
}

/// Which optional blocks were read this poll.
pub struct BlocksRead {
    pub ac_config: bool,
    pub extended_slots: bool,
    pub three_phase_config: bool,
    pub ems_plant: bool,
}

impl BlocksRead {
    /// Whether the AC configuration was missed.
    pub open spec fn ac_missed(self, snap: InverterSnapshot, prev: InverterSnapshot) -> bool {
        !self.ac_config && has_ac_config(snap.device_type) && snap.device_type == prev.device_type
    }

    /// Whether the three-phase configuration was missed.
    pub open spec fn three_phase_missed(
        self,
        snap: InverterSnapshot,
        prev: InverterSnapshot,
    ) -> bool {
        !self.three_phase_config && three_phase_family(snap.device_type) && snap.device_type
            == prev.device_type
    }

    /// Whether the extended slots were missed.
    pub open spec fn slots_missed(self, snap: InverterSnapshot, prev: InverterSnapshot) -> bool {
        !self.extended_slots && extended_schedule(snap.device_type) && snap.device_type
            == prev.device_type
    }

    /// Whether the export limit of a plant was missed.
    pub open spec fn export_missed(self, snap: InverterSnapshot, prev: InverterSnapshot) -> bool {
        !self.ems_plant && plant_controller(snap.device_type) && snap.device_type
            == prev.device_type && snap.export_limit_w == 0 && prev.export_limit_w > 0
    }
}

/// Whether two slots differ in more than their target.
pub open spec fn window_differs(a: ScheduleSlot, b: ScheduleSlot) -> bool {
    a.enabled != b.enabled || a.start_hour != b.start_hour || a.start_minute != b.start_minute
        || a.end_hour != b.end_hour || a.end_minute != b.end_minute
}

/// A slot whose extended registers were missed: the first two keep their own
/// times and take the previous target, the others exist only in the missed
/// block.
pub open spec fn carried_slot(i: int, slot: ScheduleSlot, prev: ScheduleSlot) -> ScheduleSlot {
    if i < 2 {
        if slot.target_soc == 4 && prev.target_soc > 4 {
            ScheduleSlot { target_soc: prev.target_soc, ..slot }
        } else {
            slot
        }
    } else if !slot.enabled && prev.enabled {
        prev
    } else {
        slot
    }
}

/// `snap` with what is carried forward from `prev`, except slots.
pub open spec fn carried(
    snap: InverterSnapshot,
    prev: InverterSnapshot,
    read: BlocksRead,
) -> InverterSnapshot {
    let ac = read.ac_missed(snap, prev);
    let three_phase = read.three_phase_missed(snap, prev);
    InverterSnapshot {
        charge_rate: if ac || three_phase {
            prev.charge_rate
        } else {
            snap.charge_rate
        },
        discharge_rate: if ac || three_phase {
            prev.discharge_rate
        } else {
            snap.discharge_rate
        },
        battery_reserve: if three_phase {
            prev.battery_reserve
        } else {
            snap.battery_reserve
        },
        target_soc: if three_phase {
            prev.target_soc
        } else {
            snap.target_soc
        },
        ac_export_priority: if ac {
            prev.ac_export_priority
        } else {
            snap.ac_export_priority
        },
        ac_eps_enabled: if ac {
            prev.ac_eps_enabled
        } else {
            snap.ac_eps_enabled
        },
        battery_pause_mode: if ac {
            prev.battery_pause_mode
        } else {
            snap.battery_pause_mode
        },
        battery_pause_slot: if ac && window_differs(
            snap.battery_pause_slot,
            prev.battery_pause_slot,
        ) {
            prev.battery_pause_slot
        } else {
            snap.battery_pause_slot
        },
        export_limit_w: if read.export_missed(snap, prev) {
            prev.export_limit_w
        } else {
            snap.export_limit_w
        },
        ..snap
    }
}

/// Whether a carried value differs from what was decoded.
pub open spec fn config_changed(
    snap: InverterSnapshot,
    prev: InverterSnapshot,
    read: BlocksRead,
) -> bool {
    ||| read.ac_missed(snap, prev) && (snap.charge_rate != prev.charge_rate || snap.discharge_rate
        != prev.discharge_rate || snap.ac_export_priority != prev.ac_export_priority
        || snap.ac_eps_enabled != prev.ac_eps_enabled || snap.battery_pause_mode
        != prev.battery_pause_mode || window_differs(
        snap.battery_pause_slot,
        prev.battery_pause_slot,
    ))
    ||| read.three_phase_missed(snap, prev) && (snap.charge_rate != prev.charge_rate
        || snap.discharge_rate != prev.discharge_rate || snap.battery_reserve
        != prev.battery_reserve || snap.target_soc != prev.target_soc)
    ||| read.export_missed(snap, prev)
}

/// Whether some carried slot differs from the decoded one.
pub open spec fn slots_changed(slots: Seq<ScheduleSlot>, prev: Seq<ScheduleSlot>) -> bool {
    exists|i: int| 0 <= i < 10 && carried_slot(i, #[trigger] slots[i], prev[i]) != slots[i]
}

/// `snap` with its slots taken from `from`.
pub open spec fn with_slots_of(snap: InverterSnapshot, from: InverterSnapshot) -> InverterSnapshot {
    InverterSnapshot {
        charge_slots: from.charge_slots,
        discharge_slots: from.discharge_slots,
        ..snap
    }
}

/// Carries one bank of slots forward. Returns whether any changed.
fn carry_slots(slots: &mut [ScheduleSlot; 10], prev: &[ScheduleSlot; 10]) -> (r: bool)
    ensures
        forall|i: int|
            0 <= i < 10 ==> #[trigger] final(slots)@[i] == carried_slot(
                i,
                old(slots)@[i],
                prev@[i],
            ),
        r == slots_changed(old(slots)@, prev@),
{
    let ghost before = slots@;
    let mut changed: bool = false;
    let mut i: usize = 0;
    while i < 10
        invariant
            i <= 10,
            before.len() == 10,
            forall|j: int|
                0 <= j < 10 ==> #[trigger] slots@[j] == if j < i {
                    carried_slot(j, before[j], prev@[j])
                } else {
                    before[j]
                },
            changed == exists|j: int|
                0 <= j < i && carried_slot(j, #[trigger] before[j], prev@[j]) != before[j],
        decreases 10 - i,
    {
        let slot: ScheduleSlot = slots[i];
        let last: ScheduleSlot = prev[i];
        assert(slot == before[i as int]);
        if i < 2 {
            if slot.target_soc == 4 && last.target_soc > 4 {
                let mut targeted: ScheduleSlot = slot;
                targeted.target_soc = last.target_soc;
                slots[i] = targeted;
                changed = true;
                assert(carried_slot(i as int, before[i as int], prev@[i as int])
                    != before[i as int]);
            }
        } else if !slot.enabled && last.enabled {
            slots[i] = last;
            changed = true;
            assert(carried_slot(i as int, before[i as int], prev@[i as int]) != before[i as int]);
        }
        i += 1;
    }
    changed
}

/// Carries forward what the missed configuration blocks hold, slots aside.
/// Returns whether anything changed.
fn carry_config(snap: &mut InverterSnapshot, prev: &InverterSnapshot, read: &BlocksRead) -> (r: bool)
    ensures
        *final(snap) == carried(*old(snap), *prev, *read),
        r == config_changed(*old(snap), *prev, *read),
{
    let same: bool = snap.device_type == prev.device_type;
    let ac_model: bool = match snap.device_type {
        DeviceType::ACCoupled | DeviceType::ACCoupledMk2 | DeviceType::ACThreePhase => true,
        _ => false,
    };
    let ac: bool = !read.ac_config && ac_model && same;
    let three_phase: bool = !read.three_phase_config
        && snap.device_type.needs_three_phase_input_blocks() && same;
    let export: bool = !read.ems_plant && snap.device_type.needs_gateway_input_blocks() && same
        && snap.export_limit_w == 0 && prev.export_limit_w > 0;
    let rates: bool = snap.charge_rate != prev.charge_rate || snap.discharge_rate
        != prev.discharge_rate;
    let a: ScheduleSlot = snap.battery_pause_slot;
    let b: ScheduleSlot = prev.battery_pause_slot;
    let window: bool = a.enabled != b.enabled || a.start_hour != b.start_hour || a.start_minute
        != b.start_minute || a.end_hour != b.end_hour || a.end_minute != b.end_minute;
    let ac_changed: bool = ac && (rates || snap.ac_export_priority != prev.ac_export_priority
        || snap.ac_eps_enabled != prev.ac_eps_enabled || snap.battery_pause_mode
        != prev.battery_pause_mode || window);
    let three_phase_changed: bool = three_phase && (rates || snap.battery_reserve
        != prev.battery_reserve || snap.target_soc != prev.target_soc);
    if ac || three_phase {
        snap.charge_rate = prev.charge_rate;
        snap.discharge_rate = prev.discharge_rate;
    }
    if ac {
        snap.ac_export_priority = prev.ac_export_priority;
        snap.ac_eps_enabled = prev.ac_eps_enabled;
        snap.battery_pause_mode = prev.battery_pause_mode;
        if window {
            snap.battery_pause_slot = b;
        }
    }
    if three_phase {
        snap.battery_reserve = prev.battery_reserve;
        snap.target_soc = prev.target_soc;
    }
    if export {
        snap.export_limit_w = prev.export_limit_w;
    }
    ac_changed || three_phase_changed || export
}

/// Keeps the previous values of the optional register blocks that were not read
/// this poll, so that they do not fall back to defaults for a cycle. Returns
/// whether anything was restored.
pub fn carry_forward_optional_block_values(
    snap: &mut InverterSnapshot,
    prev: Option<&InverterSnapshot>,
    has_ac_config_block: bool,
    has_extended_slots_block: bool,
    has_three_phase_config_block: bool,
    has_ems_plant_block: bool,
) -> (r: bool)
    ensures
        match prev {
            None => *final(snap) == *old(snap) && !r,
            Some(p) => {
                let read = BlocksRead {
                    ac_config: has_ac_config_block,
                    extended_slots: has_extended_slots_block,
                    three_phase_config: has_three_phase_config_block,
                    ems_plant: has_ems_plant_block,
                };
                &&& *final(snap) == with_slots_of(carried(*old(snap), *p, read), *final(snap))
                &&& if read.slots_missed(*old(snap), *p) {
                    forall|i: int|
                        0 <= i < 10 ==> #[trigger] final(snap).charge_slots@[i] == carried_slot(
                            i,
                            old(snap).charge_slots@[i],
                            p.charge_slots@[i],
                        ) && final(snap).discharge_slots@[i] == carried_slot(
                            i,
                            old(snap).discharge_slots@[i],
                            p.discharge_slots@[i],
                        )
                } else {
                    final(snap).charge_slots == old(snap).charge_slots
                        && final(snap).discharge_slots == old(snap).discharge_slots
                }
                &&& r == (config_changed(*old(snap), *p, read) || (read.slots_missed(
                    *old(snap),
                    *p,
                ) && (slots_changed(old(snap).charge_slots@, p.charge_slots@) || slots_changed(
                    old(snap).discharge_slots@,
                    p.discharge_slots@,
                ))))
            },
        },
{
    match prev {
        None => false,
        Some(p) => {
            let read = BlocksRead {
                ac_config: has_ac_config_block,
                extended_slots: has_extended_slots_block,
                three_phase_config: has_three_phase_config_block,
                ems_plant: has_ems_plant_block,
            };
            let slots: bool = !has_extended_slots_block
                && snap.device_type.uses_extended_schedule_slots() && snap.device_type
                == p.device_type;
            let config: bool = carry_config(snap, p, &read);
            if slots {
                let charge: bool = carry_slots(&mut snap.charge_slots, &p.charge_slots);
                let discharge: bool = carry_slots(&mut snap.discharge_slots, &p.discharge_slots);
                config || charge || discharge
            } else {
                config
            }
        },
    }
}

/// Modules in the order of their positions.
pub open spec fn by_index() -> spec_fn(BatteryModule, BatteryModule) -> bool {
    |a: BatteryModule, b: BatteryModule| a.index < b.index
}

/// Whether a module at `index` is among `modules`.
pub open spec fn has_index(modules: Seq<BatteryModule>, index: usize) -> bool {
    exists|i: int| 0 <= i < modules.len() && (#[trigger] modules[i]).index == index
}

/// The modules of `prev` that are not among `modules`.
pub open spec fn missing_modules(prev: Seq<BatteryModule>, modules: Seq<BatteryModule>) -> Seq<
    BatteryModule,
> {
    prev.filter(|m: BatteryModule| !has_index(modules, m.index))
}

/// The modules to report.
pub open spec fn carried_modules(
    modules: Seq<BatteryModule>,
    prev: Option<Seq<BatteryModule>>,
) -> Seq<BatteryModule> {
    match prev {
        None => modules,
        Some(p) => if modules.len() == 0 {
            p
        } else if missing_modules(p, modules).len() > 0 {
            stable_sort(modules + missing_modules(p, modules), by_index())
        } else {
            modules
        },
    }
}

fn contains_index(modules: &[BatteryModule], index: usize) -> (r: bool)
    ensures
        r == has_index(modules@, index),
{
    let mut i: usize = 0;
    while i < modules.len()
        invariant
            i <= modules.len(),
            forall|j: int| 0 <= j < i ==> (#[trigger] modules[j]).index != index,
        decreases modules.len() - i,
    {
        if modules[i].index == index {
            return true;
        }
        i += 1;
    }
    false
}

/// Adds `module` to `sorted`, behind those of the same or an earlier position.
fn insert_module(sorted: &mut Vec<BatteryModule>, module: BatteryModule)
    ensures
        final(sorted)@ == crate::ordering::insert_ordered(old(sorted)@, module, by_index()),
{
    let mut at: usize = sorted.len();
    while at > 0 && module.index < sorted[at - 1].index
        invariant
            at <= sorted.len(),
            sorted@ == old(sorted)@,
            forall|k: int| at <= k < sorted.len() ==> module.index < (#[trigger] sorted[k]).index,
        decreases at,
    {
        at -= 1;
    }
    proof {
        lemma_insert_position(sorted@, module, by_index(), at as int);
    }
    sorted.insert(at, module);
}

/// Sorts `modules` by position.
fn sort_modules(modules: &Vec<BatteryModule>) -> (r: Vec<BatteryModule>)
    ensures
        r@ == stable_sort(modules@, by_index()),
{
    let mut sorted: Vec<BatteryModule> = Vec::new();
    let mut i: usize = 0;
    assert(modules@.take(0) =~= Seq::<BatteryModule>::empty());
    assert(sorted@ =~= Seq::<BatteryModule>::empty());
    while i < modules.len()
        invariant
            i <= modules.len(),
            sorted@ == stable_sort(modules@.take(i as int), by_index()),
        decreases modules.len() - i,
    {
        proof {
            let next = modules@.take(i + 1);
            assert(next.drop_last() =~= modules@.take(i as int));
            assert(next.last() == modules@[i as int]);
        }
        insert_module(&mut sorted, modules[i]);
        i += 1;
    }
    assert(modules@.take(i as int) =~= modules@);
    sorted
}

/// Copies a stack of modules.
fn copy_modules(modules: &[BatteryModule]) -> (r: Vec<BatteryModule>)
    ensures
        r@ == modules@,
{
    let mut out: Vec<BatteryModule> = Vec::new();
    let mut i: usize = 0;
    while i < modules.len()
        invariant
            i <= modules.len(),
            out@ == modules@.take(i as int),
        decreases modules.len() - i,
    {
        out.push(modules[i]);
        i += 1;
        assert(out@ =~= modules@.take(i as int));
    }
    assert(out@ =~= modules@);
    out
}

/// Modules read this poll followed by the previous ones that are missing.
fn join_modules(modules: &Vec<BatteryModule>, prev: &[BatteryModule]) -> (r: Vec<BatteryModule>)
    ensures
        r@ == modules@ + missing_modules(prev@, modules@),
{
    let mut joined: Vec<BatteryModule> = copy_modules(modules.as_slice());
    let ghost wanted = |m: BatteryModule| !has_index(modules@, m.index);
    let mut i: usize = 0;
    proof {
        reveal(Seq::filter);
        assert(prev@.take(0) =~= Seq::<BatteryModule>::empty());
        assert(joined@ =~= modules@ + prev@.take(0).filter(wanted));
    }
    while i < prev.len()
        invariant
            i <= prev.len(),
            wanted == (|m: BatteryModule| !has_index(modules@, m.index)),
            joined@ == modules@ + prev@.take(i as int).filter(wanted),
        decreases prev.len() - i,
    {
        let module: BatteryModule = prev[i];
        proof {
            reveal(Seq::filter);
            let next = prev@.take(i + 1);
            assert(next.drop_last() =~= prev@.take(i as int));
            assert(next.last() == module);
        }
        if !contains_index(modules.as_slice(), module.index) {
            joined.push(module);
            assert(joined@ =~= modules@ + prev@.take(i + 1).filter(wanted));
        }
        i += 1;
    }
    assert(prev@.take(i as int) =~= prev@);
    joined
}

/// The modules of a possible previous stack.
pub open spec fn module_view(prev: Option<&[BatteryModule]>) -> Option<Seq<BatteryModule>> {
    match prev {
        Some(p) => Some(p@),
        None => None,
    }
}

/// Keeps the previous data of battery modules that could not be read this poll.
///
/// If none was read, all of them are kept as they were. If some were missed,
/// they are filled in and the result is sorted by position.
pub fn carry_forward_battery_modules_with(
    snap: &mut InverterSnapshot,
    prev_modules: Option<&[BatteryModule]>,
)
    ensures
        final(snap).battery_modules@ == carried_modules(
            old(snap).battery_modules@,
            module_view(prev_modules),
        ),
        *final(snap) == (InverterSnapshot {
            battery_modules: final(snap).battery_modules,
            ..*old(snap)
        }),
{
    if let Some(prev) = prev_modules {
        if snap.battery_modules.len() == 0 {
            snap.battery_modules = copy_modules(prev);
            return;
        }
        let joined: Vec<BatteryModule> = join_modules(&snap.battery_modules, prev);
        if joined.len() > snap.battery_modules.len() {
            snap.battery_modules = sort_modules(&joined);
        }
    }
}

/// Filling in missing modules keeps every module that was read, puts them in
/// the order of their positions, and brings back no position that was read.
pub proof fn law_carried_modules_complete(
    modules: Seq<BatteryModule>,
    prev: Seq<BatteryModule>,
)
    requires
        modules.len() > 0,
        missing_modules(prev, modules).len() > 0,
    ensures
        ({
            let out = carried_modules(modules, Some(prev));
            &&& in_order(out, by_index())
            &&& out.to_multiset() == modules.to_multiset().add(
                missing_modules(prev, modules).to_multiset(),
            )
            &&& forall|i: int|
                0 <= i < missing_modules(prev, modules).len() ==> !has_index(
                    modules,
                    (#[trigger] missing_modules(prev, modules)[i]).index,
                )
        }),
{
    let missing = missing_modules(prev, modules);
    let joined = modules + missing;
    assert(ranks(by_index()));
    lemma_stable_sort(joined, by_index());
    vstd::seq_lib::lemma_multiset_commutative(modules, missing);
    let wanted = |m: BatteryModule| !has_index(modules, m.index);
    assert forall|i: int| 0 <= i < missing.len() implies !has_index(
        modules,
        (#[trigger] missing[i]).index,
    ) by {
        prev.lemma_filter_pred(wanted, i);
        assert(wanted(missing[i]));
    }
}

/// No module that was there goes missing: what was read is reported as it was
/// read, and every previous position is still there.
pub proof fn law_no_module_goes_missing(modules: Seq<BatteryModule>, prev: Seq<BatteryModule>)
    ensures
        forall|i: int|
            0 <= i < modules.len() ==> carried_modules(modules, Some(prev)).contains(
                #[trigger] modules[i],
            ),
        forall|i: int|
            0 <= i < prev.len() ==> has_index(
                carried_modules(modules, Some(prev)),
                (#[trigger] prev[i]).index,
            ),
{
    let out = carried_modules(modules, Some(prev));
    let missing = missing_modules(prev, modules);
    let wanted = |m: BatteryModule| !has_index(modules, m.index);
    let joined = modules + missing;
    if modules.len() > 0 && missing.len() > 0 {
        lemma_stable_sort(joined, by_index());
    }
    assert forall|m: BatteryModule| modules.len() > 0 && joined.contains(m) implies out.contains(
        m,
    ) by {
        if missing.len() == 0 {
            assert(joined =~= modules);
        } else {
            joined.to_multiset_ensures();
            out.to_multiset_ensures();
            assert(out.to_multiset().count(m) > 0);
        }
    }
    assert forall|i: int| 0 <= i < modules.len() implies out.contains(#[trigger] modules[i]) by {
        assert(joined[i] == modules[i]);
    }
    assert forall|i: int| 0 <= i < prev.len() implies has_index(out, (#[trigger] prev[i]).index) by {
        if modules.len() > 0 {
            if has_index(modules, prev[i].index) {
                let j = choose|j: int|
                    0 <= j < modules.len() && (#[trigger] modules[j]).index == prev[i].index;
                assert(out.contains(modules[j]));
                let k = choose|k: int| 0 <= k < out.len() && out[k] == modules[j];
                assert(out[k].index == prev[i].index);
            } else {
                assert(wanted(prev[i]));
                prev.lemma_filter_contains(wanted, i);
                let j = choose|j: int| 0 <= j < missing.len() && missing[j] == prev[i];
                assert(joined[modules.len() + j] == prev[i]);
                assert(out.contains(prev[i]));
                let k = choose|k: int| 0 <= k < out.len() && out[k] == prev[i];
                assert(out[k].index == prev[i].index);
            }
        }
    }
}

/// Nothing is carried forward where every block was read, or where the model
/// changed since the previous snapshot.
pub proof fn law_nothing_carried_without_a_missed_block(
    snap: InverterSnapshot,
    prev: InverterSnapshot,
    read: BlocksRead,
)
    requires
        snap.device_type != prev.device_type || read.ac_config && read.extended_slots
            && read.three_phase_config && read.ems_plant,
    ensures
        carried(snap, prev, read) == snap,
        !config_changed(snap, prev, read),
        !read.slots_missed(snap, prev),
{
}

/// The configuration is reported as changed exactly where carrying it forward
/// changes the snapshot.
pub proof fn law_change_is_reported(
    snap: InverterSnapshot,
    prev: InverterSnapshot,
    read: BlocksRead,
)
    ensures
        config_changed(snap, prev, read) <==> carried(snap, prev, read) != snap,
{
    let out = carried(snap, prev, read);
    if config_changed(snap, prev, read) {
        assert(out.charge_rate != snap.charge_rate || out.discharge_rate != snap.discharge_rate
            || out.battery_reserve != snap.battery_reserve || out.target_soc != snap.target_soc
            || out.ac_export_priority != snap.ac_export_priority || out.ac_eps_enabled
            != snap.ac_eps_enabled || out.battery_pause_mode != snap.battery_pause_mode
            || out.battery_pause_slot != snap.battery_pause_slot || out.export_limit_w
            != snap.export_limit_w);
    }
}

/// Carrying forward once more changes nothing more.
pub proof fn law_carrying_forward_settles(
    snap: InverterSnapshot,
    prev: InverterSnapshot,
    read: BlocksRead,
)
    ensures
        carried(carried(snap, prev, read), prev, read) == carried(snap, prev, read),
        forall|i: int, slot: ScheduleSlot, last: ScheduleSlot|
            carried_slot(i, #[trigger] carried_slot(i, slot, last), last) == carried_slot(
                i,
                slot,
                last,
            ),
{
}

} // verus!
