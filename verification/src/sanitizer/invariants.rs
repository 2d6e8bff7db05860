//! What every trusted snapshot satisfies.
use crate::counts::counted;
use crate::model::{BatteryMode, BatteryModule, InverterSnapshot, MAX_OPERATING_HOURS};
use crate::quantity::whole;
use crate::sanitizer::balance::{has_culprit, rebalanced, reconciles, sole_culprit, PowerField};
use crate::sanitizer::energy::{
    out_of_range, previous, ranged, with_energy_of, wobbles, EnergyField,
    DELTA_CORRECTION_RELEASE_THRESHOLD,
};
use crate::sanitizer::laws::{
    law_cross_check_needs_one_culprit, law_no_meter_comes_out_saturated,
    law_unchanged_counter_is_used, meters_unsaturated, unsaturated,
};
use crate::sanitizer::meters::{
    cross_checked, elapsed, eps_kept, lemma_powered_frame, meter_replaced, meter_states, power_flagged,
    powered_snapshot, smoothed, smoothed_snapshot, Meter,
};
use crate::sanitizer::power::{field_verdict, rate_verdict, HARD_CORRUPTION_CEILING};
use crate::sanitizer::readings::{
    battery_voltage_limit, beyond, grid_voltage_range, held_module, modules_of, reserve_invalid,
};
use crate::sanitizer::snapshot::{
    energy_replaced, energy_verdict, flagged, lists_flagged, lists_kept, metered, sanitized,
    scalars_flagged, scalars_kept, with_lists_of, with_scalars, Memory,
};
use crate::sanitizer::slots::slot_corrupted;
use vstd::prelude::*;

verus! {

/// The modules of a snapshot report possible voltages.
pub open spec fn modules_trusted(snap: InverterSnapshot) -> bool {
    forall|i: int|
        0 <= i < snap.battery_modules@.len() ==> !beyond(
            (#[trigger] snap.battery_modules@[i]).voltage,
            0,
            500,
        )
}

/// The energy counters of a snapshot are within their ranges.
pub open spec fn energies_trusted(snap: InverterSnapshot) -> bool {
    forall|f: EnergyField| !out_of_range(#[trigger] f.of(snap), f.ceiling(snap))
}

/// The other readings of a snapshot are within their ranges.
pub open spec fn scalars_trusted(snap: InverterSnapshot) -> bool {
    &&& snap.operating_hours <= MAX_OPERATING_HOURS
    &&& !beyond(snap.inverter_temperature, -20, 100)
    &&& !beyond(snap.battery_temperature, -20, 80)
    &&& !beyond(snap.battery_voltage, 0, battery_voltage_limit(snap.device_type))
    &&& !snap.grid_voltage.lt(whole(0))
    &&& !snap.grid_frequency.lt(whole(0))
    &&& snap.soc <= 100
    &&& snap.target_soc <= 100
    &&& snap.charge_rate <= 100
    &&& snap.discharge_rate <= 100
    &&& snap.active_power_rate <= 100
    &&& !reserve_invalid(snap.battery_reserve)
}

/// No reading of the snapshot is one that the checks reject on its own.
pub open spec fn trusted(snap: InverterSnapshot) -> bool {
    &&& meters_unsaturated(snap)
    &&& scalars_trusted(snap)
    &&& energies_trusted(snap)
    &&& modules_trusted(snap)
}

proof fn lemma_scalars_trusted(
    powered: InverterSnapshot,
    prev: Option<&InverterSnapshot>,
    pending: Option<BatteryMode>,
)
    requires
        prev is Some ==> scalars_trusted(*prev->0) && prev->0.device_type == powered.device_type,
    ensures
        scalars_trusted(with_scalars(powered, scalars_kept(powered, prev, pending))),
{
}

proof fn lemma_energy_trusted(
    field: EnergyField,
    before: InverterSnapshot,
    prev: Option<&InverterSnapshot>,
    skip_delta: bool,
    reset_window: bool,
    counts: Map<Seq<char>, u8>,
)
    requires
        prev is Some ==> energies_trusted(*prev->0) && prev->0.device_type == before.device_type,
    ensures
        !out_of_range(
            energy_verdict(field, before, prev, skip_delta, reset_window, counts).value,
            field.ceiling(before),
        ),
{
    if let Some(p) = prev {
        assert(!out_of_range(field.of(*p), field.ceiling(*p)));
        assert(field.ceiling(*p) == field.ceiling(before));
    }
    assert(!out_of_range(
        ranged(field.of(before), previous(field, prev), field.ceiling(before)),
        field.ceiling(before),
    ));
}

/// Trust is kept from poll to poll: whatever was decoded, a snapshot that went
/// through the checks is trusted, given that the previous one of the same model
/// was.
pub proof fn law_sanitized_snapshot_is_trusted(
    before: InverterSnapshot,
    prev: Option<&InverterSnapshot>,
    skip_delta: bool,
    reset_window: bool,
    memory: Memory,
    after: InverterSnapshot,
)
    requires
        prev is Some ==> trusted(*prev->0) && prev->0.device_type == before.device_type,
        sanitized(before, prev, skip_delta, reset_window, memory, after),
    ensures
        trusted(after),
{
    let powered = metered(before, prev, skip_delta, memory);
    let kept = scalars_kept(powered, prev, memory.pending);
    let placed = with_scalars(powered, kept);
    lemma_powered_frame(before, prev, skip_delta, memory.suspects, memory.rates);
    law_no_meter_comes_out_saturated(before, prev, skip_delta, memory.suspects, memory.rates);
    lemma_scalars_trusted(powered, prev, memory.pending);
    assert(scalars_trusted(after)) by {
        assert(scalars_trusted(placed));
    }
    assert(after.device_type == before.device_type);
    assert(after.battery_power == powered.battery_power);
    assert(after.grid_power == powered.grid_power);
    assert(after.solar_power == powered.solar_power);
    assert(after.home_power == powered.home_power);
    assert(after.eps_power_w == powered.eps_power_w);
    assert forall|m: Meter| unsaturated(#[trigger] m.reading(after)) by {
        match m {
            Meter::Battery => {},
            Meter::Grid => {},
            Meter::Solar => {},
            Meter::Home => {},
            Meter::Eps => {},
        }
    }
    assert forall|f: EnergyField| !out_of_range(#[trigger] f.of(after), f.ceiling(after)) by {
        lemma_energy_trusted(f, before, prev, skip_delta, reset_window, memory.deltas);
        assert(f.ceiling(after) == f.ceiling(before));
    }
    assert forall|i: int| 0 <= i < after.battery_modules@.len() implies !beyond(
        (#[trigger] after.battery_modules@[i]).voltage,
        0,
        500,
    ) by {
        let module = before.battery_modules@[i];
        assert(after.battery_modules@[i] == held_module(module, modules_of(prev)));
        if let Some(p) = prev {
            if module.index < p.battery_modules@.len() {
                assert(!beyond(p.battery_modules@[module.index as int].voltage, 0, 500));
            }
        }
    }
}

/// Whatever was read and whatever came before, the state of charge, its target
/// and the limits come out as percentages and the reserve as one that the
/// register holds.
pub proof fn law_percentages_always_hold(
    before: InverterSnapshot,
    prev: Option<&InverterSnapshot>,
    skip_delta: bool,
    reset_window: bool,
    memory: Memory,
    after: InverterSnapshot,
)
    requires
        sanitized(before, prev, skip_delta, reset_window, memory, after),
    ensures
        after.soc <= 100,
        after.target_soc <= 100,
        after.charge_rate <= 100,
        after.discharge_rate <= 100,
        after.active_power_rate <= 100,
        4 <= after.battery_reserve <= 100,
{
}

/// Operating hours never go down.
pub proof fn law_operating_hours_never_decrease(
    before: InverterSnapshot,
    prev: &InverterSnapshot,
    skip_delta: bool,
    reset_window: bool,
    memory: Memory,
    after: InverterSnapshot,
)
    requires
        sanitized(before, Some(prev), skip_delta, reset_window, memory, after),
    ensures
        after.operating_hours >= prev.operating_hours,
{
    lemma_powered_frame(before, Some(prev), skip_delta, memory.suspects, memory.rates);
}

/// A lifetime counter of at least one kWh goes down only when a lower reading
/// comes for the tenth time in a row: it never resets.
pub proof fn law_lifetime_counter_never_resets(
    field: EnergyField,
    before: InverterSnapshot,
    prev: &InverterSnapshot,
    reset_window: bool,
    counts: Map<Seq<char>, u8>,
)
    requires
        field.lifetime(),
        whole(1).le(field.of(*prev)),
        match counted(counts, field.name()) {
            Some(c) => c + 1 < DELTA_CORRECTION_RELEASE_THRESHOLD,
            None => true,
        },
    ensures
        !energy_verdict(field, before, Some(prev), false, reset_window, counts).value.lt(
            field.of(*prev),
        ),
{
}

/// Outside the reset window a daily counter of at least one kWh goes down only
/// when a lower reading comes for the tenth time in a row.
pub proof fn law_daily_counter_resets_only_at_midnight(
    field: EnergyField,
    before: InverterSnapshot,
    prev: &InverterSnapshot,
    counts: Map<Seq<char>, u8>,
)
    requires
        whole(1).le(field.of(*prev)),
        match counted(counts, field.name()) {
            Some(c) => c + 1 < DELTA_CORRECTION_RELEASE_THRESHOLD,
            None => true,
        },
    ensures
        !energy_verdict(field, before, Some(prev), false, false, counts).value.lt(
            field.of(*prev),
        ),
{
}

/// A snapshot at rest: trusted, with grid readings that fit the grid state.
pub open spec fn settled(snap: InverterSnapshot) -> bool {
    let (v_low, v_high) = grid_voltage_range(snap.device_type);
    &&& trusted(snap)
    &&& snap.eps_power_w < HARD_CORRUPTION_CEILING
    &&& if snap.grid_online {
        !beyond(snap.grid_voltage, v_low, v_high) && !beyond(snap.grid_frequency, 45, 55)
    } else {
        whole(0).le(snap.grid_voltage) && whole(0).le(snap.grid_frequency)
    }
}

proof fn lemma_meter_at_rest(
    meter: Meter,
    snap: InverterSnapshot,
    prev: &InverterSnapshot,
    suspects: Map<Seq<char>, u8>,
    rates: Map<Seq<char>, u8>,
)
    requires
        meters_unsaturated(snap),
        *prev == snap,
    ensures
        smoothed(meter, snap, Some(prev), suspects, rates).value == meter.reading(snap),
        !smoothed(meter, snap, Some(prev), suspects, rates).replaced,
        !meter_replaced(meter, snap, Some(prev), suspects, rates),
{
    reveal(field_verdict);
    reveal(rate_verdict);
    assert(unsaturated(meter.reading(snap)));
}

proof fn lemma_power_at_rest(
    snap: InverterSnapshot,
    prev: &InverterSnapshot,
    skip_delta: bool,
    memory: Memory,
)
    requires
        settled(snap),
        *prev == snap,
    ensures
        metered(snap, Some(prev), skip_delta, memory) == snap,
        !power_flagged(snap, Some(prev), skip_delta, memory.suspects, memory.rates),
{
    let s = memory.suspects;
    let r = memory.rates;
    lemma_meter_at_rest(Meter::Battery, snap, prev, s, r);
    lemma_meter_at_rest(Meter::Grid, snap, prev, s, r);
    lemma_meter_at_rest(Meter::Solar, snap, prev, s, r);
    lemma_meter_at_rest(Meter::Home, snap, prev, s, r);
    lemma_meter_at_rest(Meter::Eps, snap, prev, s, r);
    let checked = smoothed_snapshot(snap, Some(prev), s, r);
    let states = meter_states(snap, Some(prev), s, r);
    assert(checked == snap);
    reveal(rebalanced);
    reveal(has_culprit);
    assert forall|f: PowerField| !#[trigger] sole_culprit(f, checked, *prev, states) by {
        assert(!reconciles(f, checked, *prev, states)) by {
            match f {
                PowerField::Solar => {},
                PowerField::Battery => {},
                PowerField::Grid => {},
                PowerField::Home => {},
            }
        }
    }
    assert(rebalanced(checked, *prev, states) == checked);
    assert(powered_snapshot(snap, Some(prev), skip_delta, s, r) == snap);
    assert(eps_kept(snap, Some(prev), s, r) == snap.eps_power_w);
    assert forall|m: Meter| !#[trigger] meter_replaced(m, snap, Some(prev), s, r) by {
        lemma_meter_at_rest(m, snap, prev, s, r);
    }
}

proof fn lemma_energy_at_rest(
    field: EnergyField,
    snap: InverterSnapshot,
    prev: &InverterSnapshot,
    skip_delta: bool,
    reset_window: bool,
    counts: Map<Seq<char>, u8>,
)
    requires
        energies_trusted(snap),
        *prev == snap,
    ensures
        energy_verdict(field, snap, Some(prev), skip_delta, reset_window, counts).value
            == field.of(snap),
        !energy_replaced(field, snap, Some(prev), skip_delta, reset_window, counts),
{
    assert(!out_of_range(field.of(snap), field.ceiling(snap)));
    law_unchanged_counter_is_used(
        field.of(snap),
        elapsed(snap, Some(prev)),
        field.growth_kw(),
        field.noise(),
        reset_window && !field.lifetime(),
        counted(counts, field.name()),
    );
}

/// A reading that repeats a settled snapshot is left as it is and not reported,
/// whatever the checks remember.
pub proof fn law_repeated_snapshot_is_left_alone(
    snap: InverterSnapshot,
    prev: &InverterSnapshot,
    skip_delta: bool,
    reset_window: bool,
    memory: Memory,
)
    requires
        settled(snap),
        *prev == snap,
    ensures
        sanitized(snap, Some(prev), skip_delta, reset_window, memory, snap),
        !flagged(snap, Some(prev), skip_delta, reset_window, memory),
{
    lemma_power_at_rest(snap, prev, skip_delta, memory);
    let kept = scalars_kept(snap, Some(prev), memory.pending);
    assert(with_scalars(snap, kept) == snap);
    assert forall|f: EnergyField| #[trigger]
        f.of(snap) == energy_verdict(
            f,
            snap,
            Some(prev),
            skip_delta,
            reset_window,
            memory.deltas,
        ).value by {
        lemma_energy_at_rest(f, snap, prev, skip_delta, reset_window, memory.deltas);
    }
    assert forall|f: EnergyField| !#[trigger]
        energy_replaced(f, snap, Some(prev), skip_delta, reset_window, memory.deltas) by {
        lemma_energy_at_rest(f, snap, prev, skip_delta, reset_window, memory.deltas);
    }
    let held = snap.battery_modules@.map_values(
        |m: BatteryModule| held_module(m, modules_of(Some(prev))),
    );
    assert forall|i: int| 0 <= i < held.len() implies #[trigger] held[i]
        == snap.battery_modules@[i] by {
        assert(!beyond(snap.battery_modules@[i].voltage, 0, 500));
    }
    assert(held =~= snap.battery_modules@);
    assert forall|i: int| 0 <= i < 10 implies !slot_corrupted(
        #[trigger] snap.charge_slots@[i],
        prev.charge_slots@[i],
    ) by {}
    assert forall|i: int| 0 <= i < 10 implies !slot_corrupted(
        #[trigger] snap.discharge_slots@[i],
        prev.discharge_slots@[i],
    ) by {}
    assert(lists_kept(snap, Some(prev), snap));
    assert(!lists_flagged(snap, Some(prev)));
    assert(snap == with_lists_of(with_energy_of(with_scalars(snap, kept), snap), snap));
    assert(!scalars_flagged(snap, Some(prev), memory.pending));
}

/// Nothing is changed in silence: where no reading is reported as replaced, the
/// snapshot is as it was read, but for counters that wobble within their noise
/// and stay at the previous value.
pub proof fn law_silence_means_unchanged(
    before: InverterSnapshot,
    prev: Option<&InverterSnapshot>,
    skip_delta: bool,
    reset_window: bool,
    memory: Memory,
    after: InverterSnapshot,
)
    requires
        sanitized(before, prev, skip_delta, reset_window, memory, after),
        !flagged(before, prev, skip_delta, reset_window, memory),
    ensures
        after == with_lists_of(with_energy_of(before, after), after),
        after.battery_modules@ == before.battery_modules@,
        after.charge_slots@ == before.charge_slots@,
        after.discharge_slots@ == before.discharge_slots@,
        forall|f: EnergyField|
            #[trigger] f.of(after) == f.of(before) || (prev is Some && wobbles(
                f.of(before),
                f.of(*prev->0),
                f.noise(),
            ) && f.of(after) == f.of(*prev->0)),
{
    let (s, t) = (memory.suspects, memory.rates);
    let powered = metered(before, prev, skip_delta, memory);
    assert(powered == before) by {
        lemma_silent_meter(Meter::Battery, before, prev, s, t);
        lemma_silent_meter(Meter::Grid, before, prev, s, t);
        lemma_silent_meter(Meter::Solar, before, prev, s, t);
        lemma_silent_meter(Meter::Home, before, prev, s, t);
        let checked = smoothed_snapshot(before, prev, s, t);
        assert(checked == before);
        if cross_checked(before, prev, skip_delta) {
            law_cross_check_needs_one_culprit(
                checked,
                *prev->0,
                meter_states(before, prev, s, t),
            );
        }
    }
    assert(with_scalars(powered, scalars_kept(powered, prev, memory.pending)) == before);
    assert forall|f: EnergyField|
        #[trigger] f.of(after) == f.of(before) || (prev is Some && wobbles(
            f.of(before),
            f.of(*prev->0),
            f.noise(),
        ) && f.of(after) == f.of(*prev->0)) by {
        assert(!energy_replaced(f, before, prev, skip_delta, reset_window, memory.deltas));
    }
    assert forall|i: int| 0 <= i < before.battery_modules@.len() implies #[trigger]
        after.battery_modules@[i] == before.battery_modules@[i] by {
        assert(!beyond(before.battery_modules@[i].voltage, 0, 500)) by {
            assert(before.battery_modules[i] == before.battery_modules@[i]);
        }
    }
    assert(after.battery_modules@ =~= before.battery_modules@);
    if let Some(p) = prev {
        assert forall|i: int| 0 <= i < 10 implies #[trigger] after.charge_slots@[i]
            == before.charge_slots@[i] && after.discharge_slots@[i]
            == before.discharge_slots@[i] by {
            assert(!slot_corrupted(before.charge_slots@[i], p.charge_slots@[i]));
            assert(!slot_corrupted(before.discharge_slots@[i], p.discharge_slots@[i]));
        }
        assert(after.charge_slots@ =~= before.charge_slots@);
        assert forall|i: int| 0 <= i < 10 implies #[trigger] after.discharge_slots@[i]
            == before.discharge_slots@[i] by {
            assert(after.charge_slots@[i] == before.charge_slots@[i]);
        }
        assert(after.discharge_slots@ =~= before.discharge_slots@);
    }
}

proof fn lemma_silent_meter(
    meter: Meter,
    snap: InverterSnapshot,
    prev: Option<&InverterSnapshot>,
    suspects: Map<Seq<char>, u8>,
    rates: Map<Seq<char>, u8>,
)
    requires
        !meter_replaced(meter, snap, prev, suspects, rates),
    ensures
        smoothed(meter, snap, prev, suspects, rates).value == meter.reading(snap),
{
    reveal(field_verdict);
    reveal(rate_verdict);
}

} // verus!
