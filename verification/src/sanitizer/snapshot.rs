//! A decoded snapshot made trustworthy.
use crate::counts::counted;
use crate::model::{BatteryMode, BatteryModule, DeviceType, InverterSnapshot};
use crate::quantity::Quantity;
use crate::sanitizer::clock::{is_within_daily_reset_window, near_midnight};
use crate::sanitizer::energy::{
    check_energy_deltas, check_energy_ranges, delta_verdict, field_delta, out_of_range, previous,
    ranged, with_energy_of, DeltaCorrectionCounts, EnergyField,
};
use crate::sanitizer::meters::{
    check_meters, elapsed, elapsed_secs, eps_kept, meters_counted, power_flagged, powered_snapshot,
    lemma_powered_frame,
};
use crate::sanitizer::power::{ConsecutiveSuspectCounts, RateReleaseCounts, Verdict};
use crate::sanitizer::readings::{
    ac_limit_missing, battery_voltage_limit, beyond, check_battery_voltage, check_grid_frequency,
    check_grid_voltage, check_module_voltages, check_operating_hours, check_rate_limit,
    check_reserve, check_soc, check_target, clamp_percent, debounce_mode, debounced, grid_voltage_range, held,
    held_module, hold, hours_impossible, hours_kept, modules_of, outage_reading, percent,
    reserve_clamped, reserve_invalid, soc_checked, target_checked,
};
use crate::sanitizer::slots::{check_slot_times, kept_slot, slot_corrupted};
use crate::wall_clock::{parsed_clock, representable};
use vstd::prelude::*;

verus! {

/// The readings of a snapshot that are checked on their own.
pub struct Scalars {
    pub operating_hours: u32,
    pub soc: u8,
    pub inverter_temperature: Quantity,
    pub battery_temperature: Quantity,
    pub grid_voltage: Quantity,
    pub grid_frequency: Quantity,
    pub charge_rate: u8,
    pub discharge_rate: u8,
    pub active_power_rate: u8,
    pub battery_voltage: Quantity,
    pub battery_mode: BatteryMode,
    pub target_soc: u8,
    pub battery_reserve: u8,
}

/// `snap` with the given scalar readings.
pub open spec fn with_scalars(snap: InverterSnapshot, s: Scalars) -> InverterSnapshot {
    InverterSnapshot {
        operating_hours: s.operating_hours,
        soc: s.soc,
        inverter_temperature: s.inverter_temperature,
        battery_temperature: s.battery_temperature,
        grid_voltage: s.grid_voltage,
        grid_frequency: s.grid_frequency,
        charge_rate: s.charge_rate,
        discharge_rate: s.discharge_rate,
        active_power_rate: s.active_power_rate,
        battery_voltage: s.battery_voltage,
        battery_mode: s.battery_mode,
        target_soc: s.target_soc,
        battery_reserve: s.battery_reserve,
        ..snap
    }
}

/// `snap` with modules and slots taken from `from`.
pub open spec fn with_lists_of(snap: InverterSnapshot, from: InverterSnapshot) -> InverterSnapshot {
    InverterSnapshot {
        battery_modules: from.battery_modules,
        charge_slots: from.charge_slots,
        discharge_slots: from.discharge_slots,
        ..snap
    }
}

/// The previous snapshot's value of a reading, if there is one.
pub open spec fn last<T>(prev: Option<&InverterSnapshot>, value: spec_fn(InverterSnapshot) -> T) -> Option<
    T,
> {
    match prev {
        Some(p) => Some(value(*p)),
        None => None,
    }
}

/// A charge or discharge limit after its check.
pub open spec fn rate_kept(rate: u8, device_type: DeviceType, prev: Option<(u8, DeviceType)>) -> u8 {
    match prev {
        Some(p) => if ac_limit_missing(rate, device_type, p.0, p.1) {
            percent(p.0)
        } else {
            percent(rate)
        },
        None => percent(rate),
    }
}

/// Whether a charge or discharge limit is carried forward or cut off.
pub open spec fn rate_replaced(
    rate: u8,
    device_type: DeviceType,
    prev: Option<(u8, DeviceType)>,
) -> bool {
    ||| (prev is Some && ac_limit_missing(rate, device_type, (prev->Some_0).0, (prev->Some_0).1))
    ||| percent(rate) != rate
}

/// The scalar readings of `snap` after their checks.
pub open spec fn scalars_kept(
    snap: InverterSnapshot,
    prev: Option<&InverterSnapshot>,
    pending: Option<BatteryMode>,
) -> Scalars {
    let (v_low, v_high) = grid_voltage_range(snap.device_type);
    Scalars {
        operating_hours: hours_kept(snap.operating_hours, last(prev, |p: InverterSnapshot| p.operating_hours)),
        soc: soc_checked(
            snap.soc,
            snap.battery_power,
            snap.grid_power,
            snap.solar_power,
            last(prev, |p: InverterSnapshot| p.soc),
        ).0,
        inverter_temperature: held(
            snap.inverter_temperature,
            -20,
            100,
            last(prev, |p: InverterSnapshot| p.inverter_temperature),
            0,
        ),
        battery_temperature: held(
            snap.battery_temperature,
            -20,
            80,
            last(prev, |p: InverterSnapshot| p.battery_temperature),
            0,
        ),
        grid_voltage: if snap.grid_online {
            held(
                snap.grid_voltage,
                v_low,
                v_high,
                last(prev, |p: InverterSnapshot| p.grid_voltage),
                230,
            )
        } else {
            outage_reading(snap.grid_voltage)
        },
        grid_frequency: if snap.grid_online {
            held(
                snap.grid_frequency,
                45,
                55,
                last(prev, |p: InverterSnapshot| p.grid_frequency),
                50,
            )
        } else {
            outage_reading(snap.grid_frequency)
        },
        charge_rate: rate_kept(
            snap.charge_rate,
            snap.device_type,
            last(prev, |p: InverterSnapshot| (p.charge_rate, p.device_type)),
        ),
        discharge_rate: rate_kept(
            snap.discharge_rate,
            snap.device_type,
            last(prev, |p: InverterSnapshot| (p.discharge_rate, p.device_type)),
        ),
        active_power_rate: percent(snap.active_power_rate),
        battery_voltage: held(
            snap.battery_voltage,
            0,
            battery_voltage_limit(snap.device_type),
            last(prev, |p: InverterSnapshot| p.battery_voltage),
            0,
        ),
        battery_mode: debounced(
            snap.battery_mode,
            last(prev, |p: InverterSnapshot| p.battery_mode),
            pending,
        ).0,
        target_soc: target_checked(
            snap.target_soc,
            last(prev, |p: InverterSnapshot| p.target_soc),
        ).0,
        battery_reserve: if reserve_invalid(snap.battery_reserve) {
            reserve_clamped(
                match prev {
                    Some(p) => p.battery_reserve,
                    None => snap.battery_reserve,
                },
            )
        } else {
            snap.battery_reserve
        },
    }
}

/// Whether a scalar reading was replaced, or a charge or discharge enable
/// flipped and wants a second reading.
pub open spec fn scalars_flagged(
    snap: InverterSnapshot,
    prev: Option<&InverterSnapshot>,
    pending: Option<BatteryMode>,
) -> bool {
    let (v_low, v_high) = grid_voltage_range(snap.device_type);
    ||| hours_impossible(snap.operating_hours, last(prev, |p: InverterSnapshot| p.operating_hours))
    ||| soc_checked(
        snap.soc,
        snap.battery_power,
        snap.grid_power,
        snap.solar_power,
        last(prev, |p: InverterSnapshot| p.soc),
    ).1
    ||| beyond(snap.inverter_temperature, -20, 100)
    ||| beyond(snap.battery_temperature, -20, 80)
    ||| (snap.grid_online && beyond(snap.grid_voltage, v_low, v_high))
    ||| (snap.grid_online && beyond(snap.grid_frequency, 45, 55))
    ||| (!snap.grid_online && outage_reading(snap.grid_voltage) != snap.grid_voltage)
    ||| (!snap.grid_online && outage_reading(snap.grid_frequency) != snap.grid_frequency)
    ||| percent(snap.active_power_rate) != snap.active_power_rate
    ||| rate_replaced(
        snap.charge_rate,
        snap.device_type,
        last(prev, |p: InverterSnapshot| (p.charge_rate, p.device_type)),
    )
    ||| rate_replaced(
        snap.discharge_rate,
        snap.device_type,
        last(prev, |p: InverterSnapshot| (p.discharge_rate, p.device_type)),
    )
    ||| beyond(snap.battery_voltage, 0, battery_voltage_limit(snap.device_type))
    ||| debounced(
        snap.battery_mode,
        last(prev, |p: InverterSnapshot| p.battery_mode),
        pending,
    ).2
    ||| (prev is Some && snap.enable_charge != prev->0.enable_charge)
    ||| (prev is Some && snap.enable_discharge != prev->0.enable_discharge)
    ||| snap.target_soc > 100
    ||| reserve_invalid(snap.battery_reserve)
}

/// The values that the checks of one scalar reading each decide on, and whether
/// any reading was replaced.
fn read_scalars(
    snap: &InverterSnapshot,
    prev: Option<&InverterSnapshot>,
    pending: &mut Option<BatteryMode>,
) -> (r: (Scalars, bool))
    ensures
        r.0 == scalars_kept(*snap, prev, *old(pending)),
        r.1 == scalars_flagged(*snap, prev, *old(pending)),
        *final(pending) == debounced(
            snap.battery_mode,
            last(prev, |p: InverterSnapshot| p.battery_mode),
            *old(pending),
        ).1,
{
    let (operating_hours, f1) = check_operating_hours(
        snap.operating_hours,
        match prev { Some(p) => Some(p.operating_hours), None => None },
    );
    let (soc, f2) = check_soc(
        snap.soc,
        snap.battery_power,
        snap.grid_power,
        snap.solar_power,
        match prev { Some(p) => Some(p.soc), None => None },
    );
    let (inverter_temperature, f3) = hold(
        snap.inverter_temperature,
        -20,
        100,
        match prev { Some(p) => Some(p.inverter_temperature), None => None },
        0,
    );
    let (battery_temperature, f4) = hold(
        snap.battery_temperature,
        -20,
        80,
        match prev { Some(p) => Some(p.battery_temperature), None => None },
        0,
    );
    let (grid_voltage, f5) = check_grid_voltage(
        snap.grid_voltage,
        snap.grid_online,
        snap.device_type,
        match prev { Some(p) => Some(p.grid_voltage), None => None },
    );
    let (grid_frequency, f6) = check_grid_frequency(
        snap.grid_frequency,
        snap.grid_online,
        match prev { Some(p) => Some(p.grid_frequency), None => None },
    );
    let (charge_rate, f7) = check_rate_limit(
        snap.charge_rate,
        snap.device_type,
        match prev { Some(p) => Some((p.charge_rate, p.device_type)), None => None },
    );
    let (discharge_rate, f8) = check_rate_limit(
        snap.discharge_rate,
        snap.device_type,
        match prev { Some(p) => Some((p.discharge_rate, p.device_type)), None => None },
    );
    let (battery_voltage, f9) = check_battery_voltage(
        snap.battery_voltage,
        snap.device_type,
        match prev { Some(p) => Some(p.battery_voltage), None => None },
    );
    let (battery_mode, f10) = debounce_mode(
        snap.battery_mode,
        match prev { Some(p) => Some(p.battery_mode), None => None },
        pending,
    );
    let (battery_reserve, f11) = check_reserve(
        snap.battery_reserve,
        match prev { Some(p) => Some(p.battery_reserve), None => None },
    );
    let (target_soc, f12) = check_target(
        snap.target_soc,
        match prev { Some(p) => Some(p.target_soc), None => None },
    );
    let enables: bool = match prev {
        Some(p) => snap.enable_charge != p.enable_charge || snap.enable_discharge
            != p.enable_discharge,
        None => false,
    };
    let scalars = Scalars {
        operating_hours,
        soc,
        inverter_temperature,
        battery_temperature,
        grid_voltage,
        grid_frequency,
        charge_rate,
        discharge_rate,
        active_power_rate: clamp_percent(snap.active_power_rate),
        battery_voltage,
        battery_mode,
        target_soc,
        battery_reserve,
    };
    let flagged: bool = f1 || f2 || f3 || f4 || f5 || f6 || f7 || f8 || f9 || f10 || f11 || f12
        || enables || snap.active_power_rate > 100;
    (scalars, flagged)
}

fn put_scalars(snap: &mut InverterSnapshot, s: Scalars)
    ensures
        *final(snap) == with_scalars(*old(snap), s),
{
    snap.operating_hours = s.operating_hours;
    snap.soc = s.soc;
    snap.inverter_temperature = s.inverter_temperature;
    snap.battery_temperature = s.battery_temperature;
    snap.grid_voltage = s.grid_voltage;
    snap.grid_frequency = s.grid_frequency;
    snap.charge_rate = s.charge_rate;
    snap.discharge_rate = s.discharge_rate;
    snap.active_power_rate = s.active_power_rate;
    snap.battery_voltage = s.battery_voltage;
    snap.battery_mode = s.battery_mode;
    snap.target_soc = s.target_soc;
    snap.battery_reserve = s.battery_reserve;
}

/// What the range and growth checks make of an energy counter.
pub open spec fn energy_verdict(
    field: EnergyField,
    snap: InverterSnapshot,
    prev: Option<&InverterSnapshot>,
    skip_delta: bool,
    reset_window: bool,
    counts: Map<Seq<char>, u8>,
) -> Verdict<Quantity> {
    let value = ranged(field.of(snap), previous(field, prev), field.ceiling(snap));
    match prev {
        Some(p) => if skip_delta {
            Verdict { value, replaced: false, count: counted(counts, field.name()) }
        } else {
            delta_verdict(
                value,
                field.of(*p),
                elapsed(snap, prev),
                field.growth_kw(),
                field.noise(),
                reset_window && !field.lifetime(),
                counted(counts, field.name()),
            )
        },
        None => Verdict { value, replaced: false, count: counted(counts, field.name()) },
    }
}

/// Whether a check replaced an energy counter.
pub open spec fn energy_replaced(
    field: EnergyField,
    snap: InverterSnapshot,
    prev: Option<&InverterSnapshot>,
    skip_delta: bool,
    reset_window: bool,
    counts: Map<Seq<char>, u8>,
) -> bool {
    out_of_range(field.of(snap), field.ceiling(snap)) || energy_verdict(
        field,
        snap,
        prev,
        skip_delta,
        reset_window,
        counts,
    ).replaced
}

/// What the counters of the energy checks become.
pub open spec fn energies_counted(
    snap: InverterSnapshot,
    prev: Option<&InverterSnapshot>,
    skip_delta: bool,
    reset_window: bool,
    counts: Map<Seq<char>, u8>,
    new_counts: Map<Seq<char>, u8>,
) -> bool {
    &&& forall|f: EnergyField|
        counted(new_counts, #[trigger] f.name()) == energy_verdict(
            f,
            snap,
            prev,
            skip_delta,
            reset_window,
            counts,
        ).count
    &&& forall|label: Seq<char>|
        (forall|f: EnergyField| #[trigger] f.name() != label) ==> #[trigger] counted(
            new_counts,
            label,
        ) == counted(counts, label)
}

/// Checks the energy counters: each against its range, and against the
/// previous snapshot once the readings have settled. Returns whether a reading
/// was replaced.
pub fn check_energy(
    snap: &mut InverterSnapshot,
    prev: Option<&InverterSnapshot>,
    skip_delta: bool,
    reset_window: bool,
    counts: &mut DeltaCorrectionCounts,
) -> (r: bool)
    ensures
        *final(snap) == with_energy_of(*old(snap), *final(snap)),
        forall|f: EnergyField| #[trigger]
            f.of(*final(snap)) == energy_verdict(
                f,
                *old(snap),
                prev,
                skip_delta,
                reset_window,
                old(counts).0@,
            ).value,
        energies_counted(
            *old(snap),
            prev,
            skip_delta,
            reset_window,
            old(counts).0@,
            final(counts).0@,
        ),
        r == exists|f: EnergyField| #[trigger]
            energy_replaced(f, *old(snap), prev, skip_delta, reset_window, old(counts).0@),
{
    let ghost before = *snap;
    let ghost counts0 = counts.0@;
    let flagged: bool = check_energy_ranges(snap, prev);
    let ghost ranged_snap = *snap;
    proof {
        if flagged {
            let f = choose|f: EnergyField|
                out_of_range(#[trigger] f.of(before), f.ceiling(before));
            assert(energy_replaced(f, before, prev, skip_delta, reset_window, counts0));
        }
    }
    if skip_delta {
        assert forall|f: EnergyField| #[trigger]
            energy_replaced(f, before, prev, skip_delta, reset_window, counts0) implies flagged by {
            assert(out_of_range(f.of(before), f.ceiling(before)));
        }
        return flagged;
    }
    match prev {
        None => {
            assert forall|f: EnergyField| #[trigger]
                energy_replaced(f, before, prev, skip_delta, reset_window, counts0) implies flagged by {
                assert(out_of_range(f.of(before), f.ceiling(before)));
            }
            flagged
        },
        Some(p) => {
            let secs: u64 = elapsed_secs(snap, prev);
            let grown: bool = check_energy_deltas(snap, p, secs, reset_window, counts);
            proof {
                assert forall|f: EnergyField|
                    #![trigger f.of(*snap)]
                    #![trigger f.name()]
                    field_delta(f, ranged_snap, *p, secs, reset_window, counts0) == energy_verdict(
                        f,
                        before,
                        prev,
                        skip_delta,
                        reset_window,
                        counts0,
                    ) by {
                    assert(f.of(ranged_snap) == ranged(
                        f.of(before),
                        previous(f, prev),
                        f.ceiling(before),
                    ));
                }
                if grown {
                    let f = choose|f: EnergyField| #[trigger]
                        field_delta(f, ranged_snap, *p, secs, reset_window, counts0).replaced;
                    assert(f.of(*snap) == f.of(*snap));
                    assert(energy_replaced(f, before, prev, skip_delta, reset_window, counts0));
                }
                assert forall|f: EnergyField| #[trigger]
                    energy_replaced(
                        f,
                        before,
                        prev,
                        skip_delta,
                        reset_window,
                        counts0,
                    ) implies flagged || grown by {
                    assert(f.of(*snap) == f.of(*snap));
                    assert(out_of_range(f.of(before), f.ceiling(before)) || field_delta(
                        f,
                        ranged_snap,
                        *p,
                        secs,
                        reset_window,
                        counts0,
                    ).replaced);
                }
            }
            flagged || grown
        },
    }
}

/// Whether the modules and slots of `after` are those of `before` after their
/// checks.
pub open spec fn lists_kept(
    before: InverterSnapshot,
    prev: Option<&InverterSnapshot>,
    after: InverterSnapshot,
) -> bool {
    &&& after.battery_modules@ == before.battery_modules@.map_values(
        |m: BatteryModule| held_module(m, modules_of(prev)),
    )
    &&& match prev {
        Some(p) => forall|i: int|
            0 <= i < 10 ==> #[trigger] after.charge_slots@[i] == kept_slot(
                before.charge_slots@[i],
                p.charge_slots@[i],
            ) && after.discharge_slots@[i] == kept_slot(
                before.discharge_slots@[i],
                p.discharge_slots@[i],
            ),
        None => after.charge_slots == before.charge_slots && after.discharge_slots
            == before.discharge_slots,
    }
}

/// Whether a module or slot was replaced.
pub open spec fn lists_flagged(before: InverterSnapshot, prev: Option<&InverterSnapshot>) -> bool {
    ||| exists|i: int|
        0 <= i < before.battery_modules.len() && beyond(
            (#[trigger] before.battery_modules[i]).voltage,
            0,
            500,
        )
    ||| (prev is Some && exists|i: int|
        0 <= i < 10 && slot_corrupted(
            #[trigger] before.charge_slots@[i],
            prev->0.charge_slots@[i],
        ))
    ||| (prev is Some && exists|i: int|
        0 <= i < 10 && slot_corrupted(
            #[trigger] before.discharge_slots@[i],
            prev->0.discharge_slots@[i],
        ))
}

/// Checks module voltages and slot times. Returns whether any was replaced.
pub fn check_lists(snap: &mut InverterSnapshot, prev: Option<&InverterSnapshot>) -> (r: bool)
    ensures
        *final(snap) == with_lists_of(*old(snap), *final(snap)),
        lists_kept(*old(snap), prev, *final(snap)),
        r == lists_flagged(*old(snap), prev),
{
    let modules: bool = check_module_voltages(&mut snap.battery_modules, prev);
    match prev {
        Some(p) => {
            let charge: bool = check_slot_times(&mut snap.charge_slots, &p.charge_slots);
            let discharge: bool = check_slot_times(&mut snap.discharge_slots, &p.discharge_slots);
            modules || charge || discharge
        },
        None => modules,
    }
}

/// The state that the checks carry from poll to poll.
pub struct Memory {
    /// A battery mode that has been read once.
    pub pending: Option<BatteryMode>,
    /// Implausible readings per energy counter.
    pub deltas: Map<Seq<char>, u8>,
    /// Over-limit readings per power meter.
    pub suspects: Map<Seq<char>, u8>,
    /// Too-fast readings per power meter.
    pub rates: Map<Seq<char>, u8>,
}

/// The snapshot with all its power meters checked.
pub open spec fn metered(
    snap: InverterSnapshot,
    prev: Option<&InverterSnapshot>,
    skip_delta: bool,
    memory: Memory,
) -> InverterSnapshot {
    InverterSnapshot {
        eps_power_w: eps_kept(snap, prev, memory.suspects, memory.rates),
        ..powered_snapshot(snap, prev, skip_delta, memory.suspects, memory.rates)
    }
}

/// Whether `after` is what the checks make of the snapshot `before`.
pub open spec fn sanitized(
    before: InverterSnapshot,
    prev: Option<&InverterSnapshot>,
    skip_delta: bool,
    reset_window: bool,
    memory: Memory,
    after: InverterSnapshot,
) -> bool {
    let powered = metered(before, prev, skip_delta, memory);
    &&& after == with_lists_of(
        with_energy_of(
            with_scalars(powered, scalars_kept(powered, prev, memory.pending)),
            after,
        ),
        after,
    )
    &&& forall|f: EnergyField| #[trigger]
        f.of(after) == energy_verdict(
            f,
            before,
            prev,
            skip_delta,
            reset_window,
            memory.deltas,
        ).value
    &&& lists_kept(before, prev, after)
}

/// Whether `after` is what the checks leave in memory.
pub open spec fn remembered(
    snap: InverterSnapshot,
    prev: Option<&InverterSnapshot>,
    skip_delta: bool,
    reset_window: bool,
    memory: Memory,
    after: Memory,
) -> bool {
    &&& after.pending == debounced(
        snap.battery_mode,
        last(prev, |p: InverterSnapshot| p.battery_mode),
        memory.pending,
    ).1
    &&& meters_counted(snap, prev, memory.suspects, memory.rates, after.suspects, after.rates)
    &&& energies_counted(snap, prev, skip_delta, reset_window, memory.deltas, after.deltas)
}

/// Whether the checks replaced any reading of `snap`, or a charge or discharge
/// enable flipped. A counter that wobbles within its noise stays at the previous
/// value without a report.
pub open spec fn flagged(
    snap: InverterSnapshot,
    prev: Option<&InverterSnapshot>,
    skip_delta: bool,
    reset_window: bool,
    memory: Memory,
) -> bool {
    ||| power_flagged(snap, prev, skip_delta, memory.suspects, memory.rates)
    ||| scalars_flagged(metered(snap, prev, skip_delta, memory), prev, memory.pending)
    ||| exists|f: EnergyField| #[trigger]
        energy_replaced(f, snap, prev, skip_delta, reset_window, memory.deltas)
    ||| lists_flagged(snap, prev)
}

/// The checks of counters, modules and slots see the same values before and
/// after the meters and scalars were put in place.
proof fn lemma_untouched(
    before: InverterSnapshot,
    prev: Option<&InverterSnapshot>,
    skip_delta: bool,
    memory: Memory,
    s: Scalars,
)
    ensures
        ({
            let placed = with_scalars(metered(before, prev, skip_delta, memory), s);
            &&& placed.timestamp == before.timestamp
            &&& placed.device_type == before.device_type
            &&& placed.battery_modules == before.battery_modules
            &&& placed.charge_slots == before.charge_slots
            &&& placed.discharge_slots == before.discharge_slots
            &&& forall|f: EnergyField| #[trigger] f.of(placed) == f.of(before)
        }),
{
    lemma_powered_frame(before, prev, skip_delta, memory.suspects, memory.rates);
}

/// Like [`sanitize_snapshot`], where the caller says whether the reading was
/// taken close enough to midnight for daily counters to reset.
pub fn sanitize_snapshot_within(
    snap: &mut InverterSnapshot,
    prev: Option<&InverterSnapshot>,
    skip_delta: bool,
    pending_mode: &mut Option<BatteryMode>,
    delta_corrections: &mut DeltaCorrectionCounts,
    suspect_counts: &mut ConsecutiveSuspectCounts,
    rate_release_counts: &mut RateReleaseCounts,
    reset_window: bool,
) -> (r: bool)
    ensures
        ({
            let memory = Memory {
                pending: *old(pending_mode),
                deltas: old(delta_corrections).0@,
                suspects: old(suspect_counts).0@,
                rates: old(rate_release_counts).0@,
            };
            let after = Memory {
                pending: *final(pending_mode),
                deltas: final(delta_corrections).0@,
                suspects: final(suspect_counts).0@,
                rates: final(rate_release_counts).0@,
            };
            &&& sanitized(*old(snap), prev, skip_delta, reset_window, memory, *final(snap))
            &&& remembered(*old(snap), prev, skip_delta, reset_window, memory, after)
            &&& r == flagged(*old(snap), prev, skip_delta, reset_window, memory)
        }),
{
    let ghost before = *snap;
    let ghost memory = Memory {
        pending: *pending_mode,
        deltas: delta_corrections.0@,
        suspects: suspect_counts.0@,
        rates: rate_release_counts.0@,
    };
    let power: bool = check_meters(snap, prev, skip_delta, suspect_counts, rate_release_counts);
    assert(*snap == metered(before, prev, skip_delta, memory));
    let (scalars, scalar) = read_scalars(snap, prev, pending_mode);
    let ghost kept = scalars;
    put_scalars(snap, scalars);
    let ghost placed = *snap;
    proof {
        lemma_powered_frame(before, prev, skip_delta, memory.suspects, memory.rates);
        lemma_untouched(before, prev, skip_delta, memory, kept);
        assert forall|f: EnergyField|
            #![trigger f.of(before)]
            #![trigger f.name()]
            energy_verdict(f, placed, prev, skip_delta, reset_window, memory.deltas)
                == energy_verdict(f, before, prev, skip_delta, reset_window, memory.deltas)
                && energy_replaced(f, placed, prev, skip_delta, reset_window, memory.deltas)
                == energy_replaced(f, before, prev, skip_delta, reset_window, memory.deltas) by {
            assert(f.of(placed) == f.of(before));
        }
    }
    let energy: bool = check_energy(snap, prev, skip_delta, reset_window, delta_corrections);
    let ghost counted_snap = *snap;
    let lists: bool = check_lists(snap, prev);
    proof {
        assert(*snap == with_lists_of(with_energy_of(placed, *snap), *snap));
        assert forall|f: EnergyField| #[trigger]
            f.of(*snap) == energy_verdict(
                f,
                before,
                prev,
                skip_delta,
                reset_window,
                memory.deltas,
            ).value by {
            assert(f.of(*snap) == f.of(counted_snap));
            assert(f.of(before) == f.of(placed));
        }
        if energy {
            let f = choose|f: EnergyField| #[trigger]
                energy_replaced(f, placed, prev, skip_delta, reset_window, memory.deltas);
            assert(f.of(before) == f.of(placed));
            assert(energy_replaced(f, before, prev, skip_delta, reset_window, memory.deltas));
        }
        assert forall|f: EnergyField| #[trigger]
            energy_replaced(
                f,
                before,
                prev,
                skip_delta,
                reset_window,
                memory.deltas,
            ) implies energy by {
            assert(f.of(before) == f.of(placed));
            assert(energy_replaced(f, placed, prev, skip_delta, reset_window, memory.deltas));
        }
    }
    proof {
        assert(counted_snap.battery_modules == before.battery_modules);
        assert(counted_snap.charge_slots == before.charge_slots);
        assert(counted_snap.discharge_slots == before.discharge_slots);
        assert(lists == lists_flagged(before, prev));
        assert(energy == exists|f: EnergyField| #[trigger]
            energy_replaced(f, before, prev, skip_delta, reset_window, memory.deltas));
        assert(scalar == scalars_flagged(
            metered(before, prev, skip_delta, memory),
            prev,
            memory.pending,
        ));
    }
    power || scalar || energy || lists
}

/// Whether a reading with this host time and inverter clock may count as taken
/// within (or outside) the daily reset window. The inverter's clock decides;
/// without one the host's does, in a time zone of which nothing is known here.
pub open spec fn window_possible(timestamp: i64, inverter_time: Seq<char>, within: bool) -> bool {
    match parsed_clock(inverter_time) {
        Some(clock) => within == near_midnight(clock.0 * 60 + clock.1),
        None => within ==> representable(timestamp),
    }
}

/// Replaces the implausible readings of a freshly decoded snapshot. Returns
/// whether a reading was replaced or wants a second look.
///
/// `prev` is the previous trusted snapshot. With `skip_delta`, right after a
/// connect, readings are not compared with it for growth or balance. The other
/// arguments are carried from poll to poll: a battery mode that has been read
/// once, and how often each counter and meter was held back in a row.
pub fn sanitize_snapshot(
    snap: &mut InverterSnapshot,
    prev: Option<&InverterSnapshot>,
    skip_delta: bool,
    pending_mode: &mut Option<BatteryMode>,
    delta_corrections: &mut DeltaCorrectionCounts,
    suspect_counts: &mut ConsecutiveSuspectCounts,
    rate_release_counts: &mut RateReleaseCounts,
) -> (r: bool)
    ensures
        exists|within: bool|
            {
                let memory = Memory {
                    pending: *old(pending_mode),
                    deltas: old(delta_corrections).0@,
                    suspects: old(suspect_counts).0@,
                    rates: old(rate_release_counts).0@,
                };
                let after = Memory {
                    pending: *final(pending_mode),
                    deltas: final(delta_corrections).0@,
                    suspects: final(suspect_counts).0@,
                    rates: final(rate_release_counts).0@,
                };
                &&& #[trigger] window_possible(
                    old(snap).timestamp,
                    old(snap).inverter_time@,
                    within,
                )
                &&& sanitized(*old(snap), prev, skip_delta, within, memory, *final(snap))
                &&& remembered(*old(snap), prev, skip_delta, within, memory, after)
                &&& r == flagged(*old(snap), prev, skip_delta, within, memory)
            },
{
    let within: bool = is_within_daily_reset_window(snap.timestamp, snap.inverter_time.as_str());
    assert(window_possible(snap.timestamp, snap.inverter_time@, within));
    sanitize_snapshot_within(
        snap,
        prev,
        skip_delta,
        pending_mode,
        delta_corrections,
        suspect_counts,
        rate_release_counts,
        within,
    )
}

} // verus!
