//! What becomes of the power meters and energy counters, in plain numbers.
use crate::counts::counted;
use crate::model::InverterSnapshot;
use crate::plain::plant;
use crate::quantity::Quantity;
use crate::sanitizer::balance::{
    has_culprit, rebalanced, reconciles, sole_culprit, PowerField, PowerFieldState, PowerStates,
};
use crate::sanitizer::energy::{delta_verdict, EnergyField};
use crate::sanitizer::meters::{
    eps_kept, lemma_powered_frame, limited, meter_replaced, meter_states, meters_counted,
    power_flagged, smoothed, smoothed_snapshot, Meter,
};
use crate::sanitizer::power::{field_verdict, rate_verdict, FieldRateRules, Verdict};
use crate::sanitizer::snapshot::{
    energies_counted, energy_replaced, energy_verdict, sanitized, Memory,
};
use vstd::prelude::*;

verus! {

/// The distance of two numbers.
pub open spec fn apart(a: int, b: int) -> int {
    if a < b {
        b - a
    } else {
        a - b
    }
}

/// A power reading of 32 kW or more either way gives way to the previous one, or
/// to the limit with its sign. A smaller one within the limit, or equal to the
/// previous one, is used. Any other gives way to the previous one nine times in
/// a row and is used the tenth time; without a previous one it is used and
/// counted.
pub proof fn law_absolute_limit(raw: i32, prev: Option<i32>, limit: i32, count: Option<u8>)
    requires
        limit > i32::MIN,
    ensures
        ({
            let v = field_verdict(raw, prev, limit, count);
            let size = apart(raw as int, 0);
            let times = match count {
                Some(c) => c + 1,
                None => 1,
            };
            if size >= 32_000 {
                &&& v.replaced
                &&& v.count == Some(0u8)
                &&& v.value == match prev {
                    Some(p) => p as int,
                    None => if raw > 0 {
                        limit as int
                    } else {
                        -limit
                    },
                }
            } else if size <= limit || prev == Some(raw) || times >= 10 {
                v.value == raw && !v.replaced && v.count is None
            } else {
                &&& v.count == Some(times as u8)
                &&& match prev {
                    Some(p) => v.value == p && v.replaced,
                    None => v.value == raw && !v.replaced,
                }
            }
        }),
{
    reveal(field_verdict);
}

/// A power reading gives way to the previous one where, within 60 seconds, it
/// moved from at least 500 W by more watts and by a larger fraction than the
/// rules allow, twice in a row; the third time, and wherever that does not hold,
/// it is used and ends the count.
pub proof fn law_speed_of_change(
    raw: i32,
    prev: Option<i32>,
    elapsed_secs: u64,
    rules: FieldRateRules,
    count: Option<u8>,
)
    ensures
        ({
            let v = rate_verdict(raw, prev, elapsed_secs, rules, count);
            let times = match count {
                Some(c) => c + 1,
                None => 1,
            };
            let rejected = match (prev, rules.rate_fraction) {
                (Some(p), Quantity::Nano(part)) => {
                    &&& elapsed_secs <= 60
                    &&& apart(p as int, 0) >= 500
                    &&& apart(raw as int, p as int) > rules.abs_delta_w
                    &&& apart(raw as int, p as int) * 1_000_000_000 > part * apart(p as int, 0)
                },
                _ => false,
            };
            if rejected && times < 3 {
                v.value == prev->0 && v.replaced && v.count == Some(times as u8)
            } else {
                v.value == raw && !v.replaced && v.count is None
            }
        }),
{
    reveal(rate_verdict);
}

/// The label of a meter, its reading and its limit.
pub open spec fn meter_facts(meter: Meter, snap: InverterSnapshot) -> (Seq<char>, int, int) {
    let plants = plant(snap.device_type);
    match meter {
        Meter::Battery => (
            "battery_power"@,
            snap.battery_power as int,
            if plants {
                20_000
            } else {
                10_000
            },
        ),
        Meter::Grid => (
            "grid_power"@,
            snap.grid_power as int,
            if plants {
                25_000
            } else {
                15_000
            },
        ),
        Meter::Solar => (
            "solar_power"@,
            snap.solar_power as int,
            if plants {
                25_000
            } else {
                10_000
            },
        ),
        Meter::Home => (
            "home_power"@,
            snap.home_power as int,
            if plants {
                25_000
            } else {
                15_000
            },
        ),
        Meter::Eps => (
            "eps_power_w"@,
            if snap.eps_power_w < 0x8000_0000 {
                snap.eps_power_w as int
            } else {
                snap.eps_power_w - 0x1_0000_0000
            },
            if plants {
                25_000
            } else {
                15_000
            },
        ),
    }
}

/// The reading of a meter in the previous snapshot.
pub open spec fn meter_was(meter: Meter, prev: Option<&InverterSnapshot>) -> Option<i32> {
    match prev {
        Some(p) => Some(meter_facts(meter, *p).1 as i32),
        None => None,
    }
}

/// Seconds since the previous snapshot, none where time went back.
pub open spec fn seconds_since(snap: InverterSnapshot, prev: Option<&InverterSnapshot>) -> u64 {
    match prev {
        Some(p) => if snap.timestamp >= p.timestamp {
            (snap.timestamp - p.timestamp) as u64
        } else {
            0
        },
        None => 0,
    }
}

/// Each meter is held to its own limit and then to a change of half and 2 kW,
/// with the counters under its own label.
pub proof fn law_each_meter_is_checked(
    meter: Meter,
    snap: InverterSnapshot,
    prev: Option<&InverterSnapshot>,
    suspects: Map<Seq<char>, u8>,
    rates: Map<Seq<char>, u8>,
)
    ensures
        ({
            let (label, reading, limit) = meter_facts(meter, snap);
            let first = field_verdict(
                reading as i32,
                meter_was(meter, prev),
                limit as i32,
                counted(suspects, label),
            );
            &&& limited(meter, snap, prev, suspects) == first
            &&& smoothed(meter, snap, prev, suspects, rates) == rate_verdict(
                first.value,
                meter_was(meter, prev),
                seconds_since(snap, prev),
                FieldRateRules { rate_fraction: Quantity::Nano(500_000_000), abs_delta_w: 2_000 },
                counted(rates, label),
            )
        }),
{
}

/// The four power readings in plain numbers.
pub struct Powers {
    pub battery: int,
    pub grid: int,
    pub solar: int,
    pub home: int,
}

/// The power readings of a snapshot.
pub open spec fn powers(snap: InverterSnapshot) -> Powers {
    Powers {
        battery: snap.battery_power as int,
        grid: snap.grid_power as int,
        solar: snap.solar_power as int,
        home: snap.home_power as int,
    }
}

/// How far the load is from what solar, battery and grid leave for it.
pub open spec fn gap(p: Powers) -> int {
    apart(p.solar + p.battery - p.grid, p.home)
}

/// The readings with one verdict undone: a rejected reading put back, a used one
/// taken back to the previous snapshot's.
pub open spec fn with_one_undone(
    p: Powers,
    field: PowerField,
    state: PowerFieldState,
    was: int,
) -> Powers {
    let value = if state.rate_rejected {
        state.raw as int
    } else {
        was
    };
    match field {
        PowerField::Solar => Powers { solar: value, ..p },
        PowerField::Battery => Powers { battery: value, ..p },
        PowerField::Grid => Powers { grid: value, ..p },
        PowerField::Home => Powers { home: value, ..p },
    }
}

/// What was read for a field, and the previous snapshot's reading.
pub open spec fn field_facts(field: PowerField, prev: InverterSnapshot, states: PowerStates) -> (
    PowerFieldState,
    int,
) {
    match field {
        PowerField::Solar => (states.solar, prev.solar_power as int),
        PowerField::Battery => (states.battery, prev.battery_power as int),
        PowerField::Grid => (states.grid, prev.grid_power as int),
        PowerField::Home => (states.home, prev.home_power as int),
    }
}

/// Whether a field moved by at least 1 kW and undoing its verdict alone brings
/// the readings within 2 kW of each other. The load counts only where its
/// reading was rejected.
pub open spec fn to_blame(
    field: PowerField,
    snap: InverterSnapshot,
    prev: InverterSnapshot,
    states: PowerStates,
) -> bool {
    let (state, was) = field_facts(field, prev, states);
    &&& apart(state.raw as int, was) >= 1_000
    &&& gap(with_one_undone(powers(snap), field, state, was)) < 2_000
    &&& field is Home ==> state.rate_rejected
}

/// Where the readings are more than 2 kW apart and exactly one field is to
/// blame, its verdict is undone; else they stay as they are.
#[verifier::rlimit(60)]
pub proof fn law_one_field_to_blame_is_undone(
    snap: InverterSnapshot,
    prev: InverterSnapshot,
    states: PowerStates,
    field: PowerField,
)
    ensures
        ({
            let alone = to_blame(field, snap, prev, states) && forall|g: PowerField|
                g != field ==> !#[trigger] to_blame(g, snap, prev, states);
            let (state, was) = field_facts(field, prev, states);
            let out = powers(rebalanced(snap, prev, states));
            &&& gap(powers(snap)) > 2_000 && alone ==> {
                &&& out == with_one_undone(powers(snap), field, state, was)
                &&& has_culprit(snap, prev, states)
            }
            &&& gap(powers(snap)) <= 2_000 ==> {
                &&& out == powers(snap)
                &&& !has_culprit(snap, prev, states)
            }
            &&& (forall|g: PowerField| !#[trigger] to_blame(g, snap, prev, states)) ==> {
                &&& out == powers(snap)
                &&& !has_culprit(snap, prev, states)
            }
            &&& (exists|g: PowerField|
                g != field && #[trigger] to_blame(g, snap, prev, states) && to_blame(
                    field,
                    snap,
                    prev,
                    states,
                )) ==> {
                &&& out == powers(snap)
                &&& !has_culprit(snap, prev, states)
            }
        }),
{
    reveal(rebalanced);
    reveal(has_culprit);
    assert forall|g: PowerField| #[trigger] to_blame(g, snap, prev, states) == reconciles(
        g,
        snap,
        prev,
        states,
    ) by {
        match g {
            PowerField::Solar => {},
            PowerField::Battery => {},
            PowerField::Grid => {},
            PowerField::Home => {},
        }
    }
    let off = crate::sanitizer::balance::imbalance(
        snap.battery_power,
        snap.grid_power,
        snap.solar_power,
        snap.home_power,
    );
    assert(off == gap(powers(snap)));
    let alone = to_blame(field, snap, prev, states) && forall|g: PowerField|
        g != field ==> !#[trigger] to_blame(g, snap, prev, states);
    if gap(powers(snap)) > 2_000 && alone {
        assert forall|f: PowerField| #[trigger] reconciles(f, snap, prev, states) <==> f
            == field by {
            assert(to_blame(f, snap, prev, states) == reconciles(f, snap, prev, states));
        }
        assert(sole_culprit(field, snap, prev, states));
        assert forall|g: PowerField| g != field implies !#[trigger] sole_culprit(
            g,
            snap,
            prev,
            states,
        ) by {
            if sole_culprit(g, snap, prev, states) {
                assert(reconciles(field, snap, prev, states) <==> field == g);
            }
        }
    } else if gap(powers(snap)) <= 2_000 {
        assert forall|g: PowerField| !#[trigger] sole_culprit(g, snap, prev, states) by {}
    } else if forall|g: PowerField| !#[trigger] to_blame(g, snap, prev, states) {
        assert forall|g: PowerField| !#[trigger] sole_culprit(g, snap, prev, states) by {
            assert(!to_blame(g, snap, prev, states));
            if sole_culprit(g, snap, prev, states) {
                assert(reconciles(g, snap, prev, states) <==> g == g);
            }
        }
    } else if exists|g: PowerField|
        g != field && #[trigger] to_blame(g, snap, prev, states) && to_blame(
            field,
            snap,
            prev,
            states,
        ) {
        let g = choose|g: PowerField|
            g != field && #[trigger] to_blame(g, snap, prev, states) && to_blame(
                field,
                snap,
                prev,
                states,
            );
        assert forall|x: PowerField| !#[trigger] sole_culprit(x, snap, prev, states) by {
            if sole_culprit(x, snap, prev, states) {
                assert(reconciles(g, snap, prev, states) <==> g == x);
                assert(reconciles(field, snap, prev, states) <==> field == x);
            }
        }
    }
}

/// The power readings that come out are those of the separate checks, balanced
/// against each other where there is a previous snapshot, the connection has
/// settled and the model is no plant; the backup supply comes out as checked,
/// and as zero where that is negative.
#[verifier::rlimit(60)]
pub proof fn law_power_readings_come_out_checked(
    before: InverterSnapshot,
    prev: Option<&InverterSnapshot>,
    skip_delta: bool,
    reset_window: bool,
    memory: Memory,
    after: InverterSnapshot,
)
    requires
        sanitized(before, prev, skip_delta, reset_window, memory, after),
    ensures
        ({
            let (s, t) = (memory.suspects, memory.rates);
            let of = |m: Meter| smoothed(m, before, prev, s, t);
            let state = |m: Meter|
                PowerFieldState {
                    raw: meter_facts(m, before).1 as i32,
                    rate_rejected: of(m).replaced,
                };
            let checked = InverterSnapshot {
                battery_power: of(Meter::Battery).value,
                grid_power: of(Meter::Grid).value,
                solar_power: of(Meter::Solar).value,
                home_power: of(Meter::Home).value,
                ..before
            };
            let states = PowerStates {
                battery: state(Meter::Battery),
                grid: state(Meter::Grid),
                solar: state(Meter::Solar),
                home: state(Meter::Home),
            };
            let balanced = !skip_delta && !plant(before.device_type) && prev is Some;
            &&& powers(after) == powers(
                if balanced {
                    rebalanced(checked, *prev->0, states)
                } else {
                    checked
                },
            )
            &&& after.eps_power_w == if of(Meter::Eps).value < 0 {
                0
            } else {
                of(Meter::Eps).value as u32
            }
            &&& power_flagged(before, prev, skip_delta, s, t) <==> {
                ||| (exists|m: Meter|
                    (#[trigger] limited(m, before, prev, s)).replaced || smoothed(
                        m,
                        before,
                        prev,
                        s,
                        t,
                    ).replaced)
                ||| balanced && has_culprit(checked, *prev->0, states)
                ||| after.eps_power_w != before.eps_power_w
            }
        }),
{
    let (s, t) = (memory.suspects, memory.rates);
    lemma_powered_frame(before, prev, skip_delta, s, t);
    assert(smoothed_snapshot(before, prev, s, t) == (InverterSnapshot {
        battery_power: smoothed(Meter::Battery, before, prev, s, t).value,
        grid_power: smoothed(Meter::Grid, before, prev, s, t).value,
        solar_power: smoothed(Meter::Solar, before, prev, s, t).value,
        home_power: smoothed(Meter::Home, before, prev, s, t).value,
        ..before
    }));
    let states = meter_states(before, prev, s, t);
    assert(after.eps_power_w == eps_kept(before, prev, s, t));
    if exists|m: Meter| #[trigger] meter_replaced(m, before, prev, s, t) {
        let m = choose|m: Meter| #[trigger] meter_replaced(m, before, prev, s, t);
        let first = limited(m, before, prev, s);
        assert(first.replaced || smoothed(m, before, prev, s, t).replaced);
    }
    if exists|m: Meter|
        (#[trigger] limited(m, before, prev, s)).replaced || smoothed(
            m,
            before,
            prev,
            s,
            t,
        ).replaced {
        let m = choose|m: Meter|
            (#[trigger] limited(m, before, prev, s)).replaced || smoothed(
                m,
                before,
                prev,
                s,
                t,
            ).replaced;
        assert(meter_replaced(m, before, prev, s, t));
    }
}

/// The counters of a meter become what its two checks leave.
pub proof fn law_meters_leave_their_counts(
    meter: Meter,
    snap: InverterSnapshot,
    prev: Option<&InverterSnapshot>,
    suspects: Map<Seq<char>, u8>,
    rates: Map<Seq<char>, u8>,
    new_suspects: Map<Seq<char>, u8>,
    new_rates: Map<Seq<char>, u8>,
)
    requires
        meters_counted(snap, prev, suspects, rates, new_suspects, new_rates),
    ensures
        counted(new_suspects, meter_facts(meter, snap).0) == limited(
            meter,
            snap,
            prev,
            suspects,
        ).count,
        counted(new_rates, meter_facts(meter, snap).0) == smoothed(
            meter,
            snap,
            prev,
            suspects,
            rates,
        ).count,
{
    reveal(meters_counted);
    assert(meter.name() == meter_facts(meter, snap).0);
}

/// Of a counter: its label, its value, the most it can be, the power in kW at
/// which it may grow, the noise in billionths of a kWh, and whether it resets.
pub struct CounterFacts {
    pub label: Seq<char>,
    pub value: Quantity,
    pub most: int,
    pub grows: int,
    pub noise: int,
    pub daily: bool,
}

/// A daily counter.
pub open spec fn daily(
    snap: InverterSnapshot,
    label: Seq<char>,
    value: Quantity,
    noise: int,
) -> CounterFacts {
    CounterFacts {
        label,
        value,
        most: if plant(snap.device_type) {
            500
        } else {
            200
        },
        grows: 10,
        noise,
        daily: true,
    }
}

/// A lifetime counter.
pub open spec fn lifetime(label: Seq<char>, value: Quantity) -> CounterFacts {
    CounterFacts { label, value, most: 100_000, grows: 15, noise: 250_000_000, daily: false }
}

/// What holds of each counter.
pub open spec fn counter_facts(field: EnergyField, snap: InverterSnapshot) -> CounterFacts {
    let fine: int = 250_000_000;
    match field {
        EnergyField::TodaySolar => daily(snap, "today_solar_kwh"@, snap.today_solar_kwh, fine),
        EnergyField::TodayPv1 => daily(snap, "today_pv1_kwh"@, snap.today_pv1_kwh, fine),
        EnergyField::TodayPv2 => daily(snap, "today_pv2_kwh"@, snap.today_pv2_kwh, fine),
        EnergyField::TodayImport => daily(snap, "today_import_kwh"@, snap.today_import_kwh, fine),
        EnergyField::TodayExport => daily(snap, "today_export_kwh"@, snap.today_export_kwh, fine),
        EnergyField::TodayCharge => daily(snap, "today_charge_kwh"@, snap.today_charge_kwh, fine),
        EnergyField::TodayDischarge => daily(
            snap,
            "today_discharge_kwh"@,
            snap.today_discharge_kwh,
            fine,
        ),
        EnergyField::TodayConsumption => daily(
            snap,
            "today_consumption_kwh"@,
            snap.today_consumption_kwh,
            500_000_000,
        ),
        EnergyField::TodayAcCharge => daily(
            snap,
            "today_ac_charge_kwh"@,
            snap.today_ac_charge_kwh,
            fine,
        ),
        EnergyField::TotalImport => lifetime("total_import_kwh"@, snap.total_import_kwh),
        EnergyField::TotalExport => lifetime("total_export_kwh"@, snap.total_export_kwh),
        EnergyField::TotalCharge => lifetime("total_charge_kwh"@, snap.total_charge_kwh),
        EnergyField::TotalDischarge => lifetime("total_discharge_kwh"@, snap.total_discharge_kwh),
    }
}

/// How the growth of a counter from `was` to `now`, both in billionths of a kWh,
/// is judged. From less than 1 kWh anything goes. A daily counter may drop from
/// above 5 kWh to below 5 kWh around midnight. A drop within the noise keeps the
/// old value in silence. Any other drop, and a rise by more than the margin of
/// 1 kWh and what the elapsed time allows, keeps the old value nine times in a
/// row and is used the tenth time.
pub open spec fn growth_judged(
    v: Verdict<Quantity>,
    was: int,
    now: int,
    seconds: int,
    grows: int,
    noise: int,
    midnight: bool,
    count: Option<u8>,
) -> bool {
    let kwh: int = 1_000_000_000;
    let times = match count {
        Some(c) => c + 1,
        None => 1,
    };
    let reset = midnight && now < 5 * kwh && was > 5 * kwh;
    let drop = now < was;
    let rise = (now - was - kwh) * 3600 > seconds * grows * kwh;
    if was >= kwh && !reset && drop && was - now <= noise {
        v.value == Quantity::Nano(was as i64) && !v.replaced && v.count == count
    } else if was >= kwh && !reset && (drop || rise) && times < 10 {
        v.value == Quantity::Nano(was as i64) && v.replaced && v.count == Some(times as u8)
    } else {
        v.value == Quantity::Nano(now as i64) && !v.replaced && v.count is None
    }
}

/// The growth check judges numbers as [`growth_judged`] says, and uses a reading
/// where it or the previous value is none.
pub proof fn law_growth(
    raw: Quantity,
    prev: Quantity,
    elapsed_secs: u64,
    growth_kw: int,
    noise: int,
    may_reset: bool,
    count: Option<u8>,
)
    requires
        noise >= 0,
    ensures
        ({
            let v = delta_verdict(
                raw,
                prev,
                elapsed_secs,
                growth_kw,
                noise,
                may_reset,
                count,
            );
            match (raw, prev) {
                (Quantity::Nano(now), Quantity::Nano(was)) => growth_judged(
                    v,
                    was as int,
                    now as int,
                    elapsed_secs as int,
                    growth_kw,
                    noise,
                    may_reset,
                    count,
                ),
                _ => v.value == raw && !v.replaced && v.count is None,
            }
        }),
{
}

/// Each counter outside zero to its most gives way to the previous value, or to
/// zero; what is left is judged by its growth since the previous snapshot, once
/// the connection has settled. Either is reported, and only that.
#[verifier::rlimit(60)]
pub proof fn law_each_counter_is_checked(
    field: EnergyField,
    before: InverterSnapshot,
    prev: Option<&InverterSnapshot>,
    skip_delta: bool,
    reset_window: bool,
    memory: Memory,
    after: InverterSnapshot,
)
    requires
        sanitized(before, prev, skip_delta, reset_window, memory, after),
    ensures
        ({
            let facts = counter_facts(field, before);
            let bad = match facts.value {
                Quantity::Nano(n) => n < 0 || n > facts.most * 1_000_000_000,
                Quantity::Nan => false,
            };
            let kept = if !bad {
                facts.value
            } else if prev is Some {
                counter_facts(field, *prev->0).value
            } else {
                Quantity::Nano(0)
            };
            let count = counted(memory.deltas, facts.label);
            let verdict = if prev is Some && !skip_delta {
                delta_verdict(
                    kept,
                    counter_facts(field, *prev->0).value,
                    seconds_since(before, prev),
                    facts.grows,
                    facts.noise,
                    reset_window && facts.daily,
                    count,
                )
            } else {
                Verdict { value: kept, replaced: false, count }
            };
            &&& counter_facts(field, after).value == verdict.value
            &&& energy_replaced(field, before, prev, skip_delta, reset_window, memory.deltas)
                <==> bad || verdict.replaced
            &&& energy_verdict(field, before, prev, skip_delta, reset_window, memory.deltas)
                == verdict
        }),
{
    assert(field.of(after) == counter_facts(field, after).value);
}

/// The count of a counter becomes what its check leaves.
pub proof fn law_counters_leave_their_counts(
    field: EnergyField,
    snap: InverterSnapshot,
    prev: Option<&InverterSnapshot>,
    skip_delta: bool,
    reset_window: bool,
    counts: Map<Seq<char>, u8>,
    new_counts: Map<Seq<char>, u8>,
)
    requires
        energies_counted(snap, prev, skip_delta, reset_window, counts, new_counts),
    ensures
        counted(new_counts, counter_facts(field, snap).label) == energy_verdict(
            field,
            snap,
            prev,
            skip_delta,
            reset_window,
            counts,
        ).count,
{
    assert(field.name() == counter_facts(field, snap).label);
}

} // verus!
