//! What is kept of blocks and modules that were not read, what the battery
//! management tells, and what betrays leaked memory.
use crate::model::{
    BatteryModule, BatteryRatings, DeviceType, HvBcuCluster, InverterSnapshot, ScheduleSlot,
};
use crate::ordering::{lemma_stable_sort, ranks};
use crate::plain::{plant, ten_slots, three_phase_block};
use crate::quantity::{mean, nano_sum, total, Quantity};
use crate::sanitizer::bms::{
    capacities, derived, power_for_capacity, real_battery, register_pair, serial_plausible,
    stored_energy, temperatures, trimmed, white_space,
};
use crate::sanitizer::carry_forward::{
    by_index, carried, carried_modules, carried_slot, config_changed, has_index, missing_modules,
    slots_changed, BlocksRead,
};
use crate::sanitizer::fingerprint::{high_count, leaked_count, suspicious};
use crate::sanitizer::grace::{GraceCumulativeSamples, GraceField};
use vstd::prelude::*;

verus! {

/// What was read as it was, or the previous value where it was missed.
pub open spec fn kept<T>(missed: bool, now: T, was: T) -> T {
    if missed {
        was
    } else {
        now
    }
}

/// Whether two slots differ in their window.
pub open spec fn other_window(a: ScheduleSlot, b: ScheduleSlot) -> bool {
    ScheduleSlot { target_soc: 0, ..a } != ScheduleSlot { target_soc: 0, ..b }
}

/// Blocks that were missed keep their previous values, on the models that have
/// them and only where the model is the same: the AC configuration its limits,
/// switches and pause, the three-phase configuration its limits, reserve and
/// target, and a plant its export limit where it reads zero. Nothing else
/// changes.
#[verifier::rlimit(60)]
pub proof fn law_missed_blocks_keep_their_values(
    snap: InverterSnapshot,
    prev: InverterSnapshot,
    read: BlocksRead,
)
    ensures
        ({
            let out = carried(snap, prev, read);
            let same = snap.device_type == prev.device_type;
            let ac = same && !read.ac_config && (snap.device_type == DeviceType::ACCoupled
                || snap.device_type == DeviceType::ACCoupledMk2 || snap.device_type
                == DeviceType::ACThreePhase);
            let phases = same && !read.three_phase_config && three_phase_block(snap.device_type);
            let export = same && !read.ems_plant && plant(snap.device_type) && snap.export_limit_w
                == 0;
            let pause = other_window(snap.battery_pause_slot, prev.battery_pause_slot);
            &&& out.charge_rate == kept(ac || phases, snap.charge_rate, prev.charge_rate)
            &&& out.discharge_rate == kept(
                ac || phases,
                snap.discharge_rate,
                prev.discharge_rate,
            )
            &&& out.battery_reserve == kept(phases, snap.battery_reserve, prev.battery_reserve)
            &&& out.target_soc == kept(phases, snap.target_soc, prev.target_soc)
            &&& out.ac_export_priority == kept(
                ac,
                snap.ac_export_priority,
                prev.ac_export_priority,
            )
            &&& out.ac_eps_enabled == kept(ac, snap.ac_eps_enabled, prev.ac_eps_enabled)
            &&& out.battery_pause_mode == kept(
                ac,
                snap.battery_pause_mode,
                prev.battery_pause_mode,
            )
            &&& out.battery_pause_slot == kept(
                ac && pause,
                snap.battery_pause_slot,
                prev.battery_pause_slot,
            )
            &&& out.export_limit_w == kept(export, snap.export_limit_w, prev.export_limit_w)
            &&& out == (InverterSnapshot {
                charge_rate: out.charge_rate,
                discharge_rate: out.discharge_rate,
                battery_reserve: out.battery_reserve,
                target_soc: out.target_soc,
                ac_export_priority: out.ac_export_priority,
                ac_eps_enabled: out.ac_eps_enabled,
                battery_pause_mode: out.battery_pause_mode,
                battery_pause_slot: out.battery_pause_slot,
                export_limit_w: out.export_limit_w,
                ..snap
            })
            &&& config_changed(snap, prev, read) <==> out != snap
        }),
{
    let a = snap.battery_pause_slot;
    let b = prev.battery_pause_slot;
    assert(other_window(a, b) <==> crate::sanitizer::carry_forward::window_differs(a, b));
    crate::sanitizer::carry_forward::law_change_is_reported(snap, prev, read);
}

/// Where the extended slots were missed, on a model that has them and is the
/// same as before, the first two slots keep a previous target above 4 % over one
/// that reads 4 %, and the others a previous window over one that reads
/// disabled.
pub proof fn law_missed_slots_keep_their_values(
    snap: InverterSnapshot,
    prev: InverterSnapshot,
    read: BlocksRead,
    i: int,
    slot: ScheduleSlot,
    was: ScheduleSlot,
)
    requires
        0 <= i < 10,
    ensures
        read.slots_missed(snap, prev) <==> !read.extended_slots && ten_slots(snap.device_type)
            && snap.device_type == prev.device_type,
        carried_slot(i, slot, was) == if i <= 1 && slot.target_soc == 4 && was.target_soc > 4 {
            ScheduleSlot { target_soc: was.target_soc, ..slot }
        } else if i >= 2 && !slot.enabled && was.enabled {
            was
        } else {
            slot
        },
{
}

/// A bank of slots counts as changed exactly where one of them changes.
pub proof fn law_slot_changes_are_noticed(slots: Seq<ScheduleSlot>, prev: Seq<ScheduleSlot>)
    ensures
        !slots_changed(slots, prev) <==> forall|i: int|
            0 <= i < 10 ==> carried_slot(i, #[trigger] slots[i], prev[i]) == slots[i],
{
}

/// Modules are reported as they were read where none is missing, and as before
/// where none was read. Otherwise those that were read and the previous ones of
/// positions that were not are reported, in the order of their positions.
#[verifier::rlimit(60)]
pub proof fn law_modules_reported(
    modules: Seq<BatteryModule>,
    prev: Seq<BatteryModule>,
    m: BatteryModule,
)
    ensures
        ({
            let out = carried_modules(modules, Some(prev));
            let complete = forall|i: int|
                0 <= i < prev.len() ==> exists|j: int|
                    0 <= j < modules.len() && (#[trigger] modules[j]).index == (
                    #[trigger] prev[i]).index;
            &&& carried_modules(modules, None) == modules
            &&& modules.len() == 0 ==> out == prev
            &&& complete && modules.len() > 0 ==> out == modules
            &&& modules.len() > 0 ==> (out.contains(m) <==> modules.contains(m) || prev.contains(m)
                && forall|j: int| 0 <= j < modules.len() ==> (#[trigger] modules[j]).index != m.index)
            &&& !complete && modules.len() > 0 ==> forall|i: int, j: int|
                0 <= i < j < out.len() ==> (#[trigger] out[i]).index <= (#[trigger] out[j]).index
        }),
{
    let out = carried_modules(modules, Some(prev));
    let missing = missing_modules(prev, modules);
    let wanted = |x: BatteryModule| !has_index(modules, x.index);
    let joined = modules + missing;
    assert(ranks(by_index()));
    lemma_stable_sort(joined, by_index());
    let sorted = crate::ordering::stable_sort(joined, by_index());
    joined.to_multiset_ensures();
    sorted.to_multiset_ensures();
    assert(joined.contains(m) <==> sorted.contains(m)) by {
        assert(joined.contains(m) <==> joined.to_multiset().count(m) > 0);
        assert(sorted.contains(m) <==> sorted.to_multiset().count(m) > 0);
    }
    assert(missing.contains(m) <==> prev.contains(m) && wanted(m)) by {
        if missing.contains(m) {
            let k = choose|k: int| 0 <= k < missing.len() && missing[k] == m;
            prev.lemma_filter_pred(wanted, k);
            prev.lemma_filter_contains_rev(wanted, m);
        }
        if prev.contains(m) && wanted(m) {
            let k = choose|k: int| 0 <= k < prev.len() && prev[k] == m;
            prev.lemma_filter_contains(wanted, k);
        }
    }
    assert(joined.contains(m) <==> modules.contains(m) || missing.contains(m)) by {
        if modules.contains(m) {
            let k = choose|k: int| 0 <= k < modules.len() && modules[k] == m;
            assert(joined[k] == m);
        }
        if missing.contains(m) {
            let k = choose|k: int| 0 <= k < missing.len() && missing[k] == m;
            assert(joined[modules.len() + k] == m);
        }
        if joined.contains(m) {
            let k = choose|k: int| 0 <= k < joined.len() && joined[k] == m;
            if k < modules.len() {
                assert(modules[k] == m);
            } else {
                assert(missing[k - modules.len()] == m);
            }
        }
    }
    let complete = forall|i: int|
        0 <= i < prev.len() ==> exists|j: int|
            0 <= j < modules.len() && (#[trigger] modules[j]).index == (#[trigger] prev[i]).index;
    if complete {
        if missing.len() > 0 {
            prev.lemma_filter_pred(wanted, 0);
            prev.lemma_filter_contains_rev(wanted, missing[0]);
            let k = choose|k: int| 0 <= k < prev.len() && prev[k] == missing[0];
            assert(has_index(modules, prev[k].index));
        }
        assert(missing.len() == 0);
        assert(joined =~= modules);
    } else {
        let i = choose|i: int|
            0 <= i < prev.len() && !(exists|j: int|
                0 <= j < modules.len() && (#[trigger] modules[j]).index == (
                #[trigger] prev[i]).index);
        assert(wanted(prev[i]));
        prev.lemma_filter_contains(wanted, i);
        assert(missing.len() > 0);
        if modules.len() > 0 {
            assert forall|a: int, b: int| 0 <= a < b < out.len() implies (#[trigger] out[a]).index
                <= (#[trigger] out[b]).index by {
                assert(!by_index()(out[b], out[a]));
            }
        }
    }
}

/// A snapshot of a plant or a plain PV inverter is left alone. On every other
/// model the battery temperature is the mean over the modules; without modules
/// it is unknown on models of the three-phase block, and as read on the others,
/// of which nothing else changes.
pub proof fn law_battery_temperature_comes_from_the_modules(
    snap: InverterSnapshot,
    cluster: Option<&HvBcuCluster>,
    ratings: BatteryRatings,
)
    ensures
        ({
            let out = derived(snap, cluster, ratings);
            let modules = snap.battery_modules@;
            let phases = three_phase_block(snap.device_type);
            &&& plant(snap.device_type) || snap.device_type == DeviceType::PvInverter ==> out
                == snap
            &&& !plant(snap.device_type) && snap.device_type != DeviceType::PvInverter ==> {
                &&& modules.len() > 0 ==> out.battery_temperature == mean(temperatures(modules))
                &&& modules.len() == 0 && phases ==> out.battery_temperature is Nan
                &&& modules.len() == 0 && !phases ==> out == snap
                &&& !phases ==> out == (InverterSnapshot {
                    battery_temperature: out.battery_temperature,
                    ..snap
                })
            }
            &&& forall|i: int|
                0 <= i < modules.len() ==> #[trigger] temperatures(modules)[i]
                    == modules[i].temperature
            &&& temperatures(modules).len() == modules.len()
        }),
{
}

/// The mean lies between the bounds of what it is the mean of, is no number
/// where one of them is none, and is their sum divided by their number, rounded
/// down.
pub proof fn law_mean_and_total(values: Seq<Quantity>, low: i64, high: i64)
    requires
        values.len() > 0,
        forall|i: int|
            0 <= i < values.len() ==> match #[trigger] values[i] {
                Quantity::Nano(n) => low <= n && n <= high,
                Quantity::Nan => true,
            },
    ensures
        (exists|i: int| 0 <= i < values.len() && #[trigger] values[i] is Nan) ==> mean(
            values,
        ) is Nan && total(values) is Nan,
        (forall|i: int| 0 <= i < values.len() ==> #[trigger] values[i] is Nano) ==> {
            &&& values.len() * low <= nano_sum(values) <= values.len() * high
            &&& mean(values) matches Quantity::Nano(m) && low <= m <= high && m * values.len()
                <= nano_sum(values) < (m + 1) * values.len()
            &&& i64::MIN <= nano_sum(values) <= i64::MAX ==> total(values) == Quantity::Nano(
                nano_sum(values) as i64,
            )
        },
        nano_sum(seq![Quantity::Nano(low)]) == low,
        nano_sum(values.push(Quantity::Nano(low))) == nano_sum(values) + low,
{
    if forall|i: int| 0 <= i < values.len() ==> #[trigger] values[i] is Nano {
        lemma_sum_bounds(values, low as int, high as int);
        let n = values.len() as int;
        let sum = nano_sum(values);
        let m = sum / n;
        vstd::arithmetic::div_mod::lemma_fundamental_div_mod(sum, n);
        assert(sum == n * m + sum % n);
        assert(0 <= sum % n < n);
        assert(n * m <= sum < n * m + n);
        assert(m * n == n * m) by (nonlinear_arith);
        assert((m + 1) * n == n * m + n) by (nonlinear_arith);
        assert(low <= m) by (nonlinear_arith)
            requires
                n > 0,
                n * low <= sum,
                sum < n * m + n,
        ;
        assert(m <= high) by (nonlinear_arith)
            requires
                n > 0,
                sum <= n * high,
                n * m <= sum,
        ;
    }
    let one = seq![Quantity::Nano(low)];
    assert(one.drop_last() =~= Seq::<Quantity>::empty());
    assert(nano_sum(one.drop_last()) == 0);
    assert(values.push(Quantity::Nano(low)).drop_last() =~= values);
}

proof fn lemma_sum_bounds(values: Seq<Quantity>, low: int, high: int)
    requires
        forall|i: int|
            0 <= i < values.len() ==> (#[trigger] values[i] matches Quantity::Nano(n) && low <= n
                && n <= high),
    ensures
        values.len() * low <= nano_sum(values) <= values.len() * high,
    decreases values.len(),
{
    if values.len() > 0 {
        let rest = values.drop_last();
        assert forall|i: int| 0 <= i < rest.len() implies (#[trigger] rest[i] matches Quantity::Nano(n)
            && low <= n && n <= high) by {
            assert(rest[i] == values[i]);
        }
        lemma_sum_bounds(rest, low, high);
        assert(values.last() == values[values.len() - 1]);
        let n = values.len() as int;
        assert(n * low == (n - 1) * low + low) by (nonlinear_arith);
        assert(n * high == (n - 1) * high + high) by (nonlinear_arith);
    }
}

/// On models of the three-phase block the capacity is the charge of the stack,
/// or else of all modules, at the nominal voltage, and zero without either. The
/// power is that of the model and half the capacity at most. Voltage and current
/// come from the stack where it reports a voltage, and the state of charge where
/// none was read and the stack has one.
pub proof fn law_three_phase_battery_comes_from_the_stack(
    snap: InverterSnapshot,
    cluster: Option<&HvBcuCluster>,
    ratings: BatteryRatings,
)
    requires
        three_phase_block(snap.device_type),
    ensures
        ({
            let out = derived(snap, cluster, ratings);
            let modules = snap.battery_modules@;
            &&& cluster is None && modules.len() == 0 ==> out.battery_capacity_kwh
                == Quantity::Nano(0)
            &&& cluster is None && modules.len() > 0 ==> out.battery_capacity_kwh == stored_energy(
                total(capacities(modules)),
                ratings.nominal_voltage,
            )
            &&& cluster matches Some(c) ==> match c.nominal_capacity_ah {
                Quantity::Nano(ah) => i64::MIN <= ah * c.number_of_modules <= i64::MAX
                    ==> out.battery_capacity_kwh == stored_energy(
                    Quantity::Nano((ah * c.number_of_modules) as i64),
                    ratings.nominal_voltage,
                ),
                Quantity::Nan => out.battery_capacity_kwh is Nan,
            }
            &&& out.max_battery_power_w == power_for_capacity(
                out.battery_capacity_kwh,
                ratings.max_power_w,
            )
            &&& cluster is Some && (cluster->0.battery_voltage matches Quantity::Nano(v) && v > 0)
                ==> out.battery_voltage == cluster->0.battery_voltage && out.battery_current
                == cluster->0.battery_current
            &&& !(cluster is Some && (cluster->0.battery_voltage matches Quantity::Nano(v) && v
                > 0)) ==> out.battery_voltage == snap.battery_voltage && out.battery_current
                == snap.battery_current
            &&& out.soc == if cluster is Some && snap.soc == 0 {
                if cluster->0.battery_soc_max > 100 {
                    100
                } else {
                    cluster->0.battery_soc_max
                }
            } else {
                snap.soc
            }
            &&& out == (InverterSnapshot {
                battery_temperature: out.battery_temperature,
                battery_capacity_kwh: out.battery_capacity_kwh,
                max_battery_power_w: out.max_battery_power_w,
                battery_voltage: out.battery_voltage,
                battery_current: out.battery_current,
                soc: out.soc,
                ..snap
            })
            &&& forall|i: int|
                0 <= i < modules.len() ==> #[trigger] capacities(modules)[i]
                    == modules[i].capacity_ah
            &&& capacities(modules).len() == modules.len()
        }),
{
}

/// A charge in ampere hours at a voltage holds their product in watt hours,
/// rounded down to a billionth of a kWh; the power for a capacity is the model's
/// or half the capacity in watts, whichever is less, and the model's where the
/// capacity is not above zero or unknown.
pub proof fn law_energy_and_power_of_a_charge(ah: i64, volts: i64, max_power_w: u32)
    ensures
        ({
            let product = ah * volts;
            stored_energy(Quantity::Nano(ah), Quantity::Nano(volts)) matches Quantity::Nano(e) && (
            i64::MIN < e < i64::MAX ==> e * 1_000_000_000_000 <= product < (e + 1)
                * 1_000_000_000_000)
        }),
        stored_energy(Quantity::Nan, Quantity::Nano(volts)) is Nan,
        stored_energy(Quantity::Nano(ah), Quantity::Nan) is Nan,
        ({
            let p = power_for_capacity(Quantity::Nano(ah), max_power_w);
            &&& p <= max_power_w
            &&& ah <= 0 ==> p == max_power_w
            &&& ah > 0 ==> p * 2_000_000 <= ah && (p == max_power_w || (p + 1) * 2_000_000 > ah)
                || p == max_power_w && max_power_w * 2_000_000 <= ah
        }),
        power_for_capacity(Quantity::Nan, max_power_w) == max_power_w,
{
    let product = ah * volts;
    let e = product / 1_000_000_000_000;
    assert(e * 1_000_000_000_000 <= product < (e + 1) * 1_000_000_000_000);
}

/// Two registers make a number, the first counting 65536; one that was not read
/// counts zero.
pub proof fn law_register_pairs(data: Seq<u16>, at: int)
    requires
        0 <= at,
    ensures
        at + 1 < data.len() ==> register_pair(data, at) == 65536 * data[at] + data[at + 1],
        at + 1 == data.len() ==> register_pair(data, at) == 65536 * data[at],
        at >= data.len() ==> register_pair(data, at) == 0,
{
}

/// Whether `kept`, which stands in `[i, j)` of `text`, is `text` without white
/// space at its ends.
#[verifier::opaque]
spec fn trims_to(text: Seq<char>, kept: Seq<char>, i: int, j: int) -> bool {
    &&& 0 <= i <= j <= text.len()
    &&& kept == text.subrange(i, j)
    &&& forall|k: int| 0 <= k < i ==> white_space(#[trigger] text[k])
    &&& forall|k: int| j <= k < text.len() ==> white_space(#[trigger] text[k])
    &&& i < j ==> !white_space(text[i]) && !white_space(text[j - 1])
}

proof fn lemma_trims_front(text: Seq<char>, kept: Seq<char>, i: int, j: int)
    requires
        text.len() > 0,
        white_space(text[0]),
        trims_to(text.skip(1), kept, i, j),
    ensures
        trims_to(text, kept, i + 1, j + 1),
{
    reveal(trims_to);
    let rest = text.skip(1);
    assert(rest.subrange(i, j) =~= text.subrange(i + 1, j + 1));
    assert forall|k: int| 0 <= k < i + 1 implies white_space(#[trigger] text[k]) by {
        if k > 0 {
            assert(rest[k - 1] == text[k]);
        }
    }
    assert forall|k: int| j + 1 <= k < text.len() implies white_space(#[trigger] text[k]) by {
        assert(rest[k - 1] == text[k]);
    }
}

proof fn lemma_trims_back(text: Seq<char>, kept: Seq<char>, i: int, j: int)
    requires
        text.len() > 0,
        white_space(text.last()),
        trims_to(text.drop_last(), kept, i, j),
    ensures
        trims_to(text, kept, i, j),
{
    reveal(trims_to);
    let rest = text.drop_last();
    assert(rest.subrange(i, j) =~= text.subrange(i, j));
    assert forall|k: int| 0 <= k < i implies white_space(#[trigger] text[k]) by {
        assert(rest[k] == text[k]);
    }
    assert forall|k: int| j <= k < text.len() implies white_space(#[trigger] text[k]) by {
        if k < text.len() - 1 {
            assert(rest[k] == text[k]);
        }
    }
}

proof fn lemma_trims_nothing(text: Seq<char>)
    requires
        text.len() > 0 ==> !white_space(text[0]) && !white_space(text.last()),
    ensures
        trims_to(text, text, 0, text.len() as int),
{
    reveal(trims_to);
    assert(text.subrange(0, text.len() as int) =~= text);
}

proof fn lemma_trimmed(text: Seq<char>) -> (r: (int, int))
    ensures
        trims_to(text, trimmed(text), r.0, r.1),
    decreases text.len(),
{
    if text.len() == 0 {
        lemma_trims_nothing(text);
        (0, 0)
    } else if white_space(text[0]) {
        let (i, j) = lemma_trimmed(text.skip(1));
        lemma_trims_front(text, trimmed(text.skip(1)), i, j);
        (i + 1, j + 1)
    } else if white_space(text.last()) {
        let (i, j) = lemma_trimmed(text.drop_last());
        lemma_trims_back(text, trimmed(text.drop_last()), i, j);
        (i, j)
    } else {
        lemma_trims_nothing(text);
        (0, text.len() as int)
    }
}

/// A serial number is plausible exactly where, blanks and line ends around it
/// aside, it is four characters or more of visible ASCII and blanks.
#[verifier::rlimit(60)]
pub proof fn law_plausible_serials(serial: Seq<char>)
    requires
        forall|k: int| 0 <= k < serial.len() ==> (#[trigger] serial[k]) as u32 <= 0x7f,
    ensures
        serial_plausible(serial) <==> exists|i: int, j: int|
            {
                &&& 0 <= i && i + 4 <= j && j <= serial.len()
                &&& #[trigger] bare(serial, i, j)
                &&& forall|k: int|
                    i <= k < j ==> 32 <= (#[trigger] serial[k]) as u32 && serial[k] as u32 <= 126
            },
{
    let (i, j) = lemma_trimmed(serial);
    reveal(trims_to);
    let t = trimmed(serial);
    assert forall|k: int| 0 <= k < serial.len() implies blank(#[trigger] serial[k]) == white_space(
        serial[k],
    ) by {}
    if serial_plausible(serial) {
        assert(bare(serial, i, j));
        assert forall|k: int| i <= k < j implies 32 <= (#[trigger] serial[k]) as u32
            && serial[k] as u32 <= 126 by {
            assert(t[k - i] == serial[k]);
        }
    }
    if exists|a: int, b: int|
        {
            &&& 0 <= a && a + 4 <= b && b <= serial.len()
            &&& #[trigger] bare(serial, a, b)
            &&& forall|k: int|
                a <= k < b ==> 32 <= (#[trigger] serial[k]) as u32 && serial[k] as u32 <= 126
        } {
        let (a, b) = choose|a: int, b: int|
            {
                &&& 0 <= a && a + 4 <= b && b <= serial.len()
                &&& #[trigger] bare(serial, a, b)
                &&& forall|k: int|
                    a <= k < b ==> 32 <= (#[trigger] serial[k]) as u32 && serial[k] as u32 <= 126
            };
        if i == j {
            assert(white_space(serial[a]));
            assert(!blank(serial[a]));
        }
        assert(i < j);
        if i < a {
            assert(blank(serial[i]));
        }
        if a < i {
            assert(white_space(serial[a]));
        }
        assert(i == a);
        if j < b {
            assert(white_space(serial[b - 1]));
        }
        if b < j {
            assert(blank(serial[j - 1]));
        }
        assert(j == b);
        assert forall|k: int| 0 <= k < t.len() implies crate::sanitizer::bms::printable(
            #[trigger] t[k],
        ) by {
            assert(t[k] == serial[k + i]);
        }
    }
}

/// An ASCII blank, tab or line end.
pub open spec fn blank(c: char) -> bool {
    c as u32 == 32 || 9 <= c as u32 && c as u32 <= 13
}

/// Whether `text` is blank outside `[i, j)` and not at the ends of it.
pub open spec fn bare(text: Seq<char>, i: int, j: int) -> bool {
    &&& !blank(text[i]) && !blank(text[j - 1])
    &&& forall|k: int| 0 <= k < i || j <= k < text.len() ==> blank(#[trigger] text[k])
}

/// The values that leak into a block, by offset.
pub open spec fn known_leak(offset: u8) -> Seq<int> {
    match offset {
        28 => seq![19506],
        30 => seq![41241],
        31 => seq![13546],
        32 => seq![59263],
        33 => seq![54389],
        35 => seq![17664],
        40 => seq![58617, 46617],
        41 => seq![49320],
        43 => seq![49320],
        46 => seq![50665],
        50 => seq![24815, 20540],
        51 => seq![32792],
        52 => seq![17376],
        53 => seq![63182],
        56 => seq![2058],
        58 => seq![64705],
        59 => seq![26142],
        _ => seq![],
    }
}

/// Each register of a block counts by itself: as high from 57344 on, and as
/// leaked where it holds a value that leaks at its offset.
pub proof fn law_registers_count_by_themselves(data: Seq<u16>, value: u16)
    requires
        data.len() < 60,
    ensures
        high_count(Seq::empty()) == 0,
        leaked_count(Seq::empty()) == 0,
        high_count(data.push(value)) == high_count(data) + if value >= 57344 {
            1int
        } else {
            0
        },
        leaked_count(data.push(value)) == leaked_count(data) + if known_leak(
            data.len() as u8,
        ).contains(value as int) {
            1int
        } else {
            0
        },
{
    assert(data.push(value).drop_last() =~= data);
    let table = known_leak(data.len() as u8);
    assert(crate::sanitizer::fingerprint::leaks(data.len() as int, value) <==> table.contains(
        value as int,
    )) by {
        if table.len() > 0 {
            assert(table.contains(table[0]));
        }
        if table.len() > 1 {
            assert(table.contains(table[1]));
        }
    }
}

/// A block is suspicious exactly where it has 60 registers, and more than 5
/// leaked or more than 10 high ones among them.
pub proof fn law_leaked_blocks(data: Seq<u16>)
    ensures
        data.len() != 60 ==> !suspicious(data),
        data.len() == 60 && leaked_count(data) >= 6 ==> suspicious(data),
        data.len() == 60 && high_count(data) >= 11 ==> suspicious(data),
        leaked_count(data) <= 5 && high_count(data) <= 10 ==> !suspicious(data),
{
}

/// A battery is real exactly where its serial number is plausible, its voltage,
/// in millivolts in the registers 22 and 23 of the block, is 30 to 65 V, and its
/// capacity, in 24 and 25, is not zero.
pub proof fn law_real_batteries(data: Seq<u16>, serial: Seq<char>)
    requires
        data.len() >= 26,
    ensures
        real_battery(data, serial) <==> {
            let millivolts = 65536 * data[22] + data[23];
            &&& serial_plausible(serial)
            &&& 30_000 <= millivolts && millivolts <= 65_000
            &&& data[24] != 0 || data[25] != 0
        },
{
}

/// Each counter of the samples is that of the snapshot of the same name.
pub proof fn law_samples_hold_the_counters(s: GraceCumulativeSamples, snap: InverterSnapshot)
    ensures
        GraceField::TodaySolar.of(s) == s.today_solar_kwh,
        GraceField::TodaySolar.reading(snap) == snap.today_solar_kwh,
        GraceField::TodayPv1.of(s) == s.today_pv1_kwh,
        GraceField::TodayPv1.reading(snap) == snap.today_pv1_kwh,
        GraceField::TodayPv2.of(s) == s.today_pv2_kwh,
        GraceField::TodayPv2.reading(snap) == snap.today_pv2_kwh,
        GraceField::TodayImport.of(s) == s.today_import_kwh,
        GraceField::TodayImport.reading(snap) == snap.today_import_kwh,
        GraceField::TodayExport.of(s) == s.today_export_kwh,
        GraceField::TodayExport.reading(snap) == snap.today_export_kwh,
        GraceField::TodayCharge.of(s) == s.today_charge_kwh,
        GraceField::TodayCharge.reading(snap) == snap.today_charge_kwh,
        GraceField::TodayDischarge.of(s) == s.today_discharge_kwh,
        GraceField::TodayDischarge.reading(snap) == snap.today_discharge_kwh,
        GraceField::TodayConsumption.of(s) == s.today_consumption_kwh,
        GraceField::TodayConsumption.reading(snap) == snap.today_consumption_kwh,
        GraceField::TodayAcCharge.of(s) == s.today_ac_charge_kwh,
        GraceField::TodayAcCharge.reading(snap) == snap.today_ac_charge_kwh,
        GraceField::TotalImport.of(s) == s.total_import_kwh,
        GraceField::TotalImport.reading(snap) == snap.total_import_kwh,
        GraceField::TotalExport.of(s) == s.total_export_kwh,
        GraceField::TotalExport.reading(snap) == snap.total_export_kwh,
        GraceField::TotalSolar.of(s) == s.total_solar_kwh,
        GraceField::TotalSolar.reading(snap) == snap.total_solar_kwh,
        GraceField::TotalCharge.of(s) == s.total_charge_kwh,
        GraceField::TotalCharge.reading(snap) == snap.total_charge_kwh,
        GraceField::TotalDischarge.of(s) == s.total_discharge_kwh,
        GraceField::TotalDischarge.reading(snap) == snap.total_discharge_kwh,
        GraceField::TotalThroughput.of(s) == s.total_throughput_kwh,
        GraceField::TotalThroughput.reading(snap) == snap.total_throughput_kwh,
{
}

} // verus!
