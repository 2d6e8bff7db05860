//! Data of the battery-management system.
use crate::model::{
    batteryless, three_phase_family, times, BatteryModule, BatteryRatings, HvBcuCluster,
    InverterSnapshot,
};
use crate::quantity::{all_numbers, div_floor, mean, nano_sum, saturated, total, whole, Quantity};
use vstd::prelude::*;

verus! {

/// The temperatures of the modules.
pub open spec fn temperatures(modules: Seq<BatteryModule>) -> Seq<Quantity> {
    modules.map_values(|m: BatteryModule| m.temperature)
}

/// The capacities of the modules.
pub open spec fn capacities(modules: Seq<BatteryModule>) -> Seq<Quantity> {
    modules.map_values(|m: BatteryModule| m.capacity_ah)
}

/// Energy (kWh) of a charge (Ah) at a voltage (V), rounded down.
pub open spec fn stored_energy(charge: Quantity, voltage: Quantity) -> Quantity {
    match (charge, voltage) {
        (Quantity::Nano(a), Quantity::Nano(v)) => saturated(a * v / 1_000_000_000_000),
        _ => Quantity::Nan,
    }
}

/// The battery power (W) of a device: its hardware limit, but no more than half
/// the capacity in an hour.
pub open spec fn power_for_capacity(capacity: Quantity, max_power_w: u32) -> u32 {
    match capacity {
        Quantity::Nano(c) => if c > 0 && c as int / 2_000_000 < max_power_w {
            (c as int / 2_000_000) as u32
        } else {
            max_power_w
        },
        Quantity::Nan => max_power_w,
    }
}

/// The battery temperature to report: the mean over the modules, or on
/// three-phase models without modules none at all.
pub open spec fn derived_temperature(snap: InverterSnapshot) -> Quantity {
    if snap.battery_modules@.len() > 0 {
        mean(temperatures(snap.battery_modules@))
    } else if three_phase_family(snap.device_type) {
        Quantity::Nan
    } else {
        snap.battery_temperature
    }
}

/// The battery capacity of a three-phase model.
pub open spec fn derived_capacity(
    snap: InverterSnapshot,
    cluster: Option<&HvBcuCluster>,
    nominal_voltage: Quantity,
) -> Quantity {
    match cluster {
        Some(c) => stored_energy(
            times(c.nominal_capacity_ah, c.number_of_modules as int),
            nominal_voltage,
        ),
        None => if snap.battery_modules@.len() == 0 {
            whole(0)
        } else {
            stored_energy(total(capacities(snap.battery_modules@)), nominal_voltage)
        },
    }
}

/// `snap` with its battery fields derived from the battery-management data.
pub open spec fn derived(
    snap: InverterSnapshot,
    cluster: Option<&HvBcuCluster>,
    ratings: BatteryRatings,
) -> InverterSnapshot {
    if batteryless(snap.device_type) {
        snap
    } else if !three_phase_family(snap.device_type) {
        InverterSnapshot { battery_temperature: derived_temperature(snap), ..snap }
    } else {
        let capacity = derived_capacity(snap, cluster, ratings.nominal_voltage);
        let measured = cluster is Some && whole(0).lt(cluster->0.battery_voltage);
        InverterSnapshot {
            battery_temperature: derived_temperature(snap),
            battery_capacity_kwh: capacity,
            max_battery_power_w: power_for_capacity(capacity, ratings.max_power_w),
            battery_voltage: if measured {
                cluster->0.battery_voltage
            } else {
                snap.battery_voltage
            },
            battery_current: if measured {
                cluster->0.battery_current
            } else {
                snap.battery_current
            },
            soc: if cluster is Some && snap.soc == 0 && cluster->0.battery_soc_max > 0 {
                if cluster->0.battery_soc_max > 100 {
                    100
                } else {
                    cluster->0.battery_soc_max
                }
            } else {
                snap.soc
            },
            ..snap
        }
    }
}

/// Adds up quantities in billionths; `None` where one is no number.
fn sum_quantities(values: &Vec<Quantity>) -> (r: Option<i128>)
    ensures
        match r {
            Some(sum) => all_numbers(values@) && sum == nano_sum(values@) && -(
            values.len() * 0x8000_0000_0000_0000) <= sum <= values.len() * 0x8000_0000_0000_0000,
            None => !all_numbers(values@),
        },
{
    let mut sum: i128 = 0;
    let mut i: usize = 0;
    assert(values@.take(0) =~= Seq::<Quantity>::empty());
    while i < values.len()
        invariant
            i <= values.len(),
            all_numbers(values@.take(i as int)),
            sum == nano_sum(values@.take(i as int)),
            -(i * 0x8000_0000_0000_0000) <= sum <= i * 0x8000_0000_0000_0000,
        decreases values.len() - i,
    {
        match values[i] {
            Quantity::Nan => {
                return None;
            },
            Quantity::Nano(n) => {
                proof {
                    let next = values@.take(i + 1);
                    assert(next.drop_last() =~= values@.take(i as int));
                    assert(next.last() == values@[i as int]);
                    assert(all_numbers(next)) by {
                        assert forall|j: int| 0 <= j < next.len() implies #[trigger] next[j] is Nano by {
                            if j < i {
                                assert(next[j] == values@.take(i as int)[j]);
                            }
                        }
                    }
                }
                sum = sum + n as i128;
            },
        }
        i += 1;
    }
    assert(values@.take(i as int) =~= values@);
    Some(sum)
}

/// The mean temperature of the modules.
fn mean_temperature(modules: &Vec<BatteryModule>) -> (r: Quantity)
    requires
        modules@.len() > 0,
    ensures
        r == mean(temperatures(modules@)),
{
    let mut values: Vec<Quantity> = Vec::new();
    let mut i: usize = 0;
    while i < modules.len()
        invariant
            i <= modules.len(),
            values@ == temperatures(modules@).take(i as int),
        decreases modules.len() - i,
    {
        values.push(modules[i].temperature);
        i += 1;
        assert(values@ =~= temperatures(modules@).take(i as int));
    }
    assert(values@ =~= temperatures(modules@));
    match sum_quantities(&values) {
        None => Quantity::Nan,
        Some(sum) => Quantity::from_nano(div_floor(sum, values.len() as i128)),
    }
}

/// The capacity of all modules together.
fn total_capacity(modules: &Vec<BatteryModule>) -> (r: Quantity)
    ensures
        r == total(capacities(modules@)),
{
    let mut values: Vec<Quantity> = Vec::new();
    let mut i: usize = 0;
    while i < modules.len()
        invariant
            i <= modules.len(),
            values@ == capacities(modules@).take(i as int),
        decreases modules.len() - i,
    {
        values.push(modules[i].capacity_ah);
        i += 1;
        assert(values@ =~= capacities(modules@).take(i as int));
    }
    assert(values@ =~= capacities(modules@));
    match sum_quantities(&values) {
        None => Quantity::Nan,
        Some(sum) => Quantity::from_nano(sum),
    }
}

/// Energy of a charge at a voltage.
fn energy_of_charge(charge: Quantity, voltage: Quantity) -> (r: Quantity)
    ensures
        r == stored_energy(charge, voltage),
{
    match (charge, voltage) {
        (Quantity::Nano(a), Quantity::Nano(v)) => {
            assert(-0x4000_0000_0000_0000_0000_0000_0000_0000 <= a * v
                <= 0x4000_0000_0000_0000_0000_0000_0000_0000) by (nonlinear_arith)
                requires
                    -0x8000_0000_0000_0000 <= a <= 0x7fff_ffff_ffff_ffff,
                    -0x8000_0000_0000_0000 <= v <= 0x7fff_ffff_ffff_ffff,
            ;
            Quantity::from_nano(div_floor(a as i128 * v as i128, 1_000_000_000_000))
        },
        _ => Quantity::Nan,
    }
}

/// Battery power for a capacity.
fn capped_power(capacity: Quantity, max_power_w: u32) -> (r: u32)
    ensures
        r == power_for_capacity(capacity, max_power_w),
{
    match capacity {
        Quantity::Nano(c) if c > 0 => {
            let half: i64 = c / 2_000_000;
            if half < max_power_w as i64 {
                half as u32
            } else {
                max_power_w
            }
        },
        _ => max_power_w,
    }
}

fn put_battery(
    snap: &mut InverterSnapshot,
    temperature: Quantity,
    capacity: Quantity,
    power_w: u32,
    voltage: Quantity,
    current: Quantity,
    soc: u8,
)
    ensures
        *final(snap) == (InverterSnapshot {
            battery_temperature: temperature,
            battery_capacity_kwh: capacity,
            max_battery_power_w: power_w,
            battery_voltage: voltage,
            battery_current: current,
            soc,
            ..*old(snap)
        }),
{
    snap.battery_temperature = temperature;
    snap.battery_capacity_kwh = capacity;
    snap.max_battery_power_w = power_w;
    snap.battery_voltage = voltage;
    snap.battery_current = current;
    snap.soc = soc;
}

/// Derives battery fields from the battery-management data.
///
/// The temperature always comes from the modules, whose probes are more
/// reliable than the inverter's register. Three-phase, high-voltage and
/// commercial models have no registers for capacity and power either: those
/// come from the stack's control unit, or from the modules, and the model's
/// ratings. Models without a battery are left alone.
pub fn derive_battery_fields_from_bms(
    snap: &mut InverterSnapshot,
    hv_cluster: Option<&HvBcuCluster>,
    ratings: &BatteryRatings,
)
    ensures
        *final(snap) == derived(*old(snap), hv_cluster, *ratings),
{
    if snap.device_type.is_batteryless() {
        return;
    }
    let three_phase: bool = snap.device_type.needs_three_phase_input_blocks();
    let temperature: Quantity = if snap.battery_modules.len() > 0 {
        mean_temperature(&snap.battery_modules)
    } else if three_phase {
        Quantity::Nan
    } else {
        snap.battery_temperature
    };
    if !three_phase {
        snap.battery_temperature = temperature;
        return;
    }
    let capacity: Quantity = match hv_cluster {
        Some(c) => energy_of_charge(c.total_capacity_ah(), ratings.nominal_voltage),
        None => if snap.battery_modules.len() == 0 {
            Quantity::Nano(0)
        } else {
            energy_of_charge(total_capacity(&snap.battery_modules), ratings.nominal_voltage)
        },
    };
    let power_w: u32 = capped_power(capacity, ratings.max_power_w);
    let mut voltage: Quantity = snap.battery_voltage;
    let mut current: Quantity = snap.battery_current;
    let mut soc: u8 = snap.soc;
    if let Some(c) = hv_cluster {
        if Quantity::units(0).below(c.battery_voltage) {
            voltage = c.battery_voltage;
            current = c.battery_current;
        }
        if soc == 0 && c.battery_soc_max > 0 {
            soc = if c.battery_soc_max > 100 { 100 } else { c.battery_soc_max };
        }
    }
    put_battery(snap, temperature, capacity, power_w, voltage, current, soc);
}

/// Whether a character is white space.
pub open spec fn white_space(c: char) -> bool {
    let n = c as u32;
    ||| 0x9 <= n <= 0xd
    ||| n == 0x20
    ||| n == 0x85
    ||| n == 0xa0
    ||| n == 0x1680
    ||| 0x2000 <= n <= 0x200a
    ||| n == 0x2028
    ||| n == 0x2029
    ||| n == 0x202f
    ||| n == 0x205f
    ||| n == 0x3000
}

/// Whether a character is a visible ASCII character or a blank.
pub open spec fn printable(c: char) -> bool {
    0x20 <= c as u32 <= 0x7e
}

/// `text` without white space at its ends.
pub open spec fn trimmed(text: Seq<char>) -> Seq<char>
    decreases text.len(),
{
    if text.len() == 0 {
        text
    } else if white_space(text[0]) {
        trimmed(text.skip(1))
    } else if white_space(text.last()) {
        trimmed(text.drop_last())
    } else {
        text
    }
}

/// Whether a serial number is one that a battery would report.
pub open spec fn serial_plausible(serial: Seq<char>) -> bool {
    trimmed(serial).len() >= 4 && forall|i: int|
        0 <= i < trimmed(serial).len() ==> printable(#[trigger] trimmed(serial)[i])
}

/// A 32-bit value in two registers, the high one first; a register that was not
/// read counts as zero.
pub open spec fn register_pair(data: Seq<u16>, at: int) -> int {
    (if at < data.len() {
        data[at] as int
    } else {
        0
    }) * 65536 + (if at + 1 < data.len() {
        data[at + 1] as int
    } else {
        0
    })
}

fn read_pair(data: &[u16], at: usize) -> (r: u32)
    requires
        at < 1000,
    ensures
        r == register_pair(data@, at as int),
{
    let high: u16 = if at < data.len() { data[at] } else { 0 };
    let low: u16 = if at + 1 < data.len() { data[at + 1] } else { 0 };
    high as u32 * 65536 + low as u32
}

fn is_white_space(c: char) -> (r: bool)
    ensures
        r == white_space(c),
{
    let n: u32 = c as u32;
    (n >= 0x9 && n <= 0xd) || n == 0x20 || n == 0x85 || n == 0xa0 || n == 0x1680 || (n >= 0x2000
        && n <= 0x200a) || n == 0x2028 || n == 0x2029 || n == 0x202f || n == 0x205f || n == 0x3000
}

/// Whether a serial number is one that a battery would report.
fn is_serial_plausible(serial: &str) -> (r: bool)
    ensures
        r == serial_plausible(serial@),
{
    let len: usize = serial.unicode_len();
    let mut start: usize = 0;
    let mut end: usize = len;
    assert(serial@.subrange(0, len as int) =~= serial@);
    while start < end && is_white_space(serial.get_char(start))
        invariant
            start <= end,
            end == len,
            len == serial@.len(),
            trimmed(serial@) == trimmed(serial@.subrange(start as int, end as int)),
        decreases end - start,
    {
        proof {
            let now = serial@.subrange(start as int, end as int);
            assert(now.skip(1) =~= serial@.subrange(start + 1, end as int));
            assert(now[0] == serial@[start as int]);
        }
        start += 1;
    }
    while end > start && is_white_space(serial.get_char(end - 1))
        invariant
            start <= end <= len,
            len == serial@.len(),
            start < end ==> !white_space(serial@[start as int]),
            trimmed(serial@) == trimmed(serial@.subrange(start as int, end as int)),
        decreases end - start,
    {
        proof {
            let now = serial@.subrange(start as int, end as int);
            assert(now.drop_last() =~= serial@.subrange(start as int, end - 1));
            assert(now.last() == serial@[end - 1]);
            assert(now[0] == serial@[start as int]);
        }
        end -= 1;
    }
    let ghost kept = serial@.subrange(start as int, end as int);
    proof {
        if kept.len() > 0 {
            assert(kept[0] == serial@[start as int]);
            assert(kept.last() == serial@[end - 1]);
        }
        assert(trimmed(serial@) == kept);
    }
    if end - start < 4 {
        return false;
    }
    let mut i: usize = start;
    while i < end
        invariant
            start <= i <= end <= len,
            len == serial@.len(),
            kept == serial@.subrange(start as int, end as int),
            trimmed(serial@) == kept,
            forall|j: int| 0 <= j < i - start ==> printable(#[trigger] kept[j]),
        decreases end - i,
    {
        let n: u32 = serial.get_char(i) as u32;
        if n < 0x20 || n > 0x7e {
            assert(!printable(kept[i - start]));
            return false;
        }
        assert(printable(kept[i - start]));
        i += 1;
    }
    true
}

/// Whether a block and the serial number in it come from a real battery.
pub open spec fn real_battery(data: Seq<u16>, serial: Seq<char>) -> bool {
    serial_plausible(serial) && 30_000 <= register_pair(data, 22) <= 65_000 && register_pair(
        data,
        24,
    ) > 0
}

/// Whether the registers read at a battery's address come from a real battery.
///
/// `data` is the block from input register 60 on, `serial` the serial number
/// decoded from it. The serial must be at least four printable characters, the
/// module voltage (registers 82 and 83, mV) 30 to 65 V, and the calibrated
/// capacity (registers 84 and 85) above zero.
pub fn validate_battery_bms(data: &[u16], serial: &str) -> (r: bool)
    ensures
        r == real_battery(data@, serial@),
{
    if !is_serial_plausible(serial) {
        return false;
    }
    let millivolts: u32 = read_pair(data, 82 - 60);
    if millivolts < 30_000 || millivolts > 65_000 {
        return false;
    }
    read_pair(data, 84 - 60) > 0
}

} // verus!
