//! What becomes of each reading, in plain numbers.
use crate::model::{BatteryMode, DeviceType, InverterSnapshot, ScheduleSlot};
use crate::plain::{plant, three_phase_block};
use crate::quantity::Quantity;
use crate::sanitizer::energy::EnergyField;
use crate::sanitizer::meters::{lemma_powered_frame, power_flagged};
use crate::sanitizer::readings::debounced;
use crate::sanitizer::slots::duration;
use crate::sanitizer::snapshot::{
    energy_replaced, flagged, metered, remembered, sanitized, window_possible, Memory,
};
use crate::wall_clock::parsed_clock;
use vstd::prelude::*;

verus! {

/// Whether a reading is a number of units below `low` or above `high`.
pub open spec fn implausible(value: Quantity, low: int, high: int) -> bool {
    match value {
        Quantity::Nano(n) => n < low * 1_000_000_000 || n > high * 1_000_000_000,
        Quantity::Nan => false,
    }
}

/// Whether `used` is the reading itself where that is plausible, and else the
/// previous reading, or so many units where there is none.
pub open spec fn used_within(
    used: Quantity,
    value: Quantity,
    low: int,
    high: int,
    prev: Option<Quantity>,
    nominal: int,
) -> bool {
    used == if implausible(value, low, high) {
        match prev {
            Some(p) => p,
            None => Quantity::Nano((nominal * 1_000_000_000) as i64),
        }
    } else {
        value
    }
}

/// The smaller of a percentage and 100.
pub open spec fn cut(percent: u8) -> u8 {
    if percent > 100 {
        100
    } else {
        percent
    }
}

/// Whether power flows through solar panels, battery or grid.
pub open spec fn power_flows(snap: InverterSnapshot) -> bool {
    snap.solar_power > 0 || snap.battery_power != 0 || snap.grid_power != 0
}

/// The state of charge is used as read from 1 to 99 %. Zero gives way to a
/// previous value above 2 % while power flows, 100 % to one below 98 % while the
/// battery charges at more than 2 kW, and what is above 100 % to any previous
/// value; without one it is cut to 100 %.
pub proof fn law_state_of_charge(
    before: InverterSnapshot,
    prev: Option<&InverterSnapshot>,
    skip_delta: bool,
    reset_window: bool,
    memory: Memory,
    after: InverterSnapshot,
)
    requires
        sanitized(before, prev, skip_delta, reset_window, memory, after),
    ensures
        1 <= before.soc <= 99 ==> after.soc == before.soc,
        prev is None ==> after.soc == cut(before.soc),
        prev matches Some(p) ==> {
            &&& before.soc == 0 ==> after.soc == if power_flows(after) && p.soc > 2 {
                cut(p.soc)
            } else {
                0
            }
            &&& before.soc == 100 ==> after.soc == if after.battery_power < -2000 && p.soc < 98 {
                p.soc
            } else {
                100
            }
            &&& before.soc > 100 ==> after.soc == cut(p.soc)
        },
{
    lemma_powered_frame(before, prev, skip_delta, memory.suspects, memory.rates);
}

/// Whether a state of charge is replaced.
pub open spec fn soc_replaced(
    before: InverterSnapshot,
    prev: Option<&InverterSnapshot>,
    after: InverterSnapshot,
) -> bool {
    ||| before.soc > 100
    ||| (prev is Some && before.soc == 0 && power_flows(after) && prev->0.soc > 2)
    ||| (prev is Some && before.soc == 100 && after.battery_power < -2000 && prev->0.soc < 98)
}

/// Grid voltages that are plausible on a model.
pub open spec fn grid_volts(device_type: DeviceType) -> (int, int) {
    if three_phase_block(device_type) || plant(device_type) {
        (0, 500)
    } else {
        (180, 280)
    }
}

/// The highest battery voltage that is plausible on a model.
pub open spec fn battery_volts(device_type: DeviceType) -> int {
    match device_type {
        DeviceType::ThreePhase | DeviceType::ACThreePhase => 600,
        DeviceType::AllInOne6kW
        | DeviceType::AllInOne3_6kW
        | DeviceType::AllInOne5kW
        | DeviceType::AioCommercial
        | DeviceType::HybridHvGen3
        | DeviceType::AllInOneHybrid => 400,
        _ => 60,
    }
}

/// A grid reading during an outage: what was read where that is above zero, and
/// else zero.
pub open spec fn outage(value: Quantity) -> Quantity {
    match value {
        Quantity::Nano(n) => if n > 0 {
            value
        } else {
            Quantity::Nano(0)
        },
        Quantity::Nan => Quantity::Nano(0),
    }
}

/// Temperatures, voltages and the frequency are used where plausible; the grid's
/// are never carried over an outage.
#[verifier::rlimit(60)]
pub proof fn law_measured_quantities(
    before: InverterSnapshot,
    prev: Option<&InverterSnapshot>,
    skip_delta: bool,
    reset_window: bool,
    memory: Memory,
    after: InverterSnapshot,
)
    requires
        sanitized(before, prev, skip_delta, reset_window, memory, after),
    ensures
        ({
            let (low, high) = grid_volts(before.device_type);
            let was = |v: spec_fn(InverterSnapshot) -> Quantity|
                match prev {
                    Some(p) => Some(v(*p)),
                    None => None,
                };
            &&& used_within(
                after.inverter_temperature,
                before.inverter_temperature,
                -20,
                100,
                was(|p: InverterSnapshot| p.inverter_temperature),
                0,
            )
            &&& used_within(
                after.battery_temperature,
                before.battery_temperature,
                -20,
                80,
                was(|p: InverterSnapshot| p.battery_temperature),
                0,
            )
            &&& used_within(
                after.battery_voltage,
                before.battery_voltage,
                0,
                battery_volts(before.device_type),
                was(|p: InverterSnapshot| p.battery_voltage),
                0,
            )
            &&& before.grid_online ==> used_within(
                after.grid_voltage,
                before.grid_voltage,
                low,
                high,
                was(|p: InverterSnapshot| p.grid_voltage),
                230,
            )
            &&& before.grid_online ==> used_within(
                after.grid_frequency,
                before.grid_frequency,
                45,
                55,
                was(|p: InverterSnapshot| p.grid_frequency),
                50,
            )
            &&& !before.grid_online ==> after.grid_voltage == outage(before.grid_voltage)
                && after.grid_frequency == outage(before.grid_frequency)
        }),
{
    lemma_powered_frame(before, prev, skip_delta, memory.suspects, memory.rates);
}

/// Whether a model is AC-coupled on a single phase.
pub open spec fn ac_coupled(device_type: DeviceType) -> bool {
    device_type == DeviceType::ACCoupled || device_type == DeviceType::ACCoupledMk2
}

/// Whether a limit of zero on an AC-coupled model is a limit that was not read.
pub open spec fn limit_unread(rate: u8, before: InverterSnapshot, prev: InverterSnapshot, was: u8) -> bool {
    ac_coupled(before.device_type) && ac_coupled(prev.device_type) && rate == 0 && was != 0
}

/// Rates come out cut to 100 %; those of AC-coupled models are carried over a
/// zero. The target gives way above 100 %, the reserve outside 4 to 100 %, and
/// the operating hours above a century or below the previous ones.
#[verifier::rlimit(60)]
pub proof fn law_configured_numbers(
    before: InverterSnapshot,
    prev: Option<&InverterSnapshot>,
    skip_delta: bool,
    reset_window: bool,
    memory: Memory,
    after: InverterSnapshot,
)
    requires
        sanitized(before, prev, skip_delta, reset_window, memory, after),
    ensures
        after.active_power_rate == cut(before.active_power_rate),
        prev is None ==> {
            &&& after.charge_rate == cut(before.charge_rate)
            &&& after.discharge_rate == cut(before.discharge_rate)
            &&& after.target_soc == cut(before.target_soc)
            &&& after.battery_reserve == if before.battery_reserve < 4 {
                4
            } else {
                cut(before.battery_reserve)
            }
            &&& after.operating_hours == if before.operating_hours > 876_000 {
                0
            } else {
                before.operating_hours
            }
        },
        prev matches Some(p) ==> {
            &&& after.charge_rate == if limit_unread(
                before.charge_rate,
                before,
                *p,
                p.charge_rate,
            ) {
                cut(p.charge_rate)
            } else {
                cut(before.charge_rate)
            }
            &&& after.discharge_rate == if limit_unread(
                before.discharge_rate,
                before,
                *p,
                p.discharge_rate,
            ) {
                cut(p.discharge_rate)
            } else {
                cut(before.discharge_rate)
            }
            &&& after.target_soc == if before.target_soc > 100 {
                cut(p.target_soc)
            } else {
                before.target_soc
            }
            &&& after.battery_reserve == if 4 <= before.battery_reserve && before.battery_reserve
                <= 100 {
                before.battery_reserve
            } else if p.battery_reserve < 4 {
                4
            } else {
                cut(p.battery_reserve)
            }
            &&& after.operating_hours == if before.operating_hours > 876_000
                || before.operating_hours < p.operating_hours {
                p.operating_hours
            } else {
                before.operating_hours
            }
        },
{
    lemma_powered_frame(before, prev, skip_delta, memory.suspects, memory.rates);
}

/// A battery mode that differs from the previous snapshot's is used when the
/// reading before asked for it already; else the previous mode stands and the
/// new one waits. A mode that agrees, or that is read first, is used and ends
/// the waiting.
pub proof fn law_battery_mode(
    before: InverterSnapshot,
    prev: Option<&InverterSnapshot>,
    skip_delta: bool,
    reset_window: bool,
    memory: Memory,
    after: InverterSnapshot,
    left: Memory,
)
    requires
        sanitized(before, prev, skip_delta, reset_window, memory, after),
        remembered(before, prev, skip_delta, reset_window, memory, left),
    ensures
        ({
            let changes = prev is Some && before.battery_mode != prev->0.battery_mode;
            if changes && memory.pending != Some(before.battery_mode) {
                after.battery_mode == prev->0.battery_mode && left.pending == Some(
                    before.battery_mode,
                )
            } else {
                after.battery_mode == before.battery_mode && left.pending is None
            }
        }),
{
    lemma_powered_frame(before, prev, skip_delta, memory.suspects, memory.rates);
}

/// Minutes that a slot lasts.
pub open spec fn lasts(slot: ScheduleSlot) -> int {
    let start = 60 * slot.start_hour + slot.start_minute;
    let end = 60 * slot.end_hour + slot.end_minute;
    if end >= start {
        end - start
    } else {
        1440 - start + end
    }
}

/// Whether an enabled slot shrank to at most ten minutes that start within ten
/// minutes of midnight, where an enabled one of more than ten minutes stood.
pub open spec fn shrank(slot: ScheduleSlot, was: ScheduleSlot) -> bool {
    &&& slot.enabled && 60 * slot.start_hour + slot.start_minute <= 10 && lasts(slot) <= 10
    &&& was.enabled && lasts(was) > 10
}

/// A slot that shrank gives way to the previous one, and a module voltage
/// outside 0 to 500 V to that of the previous module in its place, or to zero.
/// Every other slot, module and value of a module is left as it was read.
#[verifier::rlimit(60)]
pub proof fn law_slots_and_modules(
    before: InverterSnapshot,
    prev: Option<&InverterSnapshot>,
    skip_delta: bool,
    reset_window: bool,
    memory: Memory,
    after: InverterSnapshot,
    i: int,
)
    requires
        sanitized(before, prev, skip_delta, reset_window, memory, after),
    ensures
        0 <= i < 10 ==> {
            &&& after.charge_slots@[i] == if prev is Some && shrank(
                before.charge_slots@[i],
                prev->0.charge_slots@[i],
            ) {
                prev->0.charge_slots@[i]
            } else {
                before.charge_slots@[i]
            }
            &&& after.discharge_slots@[i] == if prev is Some && shrank(
                before.discharge_slots@[i],
                prev->0.discharge_slots@[i],
            ) {
                prev->0.discharge_slots@[i]
            } else {
                before.discharge_slots@[i]
            }
        },
        after.battery_modules@.len() == before.battery_modules@.len(),
        0 <= i < before.battery_modules@.len() ==> {
            let was = before.battery_modules@[i];
            let now = after.battery_modules@[i];
            &&& now.index == was.index
            &&& now.temperature == was.temperature
            &&& now.capacity_ah == was.capacity_ah
            &&& used_within(
                now.voltage,
                was.voltage,
                0,
                500,
                if prev is Some && was.index < prev->0.battery_modules@.len() {
                    Some(prev->0.battery_modules@[was.index as int].voltage)
                } else {
                    None
                },
                0,
            )
        },
{
    lemma_powered_frame(before, prev, skip_delta, memory.suspects, memory.rates);
    if 0 <= i < 10 && prev is Some {
        let p = *prev->0;
        assert(lasts(before.charge_slots@[i]) == duration(before.charge_slots@[i]));
        assert(lasts(p.charge_slots@[i]) == duration(p.charge_slots@[i]));
        assert(lasts(before.discharge_slots@[i]) == duration(before.discharge_slots@[i]));
        assert(lasts(p.discharge_slots@[i]) == duration(p.discharge_slots@[i]));
    }
}

/// What is not checked is left as it was read.
pub proof fn law_other_values_are_left_alone(
    before: InverterSnapshot,
    prev: Option<&InverterSnapshot>,
    skip_delta: bool,
    reset_window: bool,
    memory: Memory,
    after: InverterSnapshot,
)
    requires
        sanitized(before, prev, skip_delta, reset_window, memory, after),
    ensures
        after.timestamp == before.timestamp,
        after.inverter_time == before.inverter_time,
        after.device_type == before.device_type,
        after.device_type_code == before.device_type_code,
        after.inverter_serial == before.inverter_serial,
        after.battery_power_mode == before.battery_power_mode,
        after.enable_charge == before.enable_charge,
        after.enable_discharge == before.enable_discharge,
        after.enable_charge_target == before.enable_charge_target,
        after.auto_winter_active == before.auto_winter_active,
        after.grid_online == before.grid_online,
        after.ac_export_priority == before.ac_export_priority,
        after.ac_eps_enabled == before.ac_eps_enabled,
        after.battery_pause_mode == before.battery_pause_mode,
        after.battery_pause_slot == before.battery_pause_slot,
        after.export_limit_w == before.export_limit_w,
        after.max_battery_power_w == before.max_battery_power_w,
        after.battery_capacity_kwh == before.battery_capacity_kwh,
        after.battery_current == before.battery_current,
        after.total_solar_kwh == before.total_solar_kwh,
        after.total_throughput_kwh == before.total_throughput_kwh,
{
    lemma_powered_frame(before, prev, skip_delta, memory.suspects, memory.rates);
}

/// Whether a reading on its own, or a flipped enable, is reason to report the
/// snapshot.
pub open spec fn reading_reported(
    before: InverterSnapshot,
    prev: Option<&InverterSnapshot>,
    pending: Option<BatteryMode>,
    after: InverterSnapshot,
) -> bool {
    let (low, high) = grid_volts(before.device_type);
    ||| soc_replaced(before, prev, after)
    ||| before.operating_hours > 876_000
    ||| implausible(before.inverter_temperature, -20, 100)
    ||| implausible(before.battery_temperature, -20, 80)
    ||| implausible(before.battery_voltage, 0, battery_volts(before.device_type))
    ||| (before.grid_online && implausible(before.grid_voltage, low, high))
    ||| (before.grid_online && implausible(before.grid_frequency, 45, 55))
    ||| (!before.grid_online && outage(before.grid_voltage) != before.grid_voltage)
    ||| (!before.grid_online && outage(before.grid_frequency) != before.grid_frequency)
    ||| before.charge_rate > 100
    ||| before.discharge_rate > 100
    ||| before.active_power_rate > 100
    ||| before.target_soc > 100
    ||| before.battery_reserve < 4
    ||| before.battery_reserve > 100
    ||| (prev is Some && {
        let p = *prev->0;
        ||| before.operating_hours < p.operating_hours
        ||| limit_unread(before.charge_rate, before, p, p.charge_rate)
        ||| limit_unread(before.discharge_rate, before, p, p.discharge_rate)
        ||| before.battery_mode != p.battery_mode && pending != Some(before.battery_mode)
        ||| before.enable_charge != p.enable_charge
        ||| before.enable_discharge != p.enable_discharge
    })
}

/// Whether a slot or a module is reason to report the snapshot.
pub open spec fn list_reported(before: InverterSnapshot, prev: Option<&InverterSnapshot>) -> bool {
    ||| exists|i: int|
        0 <= i < before.battery_modules@.len() && implausible(
            (#[trigger] before.battery_modules@[i]).voltage,
            0,
            500,
        )
    ||| (prev is Some && exists|i: int|
        0 <= i < 10 && shrank(#[trigger] before.charge_slots@[i], prev->0.charge_slots@[i]))
    ||| (prev is Some && exists|i: int|
        0 <= i < 10 && shrank(#[trigger] before.discharge_slots@[i], prev->0.discharge_slots@[i]))
}

/// The snapshot is reported exactly for a power meter, a reading on its own, an
/// energy counter, a slot or a module.
#[verifier::rlimit(60)]
pub proof fn law_reasons_to_report(
    before: InverterSnapshot,
    prev: Option<&InverterSnapshot>,
    skip_delta: bool,
    reset_window: bool,
    memory: Memory,
    after: InverterSnapshot,
)
    requires
        sanitized(before, prev, skip_delta, reset_window, memory, after),
    ensures
        flagged(before, prev, skip_delta, reset_window, memory) <==> {
            ||| power_flagged(before, prev, skip_delta, memory.suspects, memory.rates)
            ||| reading_reported(before, prev, memory.pending, after)
            ||| (exists|f: EnergyField| #[trigger]
                energy_replaced(f, before, prev, skip_delta, reset_window, memory.deltas))
            ||| list_reported(before, prev)
        },
{
    lemma_powered_frame(before, prev, skip_delta, memory.suspects, memory.rates);
    let powered = metered(before, prev, skip_delta, memory);
    assert(debounced(
        before.battery_mode,
        match prev {
            Some(p) => Some(p.battery_mode),
            None => None,
        },
        memory.pending,
    ).2 <==> prev is Some && before.battery_mode != prev->0.battery_mode && memory.pending != Some(
        before.battery_mode,
    ));
    assert(crate::sanitizer::snapshot::scalars_flagged(powered, prev, memory.pending)
        <==> reading_reported(before, prev, memory.pending, after));
    assert forall|i: int| 0 <= i < before.battery_modules@.len() implies implausible(
        (#[trigger] before.battery_modules@[i]).voltage,
        0,
        500,
    ) == crate::sanitizer::readings::beyond(before.battery_modules[i].voltage, 0, 500) by {}
    if let Some(p) = prev {
        assert forall|i: int| 0 <= i < 10 implies shrank(
            #[trigger] before.charge_slots@[i],
            p.charge_slots@[i],
        ) == crate::sanitizer::slots::slot_corrupted(
            before.charge_slots@[i],
            p.charge_slots@[i],
        ) by {}
        assert forall|i: int| 0 <= i < 10 implies shrank(
            #[trigger] before.discharge_slots@[i],
            p.discharge_slots@[i],
        ) == crate::sanitizer::slots::slot_corrupted(
            before.discharge_slots@[i],
            p.discharge_slots@[i],
        ) by {}
    }
    lemma_lists(before, prev);
}

proof fn lemma_lists(before: InverterSnapshot, prev: Option<&InverterSnapshot>)
    ensures
        list_reported(before, prev) == crate::sanitizer::snapshot::lists_flagged(before, prev),
{
    assert forall|i: int| 0 <= i < before.battery_modules@.len() implies implausible(
        (#[trigger] before.battery_modules@[i]).voltage,
        0,
        500,
    ) == crate::sanitizer::readings::beyond(before.battery_modules[i].voltage, 0, 500) by {}
    if list_reported(before, prev) && !crate::sanitizer::snapshot::lists_flagged(before, prev) {
        if exists|i: int|
            0 <= i < before.battery_modules@.len() && implausible(
                (#[trigger] before.battery_modules@[i]).voltage,
                0,
                500,
            ) {
            let i = choose|i: int|
                0 <= i < before.battery_modules@.len() && implausible(
                    (#[trigger] before.battery_modules@[i]).voltage,
                    0,
                    500,
                );
            assert(crate::sanitizer::readings::beyond(before.battery_modules[i].voltage, 0, 500));
        }
    }
}

/// The inverter's clock decides the reset window wherever it can be read: the
/// window is open up to 65 minutes after midnight and from 65 minutes before it.
pub proof fn law_reset_window_is_around_midnight(timestamp: i64, text: Seq<char>, within: bool)
    requires
        parsed_clock(text) is Some,
    ensures
        window_possible(timestamp, text, within) <==> within == {
            let minute = 60 * (parsed_clock(text)->Some_0).0 + (parsed_clock(text)->Some_0).1;
            minute <= 65 || minute >= 1375
        },
{
}

} // verus!
