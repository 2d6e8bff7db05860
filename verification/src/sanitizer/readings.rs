//! Single readings held to their plausible range.
use crate::model::{
    plant_controller, three_phase_family, BatteryMode, BatteryModule, DeviceType, InverterSnapshot,
    MAX_OPERATING_HOURS,
};
use crate::quantity::{whole, Quantity};
use vstd::prelude::*;

verus! {

/// Whether a reading is a number outside `[low, high]`.
pub open spec fn beyond(value: Quantity, low: int, high: int) -> bool {
    value.lt(whole(low)) || whole(high).lt(value)
}

/// A reading held to `[low, high]` whole units: one outside gives way to the
/// previous reading, or to `nominal` units where there is none.
pub open spec fn held(
    value: Quantity,
    low: int,
    high: int,
    prev: Option<Quantity>,
    nominal: int,
) -> Quantity {
    if beyond(value, low, high) {
        match prev {
            Some(p) => p,
            None => whole(nominal),
        }
    } else {
        value
    }
}

/// Holds a reading to `[low, high]`. Returns the value to use and whether it
/// replaces the reading.
pub fn hold(
    value: Quantity,
    low: i32,
    high: i32,
    prev: Option<Quantity>,
    nominal: i32,
) -> (r: (Quantity, bool))
    ensures
        r == (
            held(value, low as int, high as int, prev, nominal as int),
            beyond(value, low as int, high as int),
        ),
{
    if value.outside(Quantity::units(low), Quantity::units(high)) {
        match prev {
            Some(p) => (p, true),
            None => (Quantity::units(nominal), true),
        }
    } else {
        (value, false)
    }
}

/// Whether the operating hours are impossible: over a century, or fewer than
/// before.
pub open spec fn hours_impossible(hours: u32, prev: Option<u32>) -> bool {
    hours > MAX_OPERATING_HOURS || (prev is Some && hours < prev->0)
}

/// The operating hours to use.
pub open spec fn hours_kept(hours: u32, prev: Option<u32>) -> u32 {
    if hours_impossible(hours, prev) {
        match prev {
            Some(p) => p,
            None => 0,
        }
    } else {
        hours
    }
}

/// Checks the operating hours. Returns the value to use and whether it replaces
/// the reading.
pub fn check_operating_hours(hours: u32, prev: Option<u32>) -> (r: (u32, bool))
    ensures
        r == (hours_kept(hours, prev), hours_impossible(hours, prev)),
{
    match prev {
        Some(p) => if hours > MAX_OPERATING_HOURS || hours < p {
            (p, true)
        } else {
            (hours, false)
        },
        None => if hours > MAX_OPERATING_HOURS {
            (0, true)
        } else {
            (hours, false)
        },
    }
}

/// Whether the state of charge cannot be true: zero although power flows, or
/// full while still charging hard, when the previous reading was far from it.
/// The last percent before empty or full is a rounding step, not corruption.
pub open spec fn soc_impossible(
    soc: u8,
    battery_power: i32,
    grid_power: i32,
    solar_power: i32,
    prev_soc: u8,
) -> bool {
    ||| (soc == 0 && (solar_power > 0 || battery_power != 0 || grid_power != 0) && prev_soc > 2)
    ||| (soc == 100 && battery_power < -2000 && prev_soc < 98)
}

/// What the checks make of a state of charge: the value to use and whether it
/// replaces the reading.
pub open spec fn soc_checked(
    soc: u8,
    battery_power: i32,
    grid_power: i32,
    solar_power: i32,
    prev: Option<u8>,
) -> (u8, bool) {
    match prev {
        Some(p) => if soc > 100 || soc_impossible(
            soc,
            battery_power,
            grid_power,
            solar_power,
            p,
        ) {
            (percent(p), true)
        } else {
            (soc, false)
        },
        None => (percent(soc), percent(soc) != soc),
    }
}

/// Checks the state of charge. Returns the value to use and whether it replaces
/// the reading.
pub fn check_soc(
    soc: u8,
    battery_power: i32,
    grid_power: i32,
    solar_power: i32,
    prev: Option<u8>,
) -> (r: (u8, bool))
    ensures
        r == soc_checked(soc, battery_power, grid_power, solar_power, prev),
{
    match prev {
        Some(p) => {
            let drained: bool = soc == 0 && (solar_power > 0 || battery_power != 0 || grid_power
                != 0) && p > 2;
            let filled: bool = soc == 100 && battery_power < -2000 && p < 98;
            if soc > 100 || drained || filled {
                (clamp_percent(p), true)
            } else {
                (soc, false)
            }
        },
        None => (clamp_percent(soc), soc > 100),
    }
}

/// What the check makes of a charge target: the value to use and whether it
/// replaces the reading.
pub open spec fn target_checked(target: u8, prev: Option<u8>) -> (u8, bool) {
    if target > 100 {
        match prev {
            Some(p) => (percent(p), true),
            None => (100, true),
        }
    } else {
        (target, false)
    }
}

/// Checks the charge target. Returns the value to use and whether it replaces
/// the reading.
pub fn check_target(target: u8, prev: Option<u8>) -> (r: (u8, bool))
    ensures
        r == target_checked(target, prev),
{
    if target > 100 {
        match prev {
            Some(p) => (clamp_percent(p), true),
            None => (100, true),
        }
    } else {
        (target, false)
    }
}

/// The highest plausible grid voltage is a line-to-line one on three-phase and
/// plant models.
pub open spec fn grid_voltage_range(device_type: DeviceType) -> (int, int) {
    if three_phase_family(device_type) || plant_controller(device_type) {
        (0, 500)
    } else {
        (180, 280)
    }
}

/// A grid reading during an outage: never negative, and never the last healthy
/// value.
pub open spec fn outage_reading(value: Quantity) -> Quantity {
    if value is Nano && value->Nano_0 > 0 {
        value
    } else {
        whole(0)
    }
}

/// Checks the grid voltage. Returns the value to use and whether it replaces
/// the reading.
pub fn check_grid_voltage(
    value: Quantity,
    online: bool,
    device_type: DeviceType,
    prev: Option<Quantity>,
) -> (r: (Quantity, bool))
    ensures
        ({
            let (low, high) = grid_voltage_range(device_type);
            r == if online {
                (held(value, low, high, prev, 230), beyond(value, low, high))
            } else {
                (outage_reading(value), outage_reading(value) != value)
            }
        }),
{
    if !online {
        let shown: Quantity = value.or_zero();
        return (shown, shown != value);
    }
    if device_type.needs_three_phase_input_blocks() || device_type.needs_gateway_input_blocks() {
        hold(value, 0, 500, prev, 230)
    } else {
        hold(value, 180, 280, prev, 230)
    }
}

/// Checks the grid frequency. Returns the value to use and whether it replaces
/// the reading.
pub fn check_grid_frequency(value: Quantity, online: bool, prev: Option<Quantity>) -> (r: (
    Quantity,
    bool,
))
    ensures
        r == if online {
            (held(value, 45, 55, prev, 50), beyond(value, 45, 55))
        } else {
            (outage_reading(value), outage_reading(value) != value)
        },
{
    if online {
        hold(value, 45, 55, prev, 50)
    } else {
        let shown: Quantity = value.or_zero();
        (shown, shown != value)
    }
}

/// The highest plausible battery voltage.
pub open spec fn battery_voltage_limit(device_type: DeviceType) -> int {
    match device_type {
        DeviceType::AllInOne6kW
        | DeviceType::AllInOne3_6kW
        | DeviceType::AllInOne5kW
        | DeviceType::AioCommercial
        | DeviceType::HybridHvGen3
        | DeviceType::AllInOneHybrid => 400,
        DeviceType::ThreePhase | DeviceType::ACThreePhase => 600,
        _ => 60,
    }
}

/// Checks the battery voltage. Returns the value to use and whether it replaces
/// the reading.
pub fn check_battery_voltage(value: Quantity, device_type: DeviceType, prev: Option<Quantity>) -> (r:
    (Quantity, bool))
    ensures
        ({
            let limit = battery_voltage_limit(device_type);
            r == (held(value, 0, limit, prev, 0), beyond(value, 0, limit))
        }),
{
    let limit: i32 = match device_type {
        DeviceType::AllInOne6kW
        | DeviceType::AllInOne3_6kW
        | DeviceType::AllInOne5kW
        | DeviceType::AioCommercial
        | DeviceType::HybridHvGen3
        | DeviceType::AllInOneHybrid => 400,
        DeviceType::ThreePhase | DeviceType::ACThreePhase => 600,
        _ => 60,
    };
    hold(value, 0, limit, prev, 0)
}

/// The voltage of the module at `index` in the previous snapshot.
pub open spec fn module_voltage_before(index: usize, prev: Option<Seq<BatteryModule>>) -> Option<
    Quantity,
> {
    match prev {
        Some(modules) => if index < modules.len() {
            Some(modules[index as int].voltage)
        } else {
            None
        },
        None => None,
    }
}

/// A module whose voltage is held to 0 to 500 V.
pub open spec fn held_module(module: BatteryModule, prev: Option<Seq<BatteryModule>>) -> BatteryModule {
    BatteryModule {
        voltage: held(module.voltage, 0, 500, module_voltage_before(module.index, prev), 0),
        ..module
    }
}

/// Holds the voltage of every module to 0 to 500 V; one outside gives way to
/// that of the previous snapshot, or to zero. Returns whether any was replaced.
pub fn check_module_voltages(
    modules: &mut Vec<BatteryModule>,
    prev: Option<&InverterSnapshot>,
) -> (r: bool)
    ensures
        final(modules)@ == old(modules)@.map_values(
            |m: BatteryModule| held_module(m, modules_of(prev)),
        ),
        r == exists|i: int|
            0 <= i < old(modules).len() && beyond((#[trigger] old(modules)[i]).voltage, 0, 500),
{
    let ghost before = modules@;
    let mut flagged: bool = false;
    let mut i: usize = 0;
    while i < modules.len()
        invariant
            i <= modules.len(),
            modules.len() == before.len(),
            forall|j: int|
                0 <= j < before.len() ==> #[trigger] modules[j] == if j < i {
                    held_module(before[j], modules_of(prev))
                } else {
                    before[j]
                },
            flagged == exists|j: int| 0 <= j < i && beyond((#[trigger] before[j]).voltage, 0, 500),
        decreases modules.len() - i,
    {
        let mut module: BatteryModule = modules[i];
        let last: Option<Quantity> = match prev {
            Some(p) => if module.index < p.battery_modules.len() {
                Some(p.battery_modules[module.index].voltage)
            } else {
                None
            },
            None => None,
        };
        let (voltage, replaced) = hold(module.voltage, 0, 500, last, 0);
        module.voltage = voltage;
        assert(before[i as int] == modules[i as int]);
        modules[i] = module;
        if replaced {
            flagged = true;
        }
        i += 1;
    }
    assert(modules@ =~= before.map_values(|m: BatteryModule| held_module(m, modules_of(prev))));
    flagged
}

/// The modules of the previous snapshot.
pub open spec fn modules_of(prev: Option<&InverterSnapshot>) -> Option<Seq<BatteryModule>> {
    match prev {
        Some(p) => Some(p.battery_modules@),
        None => None,
    }
}

/// Whether an AC-coupled model's charge or discharge limit was not read: those
/// limits are never zero.
pub open spec fn ac_limit_missing(
    rate: u8,
    device_type: DeviceType,
    prev_rate: u8,
    prev_type: DeviceType,
) -> bool {
    (device_type is ACCoupled || device_type is ACCoupledMk2) && (prev_type is ACCoupled
        || prev_type is ACCoupledMk2) && rate == 0 && prev_rate > 0
}

/// A percentage cut off at 100.
pub open spec fn percent(rate: u8) -> u8 {
    if rate > 100 {
        100
    } else {
        rate
    }
}

/// Checks a charge or discharge limit. Returns the value to use and whether it
/// replaces the reading.
pub fn check_rate_limit(
    rate: u8,
    device_type: DeviceType,
    prev: Option<(u8, DeviceType)>,
) -> (r: (u8, bool))
    ensures
        r == match prev {
            Some(p) => if ac_limit_missing(rate, device_type, p.0, p.1) {
                (percent(p.0), true)
            } else {
                (percent(rate), percent(rate) != rate)
            },
            None => (percent(rate), percent(rate) != rate),
        },
{
    if let Some((prev_rate, prev_type)) = prev {
        let ac: bool = match device_type {
            DeviceType::ACCoupled | DeviceType::ACCoupledMk2 => true,
            _ => false,
        };
        let prev_ac: bool = match prev_type {
            DeviceType::ACCoupled | DeviceType::ACCoupledMk2 => true,
            _ => false,
        };
        if ac && prev_ac && rate == 0 && prev_rate > 0 {
            return (clamp_percent(prev_rate), true);
        }
    }
    (clamp_percent(rate), rate > 100)
}

/// A percentage cut off at 100.
pub fn clamp_percent(rate: u8) -> (r: u8)
    ensures
        r == percent(rate),
{
    if rate > 100 {
        100
    } else {
        rate
    }
}

/// What the debounce makes of a battery mode: the mode to report, the mode
/// still to be confirmed, and whether the reading was held back.
pub open spec fn debounced(
    mode: BatteryMode,
    prev: Option<BatteryMode>,
    pending: Option<BatteryMode>,
) -> (BatteryMode, Option<BatteryMode>, bool) {
    match prev {
        None => (mode, None, false),
        Some(p) => if mode == p {
            (mode, None, false)
        } else {
            match pending {
                None => (p, Some(mode), true),
                Some(awaited) => if awaited == mode {
                    (mode, None, false)
                } else {
                    (p, Some(mode), true)
                },
            }
        },
    }
}

/// Debounces the battery mode: a change is reported when it has been read twice
/// in a row. Returns the mode to report and whether the reading was held
/// back.
pub fn debounce_mode(
    mode: BatteryMode,
    prev: Option<BatteryMode>,
    pending: &mut Option<BatteryMode>,
) -> (r: (BatteryMode, bool))
    ensures
        (r.0, *final(pending), r.1) == debounced(mode, prev, *old(pending)),
{
    match prev {
        None => {
            *pending = None;
            (mode, false)
        },
        Some(p) => {
            if mode == p {
                *pending = None;
                return (mode, false);
            }
            match *pending {
                None => {
                    *pending = Some(mode);
                    (p, true)
                },
                Some(awaited) => {
                    if awaited == mode {
                        *pending = None;
                        (mode, false)
                    } else {
                        *pending = Some(mode);
                        (p, true)
                    }
                },
            }
        },
    }
}

/// Whether a reserve is outside the 4 to 100 % that the register holds.
pub open spec fn reserve_invalid(reserve: u8) -> bool {
    reserve < 4 || reserve > 100
}

/// A reserve cut off at 4 and 100 %.
pub open spec fn reserve_clamped(reserve: u8) -> u8 {
    if reserve < 4 {
        4
    } else if reserve > 100 {
        100
    } else {
        reserve
    }
}

/// Checks the battery reserve. Returns the value to use and whether it replaces
/// the reading.
pub fn check_reserve(reserve: u8, prev: Option<u8>) -> (r: (u8, bool))
    ensures
        r == if reserve_invalid(reserve) {
            (
                reserve_clamped(
                    match prev {
                        Some(p) => p,
                        None => reserve,
                    },
                ),
                true,
            )
        } else {
            (reserve, false)
        },
{
    if reserve < 4 || reserve > 100 {
        let source: u8 = match prev {
            Some(p) => p,
            None => reserve,
        };
        (if source < 4 {
            4
        } else if source > 100 {
            100
        } else {
            source
        }, true)
    } else {
        (reserve, false)
    }
}

} // verus!
