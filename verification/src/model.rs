//! The inverter snapshot and the types it is made of.
use crate::quantity::{saturated, whole, Quantity};
use vstd::prelude::*;

verus! {

/// Operating hours above which the lifetime counter is not believed: a century.
pub const MAX_OPERATING_HOURS: u32 = 876_000;

/// The inverter or plant model behind a snapshot.
#[derive(Clone, Copy, Debug, PartialEq, Eq, Structural)]
pub enum DeviceType {
    Gen2Hybrid,
    Gen3Hybrid,
    ACCoupled,
    ACCoupledMk2,
    ThreePhase,
    ACThreePhase,
    AioCommercial,
    HybridHvGen3,
    AllInOneHybrid,
    AllInOne6kW,
    #[allow(non_camel_case_types)]
    AllInOne3_6kW,
    AllInOne5kW,
    PvInverter,
    Ems,
    EmsCommercial,
    Gateway,
    /// A device-type code that is not recognised.
    Unknown(u16),
}

/// Three-phase, high-voltage and commercial models, which keep their limits,
/// reserve and first slots in the three-phase configuration block.
pub open spec fn three_phase_family(device_type: DeviceType) -> bool {
    device_type is ThreePhase || device_type is ACThreePhase || device_type is AioCommercial
        || device_type is HybridHvGen3 || device_type is AllInOneHybrid
}

/// Models that have the extended schedule block: slots 3 to 10 and a target
/// state of charge per slot.
pub open spec fn extended_schedule(device_type: DeviceType) -> bool {
    device_type is Gen3Hybrid || device_type is AllInOne6kW || device_type is AllInOne3_6kW
        || device_type is AllInOne5kW || three_phase_family(device_type)
}

/// Plant controllers, whose readings aggregate several inverters.
pub open spec fn plant_controller(device_type: DeviceType) -> bool {
    device_type is Gateway || device_type is Ems || device_type is EmsCommercial
}

/// Models with no battery of their own.
pub open spec fn batteryless(device_type: DeviceType) -> bool {
    plant_controller(device_type) || device_type is PvInverter
}

/// Discharge slots that the model's registers can hold.
pub open spec fn discharge_slot_limit(device_type: DeviceType) -> int {
    if extended_schedule(device_type) {
        10
    } else {
        2
    }
}

impl DeviceType {
    /// Whether the readings come from the plant-level input blocks.
    pub fn needs_gateway_input_blocks(self) -> (r: bool)
        ensures
            r == plant_controller(self),
    {
        match self {
            DeviceType::Gateway | DeviceType::Ems | DeviceType::EmsCommercial => true,
            _ => false,
        }
    }

    /// Whether the readings come from the three-phase input blocks.
    pub fn needs_three_phase_input_blocks(self) -> (r: bool)
        ensures
            r == three_phase_family(self),
    {
        match self {
            DeviceType::ThreePhase
            | DeviceType::ACThreePhase
            | DeviceType::AioCommercial
            | DeviceType::HybridHvGen3
            | DeviceType::AllInOneHybrid => true,
            _ => false,
        }
    }

    /// Whether slots, reserve and discharge enable are routed to the
    /// three-phase registers.
    pub fn uses_three_phase_schedule_slots(self) -> (r: bool)
        ensures
            r == three_phase_family(self),
    {
        self.needs_three_phase_input_blocks()
    }

    /// Whether the model has the extended schedule block.
    pub fn uses_extended_schedule_slots(self) -> (r: bool)
        ensures
            r == extended_schedule(self),
    {
        match self {
            DeviceType::Gen3Hybrid
            | DeviceType::AllInOne6kW
            | DeviceType::AllInOne3_6kW
            | DeviceType::AllInOne5kW => true,
            _ => self.needs_three_phase_input_blocks(),
        }
    }

    /// Whether the model has no battery of its own.
    pub fn is_batteryless(self) -> (r: bool)
        ensures
            r == batteryless(self),
    {
        match self {
            DeviceType::PvInverter => true,
            _ => self.needs_gateway_input_blocks(),
        }
    }

    /// How many discharge slots the model has.
    pub fn max_discharge_slots(self) -> (r: u8)
        ensures
            r == discharge_slot_limit(self),
    {
        if self.uses_extended_schedule_slots() {
            10
        } else {
            2
        }
    }
}

/// The battery operating mode derived from the inverter's registers.
#[derive(Clone, Copy, Debug, PartialEq, Eq, Structural)]
pub enum BatteryMode {
    /// Self-consumption.
    Eco,
    /// Self-consumption with discharge paused.
    EcoPaused,
    /// Discharge inside the scheduled windows.
    TimedDemand,
    /// Maximum-power export inside the scheduled windows.
    TimedExport,
}

/// A daily time window with a target state of charge.
#[derive(Clone, Copy, Debug, PartialEq, Eq, Structural)]
pub struct ScheduleSlot {
    pub enabled: bool,
    pub start_hour: u8,
    pub start_minute: u8,
    pub end_hour: u8,
    pub end_minute: u8,
    pub target_soc: u8,
}

/// Minutes since midnight of a clock time.
pub open spec fn clock_minutes(hour: u8, minute: u8) -> int {
    hour as int * 60 + minute as int
}

/// Whether `now` lies in the daily window `[start, end)`, which wraps past
/// midnight where it does not end after it starts.
pub open spec fn daily_window(start: int, end: int, now: int) -> bool {
    if start < end {
        start <= now < end
    } else {
        start <= now || now < end
    }
}

impl ScheduleSlot {
    pub open spec fn start(self) -> int {
        clock_minutes(self.start_hour, self.start_minute)
    }

    pub open spec fn end(self) -> int {
        clock_minutes(self.end_hour, self.end_minute)
    }

    /// Enabled, with a window that is not empty.
    pub open spec fn configured(self) -> bool {
        self.enabled && self.start() != self.end()
    }

    /// Configured, and `now` (minutes since midnight) is inside the window.
    pub open spec fn covers(self, now: int) -> bool {
        self.configured() && daily_window(self.start(), self.end(), now)
    }

    /// Start of the window in minutes since midnight.
    pub fn start_minutes(&self) -> (r: u16)
        ensures
            r == self.start(),
    {
        self.start_hour as u16 * 60 + self.start_minute as u16
    }

    /// End of the window in minutes since midnight.
    pub fn end_minutes(&self) -> (r: u16)
        ensures
            r == self.end(),
    {
        self.end_hour as u16 * 60 + self.end_minute as u16
    }

    /// Whether the slot is enabled and its window is not empty.
    pub fn is_configured(&self) -> (r: bool)
        ensures
            r == self.configured(),
    {
        self.enabled && self.start_minutes() != self.end_minutes()
    }

    /// Whether the slot is configured and its window contains the minute.
    pub fn contains_minute(&self, minute_of_day: u16) -> (r: bool)
        ensures
            r == self.covers(minute_of_day as int),
    {
        self.is_configured() && in_daily_window(
            self.start_minutes(),
            self.end_minutes(),
            minute_of_day,
        )
    }
}

/// Whether `now` lies in the daily window `[start, end)`, wrapping past
/// midnight where `end <= start`.
pub fn in_daily_window(start: u16, end: u16, now: u16) -> (r: bool)
    ensures
        r == daily_window(start as int, end as int, now as int),
{
    if start < end {
        now >= start && now < end
    } else {
        now >= start || now < end
    }
}

/// Some slot of `slots` is configured.
pub open spec fn some_configured(slots: Seq<ScheduleSlot>) -> bool {
    exists|i: int| 0 <= i < slots.len() && (#[trigger] slots[i]).configured()
}

/// Some slot of `slots` covers the minute `now`.
pub open spec fn some_covers(slots: Seq<ScheduleSlot>, now: int) -> bool {
    exists|i: int| 0 <= i < slots.len() && (#[trigger] slots[i]).covers(now)
}

/// Whether any slot is configured.
pub fn any_configured(slots: &[ScheduleSlot]) -> (r: bool)
    ensures
        r == some_configured(slots@),
{
    let mut i: usize = 0;
    while i < slots.len()
        invariant
            i <= slots.len(),
            forall|j: int| 0 <= j < i ==> !(#[trigger] slots[j]).configured(),
        decreases slots.len() - i,
    {
        if slots[i].is_configured() {
            return true;
        }
        i += 1;
    }
    false
}

/// Whether the window of any configured slot contains the minute.
pub fn any_covers(slots: &[ScheduleSlot], minute_of_day: u16) -> (r: bool)
    ensures
        r == some_covers(slots@, minute_of_day as int),
{
    let mut i: usize = 0;
    while i < slots.len()
        invariant
            i <= slots.len(),
            forall|j: int| 0 <= j < i ==> !(#[trigger] slots[j]).covers(minute_of_day as int),
        decreases slots.len() - i,
    {
        if slots[i].contains_minute(minute_of_day) {
            return true;
        }
        i += 1;
    }
    false
}

/// The slot of an empty schedule: disabled, with the lowest target.
pub open spec fn empty_slot() -> ScheduleSlot {
    ScheduleSlot {
        enabled: false,
        start_hour: 0,
        start_minute: 0,
        end_hour: 0,
        end_minute: 0,
        target_soc: 4,
    }
}

impl Default for ScheduleSlot {
    fn default() -> (r: ScheduleSlot)
        ensures
            r == empty_slot(),
    {
        ScheduleSlot {
            enabled: false,
            start_hour: 0,
            start_minute: 0,
            end_hour: 0,
            end_minute: 0,
            target_soc: 4,
        }
    }
}

/// One battery module as its management system reports it.
#[derive(Clone, Copy, Debug, PartialEq, Eq, Structural)]
pub struct BatteryModule {
    /// Position of the module in the stack, from 0.
    pub index: usize,
    pub voltage: Quantity,
    pub temperature: Quantity,
    pub capacity_ah: Quantity,
}

impl Default for BatteryModule {
    fn default() -> (r: BatteryModule)
        ensures
            r == (BatteryModule {
                index: 0,
                voltage: Quantity::Nano(0),
                temperature: Quantity::Nano(0),
                capacity_ah: Quantity::Nano(0),
            }),
    {
        BatteryModule {
            index: 0,
            voltage: Quantity::Nano(0),
            temperature: Quantity::Nano(0),
            capacity_ah: Quantity::Nano(0),
        }
    }
}

/// What the control unit of a high-voltage battery stack reports.
#[derive(Clone, Debug)]
pub struct HvBcuCluster {
    pub pack_software_version: String,
    pub number_of_modules: u16,
    pub cells_per_module: u16,
    pub cluster_cell_voltage: Quantity,
    pub status: u16,
    pub battery_voltage: Quantity,
    pub battery_current: Quantity,
    pub battery_power_w: i32,
    /// State of charge of the fullest module (%).
    pub battery_soc_max: u8,
    /// State of charge of the emptiest module (%).
    pub battery_soc_min: u8,
    pub battery_soh: u8,
    /// Stale on some firmware, so nothing is derived from it.
    pub temperature: Quantity,
    /// Capacity of one module.
    pub nominal_capacity_ah: Quantity,
    /// Remaining capacity of one module.
    pub remaining_capacity_ah: Quantity,
}

impl Default for HvBcuCluster {
    fn default() -> (r: HvBcuCluster)
        ensures
            r.pack_software_version@.len() == 0,
            r.number_of_modules == 0,
            r.cells_per_module == 0,
            r.cluster_cell_voltage == whole(0),
            r.status == 0,
            r.battery_voltage == whole(0),
            r.battery_current == whole(0),
            r.battery_power_w == 0,
            r.battery_soc_max == 0,
            r.battery_soc_min == 0,
            r.battery_soh == 0,
            r.temperature == whole(0),
            r.nominal_capacity_ah == whole(0),
            r.remaining_capacity_ah == whole(0),
    {
        HvBcuCluster {
            pack_software_version: String::new(),
            number_of_modules: 0,
            cells_per_module: 0,
            cluster_cell_voltage: Quantity::Nano(0),
            status: 0,
            battery_voltage: Quantity::Nano(0),
            battery_current: Quantity::Nano(0),
            battery_power_w: 0,
            battery_soc_max: 0,
            battery_soc_min: 0,
            battery_soh: 0,
            temperature: Quantity::Nano(0),
            nominal_capacity_ah: Quantity::Nano(0),
            remaining_capacity_ah: Quantity::Nano(0),
        }
    }
}

/// `count` times `q`.
pub open spec fn times(q: Quantity, count: int) -> Quantity {
    match q {
        Quantity::Nan => Quantity::Nan,
        Quantity::Nano(n) => saturated(n * count),
    }
}

impl HvBcuCluster {
    fn per_module(&self, q: Quantity) -> (r: Quantity)
        ensures
            r == times(q, self.number_of_modules as int),
    {
        match q {
            Quantity::Nan => Quantity::Nan,
            Quantity::Nano(n) => {
                let count: u16 = self.number_of_modules;
                assert(-0x8000_0000_0000_0000_0000 <= n * count <= 0x8000_0000_0000_0000_0000)
                    by (nonlinear_arith)
                    requires
                        -0x8000_0000_0000_0000 <= n <= 0x7fff_ffff_ffff_ffff,
                        0 <= count <= 0xffff,
                ;
                Quantity::from_nano(n as i128 * count as i128)
            },
        }
    }

    /// Capacity of the whole stack.
    pub fn total_capacity_ah(&self) -> (r: Quantity)
        ensures
            r == times(self.nominal_capacity_ah, self.number_of_modules as int),
    {
        self.per_module(self.nominal_capacity_ah)
    }

    /// Remaining capacity of the whole stack.
    pub fn total_remaining_ah(&self) -> (r: Quantity)
        ensures
            r == times(self.remaining_capacity_ah, self.number_of_modules as int),
    {
        self.per_module(self.remaining_capacity_ah)
    }
}

/// Battery ratings of a device model.
#[derive(Clone, Copy, Debug, PartialEq, Eq, Structural)]
pub struct BatteryRatings {
    /// Nominal voltage of the battery the model is built for.
    pub nominal_voltage: Quantity,
    /// Charge and discharge power that the hardware allows.
    pub max_power_w: u32,
}

/// One decoded set of inverter readings.
///
/// Battery power is positive while discharging, grid power while exporting.
#[derive(Clone, Debug)]
pub struct InverterSnapshot {
    /// Host time of the reading, in unix seconds.
    pub timestamp: i64,
    /// The inverter's own clock as `YYYY-MM-DD HH:MM:SS`; empty if unread.
    pub inverter_time: String,
    pub device_type: DeviceType,
    pub device_type_code: String,
    pub inverter_serial: String,
    pub battery_mode: BatteryMode,
    /// 0 for maximum power, 1 for self-consumption.
    pub battery_power_mode: u8,
    pub battery_power: i32,
    pub grid_power: i32,
    pub solar_power: i32,
    pub home_power: i32,
    pub eps_power_w: u32,
    pub operating_hours: u32,
    pub soc: u8,
    pub target_soc: u8,
    pub battery_reserve: u8,
    pub charge_rate: u8,
    pub discharge_rate: u8,
    pub active_power_rate: u8,
    pub enable_charge: bool,
    pub enable_discharge: bool,
    pub enable_charge_target: bool,
    pub auto_winter_active: bool,
    pub grid_online: bool,
    pub ac_export_priority: u8,
    pub ac_eps_enabled: bool,
    /// 0 off, 1 charging paused, 2 discharging paused, 3 both paused.
    pub battery_pause_mode: u8,
    pub battery_pause_slot: ScheduleSlot,
    pub export_limit_w: u32,
    /// Models without the extended schedule block use the first two slots.
    pub charge_slots: [ScheduleSlot; 10],
    pub discharge_slots: [ScheduleSlot; 10],
    pub battery_modules: Vec<BatteryModule>,
    pub max_battery_power_w: u32,
    pub battery_capacity_kwh: Quantity,
    pub inverter_temperature: Quantity,
    pub battery_temperature: Quantity,
    pub battery_voltage: Quantity,
    pub battery_current: Quantity,
    pub grid_voltage: Quantity,
    pub grid_frequency: Quantity,
    pub today_solar_kwh: Quantity,
    pub today_pv1_kwh: Quantity,
    pub today_pv2_kwh: Quantity,
    pub today_import_kwh: Quantity,
    pub today_export_kwh: Quantity,
    pub today_charge_kwh: Quantity,
    pub today_discharge_kwh: Quantity,
    pub today_consumption_kwh: Quantity,
    pub today_ac_charge_kwh: Quantity,
    pub total_import_kwh: Quantity,
    pub total_export_kwh: Quantity,
    pub total_solar_kwh: Quantity,
    pub total_charge_kwh: Quantity,
    pub total_discharge_kwh: Quantity,
    pub total_throughput_kwh: Quantity,
}

impl Default for InverterSnapshot {
    /// A snapshot of nothing: idle, in Eco, on the grid, with the lowest target.
    fn default() -> (r: InverterSnapshot)
        ensures
            r.timestamp == 0,
            r.inverter_time@.len() == 0,
            r.device_type == DeviceType::Unknown(0),
            r.device_type_code@.len() == 0,
            r.inverter_serial@.len() == 0,
            r.battery_mode == BatteryMode::Eco,
            r.battery_power_mode == 1,
            r.battery_power == 0,
            r.grid_power == 0,
            r.solar_power == 0,
            r.home_power == 0,
            r.eps_power_w == 0,
            r.operating_hours == 0,
            r.soc == 0,
            r.target_soc == 4,
            r.battery_reserve == 0,
            r.charge_rate == 0,
            r.discharge_rate == 0,
            r.active_power_rate == 0,
            !r.enable_charge,
            !r.enable_discharge,
            !r.enable_charge_target,
            !r.auto_winter_active,
            r.grid_online,
            r.ac_export_priority == 0,
            !r.ac_eps_enabled,
            r.battery_pause_mode == 0,
            r.battery_pause_slot == empty_slot(),
            r.export_limit_w == 0,
            r.charge_slots@ == Seq::new(10, |i: int| empty_slot()),
            r.discharge_slots@ == Seq::new(10, |i: int| empty_slot()),
            r.battery_modules@.len() == 0,
            r.max_battery_power_w == 0,
            r.battery_capacity_kwh == whole(0),
            r.inverter_temperature == whole(0),
            r.battery_temperature == whole(0),
            r.battery_voltage == whole(0),
            r.battery_current == whole(0),
            r.grid_voltage == whole(0),
            r.grid_frequency == whole(0),
            r.today_solar_kwh == whole(0),
            r.today_pv1_kwh == whole(0),
            r.today_pv2_kwh == whole(0),
            r.today_import_kwh == whole(0),
            r.today_export_kwh == whole(0),
            r.today_charge_kwh == whole(0),
            r.today_discharge_kwh == whole(0),
            r.today_consumption_kwh == whole(0),
            r.today_ac_charge_kwh == whole(0),
            r.total_import_kwh == whole(0),
            r.total_export_kwh == whole(0),
            r.total_solar_kwh == whole(0),
            r.total_charge_kwh == whole(0),
            r.total_discharge_kwh == whole(0),
            r.total_throughput_kwh == whole(0),
    {
        let slot = ScheduleSlot::default();
        let zero = Quantity::Nano(0);
        let r = InverterSnapshot {
            timestamp: 0,
            inverter_time: String::new(),
            device_type: DeviceType::Unknown(0),
            device_type_code: String::new(),
            inverter_serial: String::new(),
            battery_mode: BatteryMode::Eco,
            battery_power_mode: 1,
            battery_power: 0,
            grid_power: 0,
            solar_power: 0,
            home_power: 0,
            eps_power_w: 0,
            operating_hours: 0,
            soc: 0,
            target_soc: 4,
            battery_reserve: 0,
            charge_rate: 0,
            discharge_rate: 0,
            active_power_rate: 0,
            enable_charge: false,
            enable_discharge: false,
            enable_charge_target: false,
            auto_winter_active: false,
            grid_online: true,
            ac_export_priority: 0,
            ac_eps_enabled: false,
            battery_pause_mode: 0,
            battery_pause_slot: slot,
            export_limit_w: 0,
            charge_slots: [slot; 10],
            discharge_slots: [slot; 10],
            battery_modules: Vec::new(),
            max_battery_power_w: 0,
            battery_capacity_kwh: zero,
            inverter_temperature: zero,
            battery_temperature: zero,
            battery_voltage: zero,
            battery_current: zero,
            grid_voltage: zero,
            grid_frequency: zero,
            today_solar_kwh: zero,
            today_pv1_kwh: zero,
            today_pv2_kwh: zero,
            today_import_kwh: zero,
            today_export_kwh: zero,
            today_charge_kwh: zero,
            today_discharge_kwh: zero,
            today_consumption_kwh: zero,
            today_ac_charge_kwh: zero,
            total_import_kwh: zero,
            total_export_kwh: zero,
            total_solar_kwh: zero,
            total_charge_kwh: zero,
            total_discharge_kwh: zero,
            total_throughput_kwh: zero,
        };
        assert(r.charge_slots@ =~= Seq::new(10, |i: int| empty_slot()));
        assert(r.discharge_slots@ =~= Seq::new(10, |i: int| empty_slot()));
        r
    }
}

} // verus!
