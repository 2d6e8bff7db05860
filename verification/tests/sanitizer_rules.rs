use home_energy_manager::model::{
    BatteryMode, BatteryModule, DeviceType, InverterSnapshot, ScheduleSlot,
};
use home_energy_manager::quantity::Quantity;
use home_energy_manager::sanitizer::balance::{cross_validate_power_balance, PowerFieldState};
use home_energy_manager::sanitizer::bms::validate_battery_bms;
use home_energy_manager::sanitizer::carry_forward::{
    carry_forward_battery_modules_with, carry_forward_optional_block_values,
};
use home_energy_manager::sanitizer::clock::{
    inverter_minute_of_day, is_within_daily_reset_window, reset_window_open,
};
use home_energy_manager::sanitizer::energy::DeltaCorrectionCounts;
use home_energy_manager::sanitizer::fingerprint::is_block_suspicious;
use home_energy_manager::sanitizer::grace::GraceCumulativeSamples;
use home_energy_manager::sanitizer::power::{
    check_power_field, check_power_rate, ConsecutiveSuspectCounts, FieldRateRules,
    RateReleaseCounts, RATE_RELEASE_THRESHOLD,
};
use home_energy_manager::sanitizer::slots::{slot_duration_minutes, slot_start_minutes};
use home_energy_manager::sanitizer::snapshot::{sanitize_snapshot, sanitize_snapshot_within};

fn q(value: f64) -> Quantity {
    if value.is_nan() {
        Quantity::Nan
    } else {
        Quantity::Nano((value * 1e9).round() as i64)
    }
}

/// A snapshot with nothing to object to.
fn settled() -> InverterSnapshot {
    InverterSnapshot {
        timestamp: 1000,
        inverter_time: "2024-06-15 12:00:00".to_string(),
        device_type: DeviceType::Gen3Hybrid,
        battery_mode: BatteryMode::Eco,
        grid_voltage: q(230.0),
        grid_frequency: q(50.0),
        battery_voltage: q(51.2),
        soc: 50,
        battery_reserve: 4,
        ..Default::default()
    }
}

struct Sanitizer {
    pending: Option<BatteryMode>,
    deltas: DeltaCorrectionCounts,
    suspects: ConsecutiveSuspectCounts,
    rates: RateReleaseCounts,
}

impl Sanitizer {
    fn new() -> Self {
        Sanitizer {
            pending: None,
            deltas: DeltaCorrectionCounts::default(),
            suspects: ConsecutiveSuspectCounts::default(),
            rates: RateReleaseCounts::default(),
        }
    }

    fn run(&mut self, snap: &mut InverterSnapshot, prev: Option<&InverterSnapshot>) -> bool {
        sanitize_snapshot(
            snap,
            prev,
            false,
            &mut self.pending,
            &mut self.deltas,
            &mut self.suspects,
            &mut self.rates,
        )
    }
}

#[test]
fn repeated_snapshot_is_left_alone() {
    let prev = settled();
    let mut snap = settled();
    assert!(!Sanitizer::new().run(&mut snap, Some(&prev)));
    assert_eq!(format!("{snap:?}"), format!("{prev:?}"));
}

#[test]
fn implausible_snapshot_comes_out_in_range() {
    let prev = settled();
    let mut snap = settled();
    snap.battery_power = i32::MIN;
    snap.grid_power = 32_767;
    snap.solar_power = -32_768;
    snap.home_power = 40_000;
    snap.eps_power_w = u32::MAX;
    snap.operating_hours = u32::MAX;
    snap.inverter_temperature = q(239.0);
    snap.battery_temperature = q(-21.0);
    snap.battery_voltage = q(61.0);
    snap.charge_rate = 255;
    snap.discharge_rate = 101;
    snap.active_power_rate = 200;
    snap.battery_reserve = 0;
    snap.target_soc = 130;
    snap.today_solar_kwh = q(1010.0);
    snap.total_charge_kwh = q(100_001.0);
    assert!(Sanitizer::new().run(&mut snap, Some(&prev)));
    assert_eq!(snap.battery_power, 0);
    assert_eq!(snap.grid_power, 0);
    assert_eq!(snap.solar_power, 0);
    assert_eq!(snap.home_power, 0);
    assert_eq!(snap.eps_power_w, 0);
    assert_eq!(snap.operating_hours, 0);
    assert_eq!(snap.inverter_temperature, q(0.0));
    assert_eq!(snap.battery_temperature, q(0.0));
    assert_eq!(snap.battery_voltage, q(51.2));
    assert_eq!(snap.charge_rate, 100);
    assert_eq!(snap.discharge_rate, 100);
    assert_eq!(snap.active_power_rate, 100);
    assert_eq!(snap.battery_reserve, 4);
    assert_eq!(snap.target_soc, 4);
    assert_eq!(snap.today_solar_kwh, q(0.0));
    assert_eq!(snap.total_charge_kwh, q(0.0));
}

#[test]
fn saturated_power_never_gets_through() {
    let mut sanitizer = Sanitizer::new();
    let mut prev = settled();
    prev.battery_power = 1_500;
    prev.home_power = 1_500;
    for i in 1..40 {
        let mut snap = prev.clone();
        snap.timestamp += i;
        snap.battery_power = 32_767;
        assert!(sanitizer.run(&mut snap, Some(&prev)));
        assert_eq!(snap.battery_power, 1_500);
        prev = snap;
    }
}

#[test]
fn first_saturated_reading_is_cut_to_the_limit() {
    let mut snap = settled();
    snap.battery_power = -32_768;
    assert!(Sanitizer::new().run(&mut snap, None));
    assert_eq!(snap.battery_power, -10_000);
    let mut snap = settled();
    snap.device_type = DeviceType::Gateway;
    snap.battery_power = 32_767;
    assert!(Sanitizer::new().run(&mut snap, None));
    assert_eq!(snap.battery_power, 20_000);
}

#[test]
fn rate_bounds_are_both_strict() {
    let rules = FieldRateRules { rate_fraction: q(0.5), abs_delta_w: 2_000 };
    let mut counts = RateReleaseCounts::default();
    assert_eq!(check_power_rate(5_000, Some(3_000), 3, &rules, "home_power", &mut counts), (5_000, false));
    assert_eq!(check_power_rate(5_001, Some(3_000), 3, &rules, "home_power", &mut counts), (3_000, true));
    assert_eq!(counts.0.get("home_power"), Some(1));
    assert_eq!(check_power_rate(9_000, Some(3_000), 61, &rules, "home_power", &mut counts), (9_000, false));
    assert_eq!(counts.0.get("home_power"), None);
    assert_eq!(check_power_rate(9_000, Some(3_000), 60, &rules, "home_power", &mut counts), (3_000, true));
    assert_eq!(check_power_rate(9_000, Some(499), 3, &rules, "home_power", &mut counts), (9_000, false));
    assert_eq!(check_power_rate(9_000, Some(-500), 3, &rules, "home_power", &mut counts), (-500, true));
    let unbounded = FieldRateRules { rate_fraction: q(f64::NAN), abs_delta_w: 2_000 };
    assert_eq!(check_power_rate(9_000, Some(3_000), 3, &unbounded, "home_power", &mut counts), (9_000, false));
    assert_eq!(
        check_power_rate(i32::MIN, Some(i32::MAX), 3, &rules, "home_power", &mut counts),
        (i32::MAX, true)
    );
}

#[test]
fn third_fast_reading_is_released() {
    let rules = FieldRateRules { rate_fraction: q(0.5), abs_delta_w: 2_000 };
    let mut counts = RateReleaseCounts::default();
    for n in 1..RATE_RELEASE_THRESHOLD {
        assert_eq!(check_power_rate(9_000, Some(3_000), 3, &rules, "grid_power", &mut counts), (3_000, true));
        assert_eq!(counts.0.get("grid_power"), Some(n));
    }
    assert_eq!(check_power_rate(9_000, Some(3_000), 3, &rules, "grid_power", &mut counts), (9_000, false));
    assert!(!counts.0.contains_key("grid_power"));
}

#[test]
fn counters_of_labels_are_independent() {
    let mut counts = ConsecutiveSuspectCounts::default();
    check_power_field(16_000, Some(0), 15_000, "grid_power", &mut counts);
    check_power_field(16_000, Some(0), 15_000, "home_power", &mut counts);
    check_power_field(17_000, Some(0), 15_000, "grid_power", &mut counts);
    assert_eq!(counts.0.get("grid_power"), Some(2));
    assert_eq!(counts.0.get("home_power"), Some(1));
    check_power_field(1, Some(0), 15_000, "grid_power", &mut counts);
    assert_eq!(counts.0.get("grid_power"), None);
    assert_eq!(counts.0.get("home_power"), Some(1));
    counts.0.insert("home_power", 7);
    assert_eq!(counts.0.get("home_power"), Some(7));
}

#[test]
fn accepted_over_limit_reading_stays_accepted() {
    let mut counts = ConsecutiveSuspectCounts::default();
    counts.0.insert("grid_power", 4);
    assert_eq!(check_power_field(16_000, Some(16_000), 15_000, "grid_power", &mut counts), (16_000, false));
    assert_eq!(counts.0.get("grid_power"), None);
    assert_eq!(check_power_field(16_000, None, 15_000, "grid_power", &mut counts), (16_000, false));
    assert_eq!(counts.0.get("grid_power"), Some(1));
}

fn powers(battery: i32, grid: i32, solar: i32, home: i32) -> InverterSnapshot {
    InverterSnapshot {
        battery_power: battery,
        grid_power: grid,
        solar_power: solar,
        home_power: home,
        ..Default::default()
    }
}

fn kept(raw: i32) -> PowerFieldState {
    PowerFieldState { raw, rate_rejected: false }
}

fn rejected(raw: i32) -> PowerFieldState {
    PowerFieldState { raw, rate_rejected: true }
}

#[test]
fn imbalance_of_two_kilowatts_is_tolerated() {
    let prev = powers(0, 0, 0, 2_000);
    let mut snap = powers(0, 0, 0, 2_000);
    assert!(!cross_validate_power_balance(&mut snap, &prev, kept(0), rejected(-2_000), kept(0), kept(2_000)));
    assert_eq!(snap.grid_power, 0);
    let prev = powers(0, 0, 0, 2_001);
    let mut snap = powers(0, 0, 0, 2_001);
    assert!(cross_validate_power_balance(&mut snap, &prev, kept(0), rejected(-2_000), kept(0), kept(2_001)));
    assert_eq!(snap.grid_power, -2_000);
}

#[test]
fn reading_that_was_let_through_can_be_taken_back() {
    let prev = powers(0, 0, 3_000, 3_000);
    let mut snap = powers(0, 0, 6_000, 3_000);
    assert!(cross_validate_power_balance(&mut snap, &prev, kept(0), kept(0), kept(6_000), kept(3_000)));
    assert_eq!(snap.solar_power, 3_000);
}

#[test]
fn two_possible_culprits_leave_everything_alone() {
    let prev = powers(0, 0, 0, 5_000);
    let mut snap = powers(0, 0, 0, 5_000);
    let done = cross_validate_power_balance(
        &mut snap,
        &prev,
        rejected(5_000),
        kept(0),
        rejected(100),
        kept(5_000),
    );
    assert!(done);
    assert_eq!(snap.battery_power, 5_000);
    let mut snap = powers(0, 0, 0, 5_000);
    let done = cross_validate_power_balance(
        &mut snap,
        &prev,
        rejected(4_600),
        kept(0),
        rejected(4_400),
        kept(5_000),
    );
    assert!(!done);
    assert_eq!((snap.battery_power, snap.solar_power), (0, 0));
}

#[test]
fn home_reading_that_hardly_moved_is_no_suspect() {
    let prev = powers(0, 0, 5_800, 8_000);
    let mut snap = powers(0, 0, 5_800, 8_000);
    let (b, g, s) = (kept(0), kept(0), kept(5_800));
    assert!(!cross_validate_power_balance(&mut snap, &prev, b, g, s, rejected(7_001)));
    assert_eq!(snap.home_power, 8_000);
    assert!(cross_validate_power_balance(&mut snap, &prev, b, g, s, rejected(7_000)));
    assert_eq!(snap.home_power, 7_000);
}

#[test]
fn one_reading_alone_must_reconcile_the_rest() {
    let prev = powers(0, 0, 3_000, 8_000);
    let mut snap = powers(0, 0, 5_500, 8_000);
    let done = cross_validate_power_balance(
        &mut snap,
        &prev,
        kept(0),
        kept(0),
        kept(5_500),
        rejected(3_000),
    );
    assert!(!done);
    assert_eq!((snap.solar_power, snap.home_power), (5_500, 8_000));
    assert_eq!((snap.battery_power, snap.grid_power), (0, 0));
}

#[test]
fn state_of_charge_and_target_are_percentages() {
    let prev = settled();
    let mut snap = settled();
    snap.soc = 101;
    snap.target_soc = 255;
    assert!(Sanitizer::new().run(&mut snap, Some(&prev)));
    assert_eq!((snap.soc, snap.target_soc), (50, 4));
    let mut snap = settled();
    snap.soc = 101;
    assert!(Sanitizer::new().run(&mut snap, None));
    assert_eq!(snap.soc, 100);
    let mut snap = settled();
    snap.target_soc = 255;
    assert!(Sanitizer::new().run(&mut snap, None));
    assert_eq!(snap.target_soc, 100);
    let mut snap = settled();
    snap.soc = 100;
    snap.target_soc = 100;
    assert!(!Sanitizer::new().run(&mut snap, Some(&prev)));
    assert_eq!((snap.soc, snap.target_soc), (100, 100));
}

#[test]
fn saturation_is_never_believed_under_any_limit() {
    let mut counts = ConsecutiveSuspectCounts::default();
    assert_eq!(check_power_field(33_000, Some(5), 40_000, "grid_power", &mut counts), (5, true));
    assert_eq!(check_power_field(-32_000, None, 40_000, "grid_power", &mut counts), (-40_000, true));
    assert_eq!(check_power_field(31_999, Some(5), 40_000, "grid_power", &mut counts), (31_999, false));
}

#[test]
fn counts_end_with_a_reading_that_passes() {
    let rules = FieldRateRules { rate_fraction: q(0.5), abs_delta_w: 2_000 };
    let mut rates = RateReleaseCounts::default();
    assert_eq!(check_power_rate(9_000, Some(3_000), 3, &rules, "home_power", &mut rates), (3_000, true));
    assert_eq!(check_power_rate(9_000, None, 3, &rules, "home_power", &mut rates), (9_000, false));
    assert!(!rates.0.contains_key("home_power"));

    let mut sanitizer = Sanitizer::new();
    let mut prev = settled();
    prev.today_solar_kwh = q(20.0);
    let mut snap = prev.clone();
    snap.today_solar_kwh = q(10.0);
    assert!(sanitizer.run(&mut snap, Some(&prev)));
    assert_eq!(sanitizer.deltas.0.get("today_solar_kwh"), Some(1));
    prev.today_solar_kwh = q(0.5);
    let mut snap = prev.clone();
    snap.today_solar_kwh = q(10.0);
    assert!(!sanitizer.run(&mut snap, Some(&prev)));
    assert_eq!(sanitizer.deltas.0.get("today_solar_kwh"), None);

    let prev = settled();
    let mut snap = settled();
    snap.battery_mode = BatteryMode::TimedExport;
    assert!(sanitizer.run(&mut snap, Some(&prev)));
    assert_eq!(sanitizer.pending, Some(BatteryMode::TimedExport));
    assert!(!sanitizer.run(&mut settled(), None));
    assert_eq!(sanitizer.pending, None);
}

#[test]
fn clamped_rates_are_reported() {
    let mut snap = settled();
    snap.charge_rate = 150;
    assert!(Sanitizer::new().run(&mut snap, None));
    assert_eq!(snap.charge_rate, 100);
    let mut snap = settled();
    snap.discharge_rate = 101;
    assert!(Sanitizer::new().run(&mut snap, None));
    assert_eq!(snap.discharge_rate, 100);
    let mut snap = settled();
    snap.active_power_rate = 255;
    assert!(Sanitizer::new().run(&mut snap, Some(&settled())));
    assert_eq!(snap.active_power_rate, 100);
    let mut snap = settled();
    snap.charge_rate = 100;
    snap.discharge_rate = 100;
    snap.active_power_rate = 100;
    assert!(!Sanitizer::new().run(&mut snap, None));
}

#[test]
fn increase_within_budget_is_used_and_beyond_it_held() {
    for &(prev_kwh, secs) in &[(1.0, 1), (7.3, 60), (49.9, 3_599)] {
        let budget = secs as f64 / 3600.0 * 10.0 + 1.0;
        let mut prev = settled();
        prev.today_solar_kwh = q(prev_kwh);
        let mut snap = prev.clone();
        snap.timestamp += secs;
        snap.today_solar_kwh = q(prev_kwh + budget * 0.9);
        let read = snap.today_solar_kwh;
        assert!(!Sanitizer::new().run(&mut snap, Some(&prev)));
        assert_eq!(snap.today_solar_kwh, read);
        snap.today_solar_kwh = q(prev_kwh + budget + 0.01);
        assert!(Sanitizer::new().run(&mut snap, Some(&prev)));
        assert_eq!(snap.today_solar_kwh, q(prev_kwh));
    }
}

#[test]
fn noise_boundary_is_exact() {
    let mut prev = settled();
    prev.today_solar_kwh = q(20.0);
    prev.today_consumption_kwh = q(20.0);
    for &(nano, flagged) in &[(1i64, false), (250_000_000, false), (250_000_001, true)] {
        let mut snap = prev.clone();
        snap.today_solar_kwh = Quantity::Nano(20_000_000_000 - nano);
        assert_eq!(Sanitizer::new().run(&mut snap, Some(&prev)), flagged);
        assert_eq!(snap.today_solar_kwh, q(20.0));
    }
    for &(nano, flagged) in &[(500_000_000i64, false), (500_000_001, true)] {
        let mut snap = prev.clone();
        snap.today_consumption_kwh = Quantity::Nano(20_000_000_000 - nano);
        assert_eq!(Sanitizer::new().run(&mut snap, Some(&prev)), flagged);
        assert_eq!(snap.today_consumption_kwh, q(20.0));
    }
}

#[test]
fn near_zero_baseline_accepts_any_plausible_reading() {
    for &(prev_kwh, raw) in &[(0.0, 199.0), (0.99, 0.0), (0.5, 42.0)] {
        let mut prev = settled();
        prev.today_import_kwh = q(prev_kwh);
        let mut snap = prev.clone();
        snap.today_import_kwh = q(raw);
        assert!(!Sanitizer::new().run(&mut snap, Some(&prev)));
        assert_eq!(snap.today_import_kwh, q(raw));
    }
}

#[test]
fn lifetime_counter_does_not_reset_at_midnight() {
    let mut prev = settled();
    prev.total_import_kwh = q(900.0);
    prev.today_import_kwh = q(9.0);
    let mut snap = prev.clone();
    snap.inverter_time = "2024-06-16 00:01:00".to_string();
    snap.total_import_kwh = q(0.0);
    snap.today_import_kwh = q(0.0);
    assert!(Sanitizer::new().run(&mut snap, Some(&prev)));
    assert_eq!(snap.total_import_kwh, q(900.0));
    assert_eq!(snap.today_import_kwh, q(0.0));
}

#[test]
fn caller_can_decide_the_reset_window() {
    let mut prev = settled();
    prev.today_import_kwh = q(9.0);
    for &within in &[true, false] {
        let mut snap = prev.clone();
        snap.today_import_kwh = q(0.0);
        let mut s = Sanitizer::new();
        let flagged = sanitize_snapshot_within(
            &mut snap,
            Some(&prev),
            false,
            &mut s.pending,
            &mut s.deltas,
            &mut s.suspects,
            &mut s.rates,
            within,
        );
        assert_eq!(flagged, !within);
        assert_eq!(snap.today_import_kwh, if within { q(0.0) } else { q(9.0) });
    }
}

#[test]
fn missing_counter_is_kept_as_missing() {
    let mut prev = settled();
    prev.today_pv1_kwh = q(5.0);
    let mut snap = prev.clone();
    snap.today_pv1_kwh = q(f64::NAN);
    assert!(!Sanitizer::new().run(&mut snap, Some(&prev)));
    assert!(snap.today_pv1_kwh.is_nan());
}

#[test]
fn mode_change_needs_two_readings() {
    let prev = settled();
    let mut sanitizer = Sanitizer::new();
    let mut read = |mode: BatteryMode| {
        let mut snap = settled();
        snap.battery_mode = mode;
        let flagged = sanitizer.run(&mut snap, Some(&prev));
        (snap.battery_mode, flagged)
    };
    assert_eq!(read(BatteryMode::EcoPaused), (BatteryMode::Eco, true));
    assert_eq!(read(BatteryMode::EcoPaused), (BatteryMode::EcoPaused, false));
    assert_eq!(read(BatteryMode::TimedExport), (BatteryMode::Eco, true));
    assert_eq!(read(BatteryMode::EcoPaused), (BatteryMode::Eco, true));
    assert_eq!(read(BatteryMode::TimedExport), (BatteryMode::Eco, true), "not in a row");
    assert_eq!(read(BatteryMode::TimedExport), (BatteryMode::TimedExport, false));
    assert_eq!(read(BatteryMode::EcoPaused), (BatteryMode::Eco, true));
    assert_eq!(read(BatteryMode::Eco), (BatteryMode::Eco, false));
    assert_eq!(read(BatteryMode::TimedExport), (BatteryMode::Eco, true));
}

#[test]
fn outage_readings_are_not_carried_forward() {
    let prev = settled();
    let mut snap = settled();
    snap.grid_online = false;
    snap.grid_voltage = q(-3.0);
    snap.grid_frequency = q(f64::NAN);
    assert!(Sanitizer::new().run(&mut snap, Some(&prev)));
    assert_eq!(snap.grid_voltage, q(0.0));
    assert_eq!(snap.grid_frequency, q(0.0));
    let mut snap = settled();
    snap.grid_online = false;
    snap.grid_voltage = q(0.0);
    snap.grid_frequency = q(12.0);
    assert!(!Sanitizer::new().run(&mut snap, Some(&prev)));
    assert_eq!(snap.grid_frequency, q(12.0));
    snap.grid_frequency = q(f64::NAN);
    assert!(Sanitizer::new().run(&mut snap, None));
}

#[test]
fn grid_readings_fall_back_to_nominal() {
    let mut snap = settled();
    snap.grid_voltage = q(179.9);
    snap.grid_frequency = q(55.1);
    assert!(Sanitizer::new().run(&mut snap, None));
    assert_eq!(snap.grid_voltage, q(230.0));
    assert_eq!(snap.grid_frequency, q(50.0));
    let mut snap = settled();
    snap.device_type = DeviceType::ThreePhase;
    snap.battery_voltage = q(600.0);
    snap.grid_voltage = q(415.0);
    assert!(!Sanitizer::new().run(&mut snap, None));
    snap.battery_voltage = q(600.1);
    assert!(Sanitizer::new().run(&mut snap, None));
    assert_eq!(snap.battery_voltage, q(0.0));
}

#[test]
fn module_voltage_falls_back_to_its_position() {
    let module = |index, volts| BatteryModule { index, voltage: q(volts), ..Default::default() };
    let mut prev = settled();
    prev.battery_modules = vec![module(0, 51.0), module(1, 52.0)];
    let mut snap = settled();
    snap.battery_modules = vec![module(1, 30_000.0), module(5, -1.0), module(0, 500.0)];
    assert!(Sanitizer::new().run(&mut snap, Some(&prev)));
    assert_eq!(snap.battery_modules[0].voltage, q(52.0));
    assert_eq!(snap.battery_modules[1].voltage, q(0.0));
    assert_eq!(snap.battery_modules[2].voltage, q(500.0));
}

#[test]
fn reserve_is_cut_to_what_the_register_holds() {
    for &(reserve, expected) in &[(0u8, 4u8), (3, 4), (4, 4), (100, 100), (101, 100)] {
        let mut snap = settled();
        snap.battery_reserve = reserve;
        assert_eq!(Sanitizer::new().run(&mut snap, None), reserve != expected);
        assert_eq!(snap.battery_reserve, expected);
    }
    let mut prev = settled();
    prev.battery_reserve = 25;
    let mut snap = settled();
    snap.battery_reserve = 200;
    assert!(Sanitizer::new().run(&mut snap, Some(&prev)));
    assert_eq!(snap.battery_reserve, 25);
}

#[test]
fn ac_limits_are_carried_over_a_zero() {
    let mut prev = settled();
    prev.device_type = DeviceType::ACCoupled;
    prev.charge_rate = 80;
    prev.discharge_rate = 0;
    let mut snap = prev.clone();
    snap.device_type = DeviceType::ACCoupledMk2;
    snap.charge_rate = 0;
    assert!(Sanitizer::new().run(&mut snap, Some(&prev)));
    assert_eq!((snap.charge_rate, snap.discharge_rate), (80, 0));
    snap.device_type = DeviceType::Gen3Hybrid;
    snap.charge_rate = 0;
    assert!(!Sanitizer::new().run(&mut snap, Some(&prev)));
    assert_eq!(snap.charge_rate, 0);
}

#[test]
fn flipped_enables_are_reported_and_kept() {
    let prev = settled();
    let mut snap = settled();
    snap.enable_charge = true;
    assert!(Sanitizer::new().run(&mut snap, Some(&prev)));
    assert!(snap.enable_charge);
    let mut snap = settled();
    snap.enable_discharge = true;
    assert!(Sanitizer::new().run(&mut snap, Some(&prev)));
    assert!(snap.enable_discharge);
}

#[test]
fn slot_minutes_wrap_past_midnight() {
    let slot = |start: (u8, u8), end: (u8, u8)| ScheduleSlot {
        enabled: true,
        start_hour: start.0,
        start_minute: start.1,
        end_hour: end.0,
        end_minute: end.1,
        target_soc: 4,
    };
    assert_eq!(slot_start_minutes(&slot((1, 5), (2, 0))), 65);
    assert_eq!(slot_duration_minutes(&slot((1, 5), (2, 0))), 55);
    assert_eq!(slot_duration_minutes(&slot((23, 30), (5, 30))), 360);
    assert_eq!(slot_duration_minutes(&slot((5, 0), (5, 0))), 0);
}

#[test]
fn fingerprint_counts_are_exceeded_not_met() {
    let mut data = [0u16; 60];
    for register in data.iter_mut().take(10) {
        *register = 0xE000;
    }
    assert!(!is_block_suspicious(&data), "ten high registers");
    data[10] = 0xDFFF;
    assert!(!is_block_suspicious(&data), "an eleventh just below the range");
    data[10] = 0xE000;
    assert!(is_block_suspicious(&data), "eleven high registers");

    let mut data = [0u16; 60];
    data[28] = 0x4C32;
    data[31] = 0x34EA;
    data[35] = 0x4500;
    data[40] = 0xB619;
    data[50] = 0x503C;
    assert!(!is_block_suspicious(&data), "five leaked values");
    data[52] = 0x43E0;
    assert!(is_block_suspicious(&data), "six leaked values");
}

fn bms(millivolts: u32, capacity: u32) -> Vec<u16> {
    let mut data = vec![0u16; 60];
    data[22] = (millivolts >> 16) as u16;
    data[23] = millivolts as u16;
    data[24] = (capacity >> 16) as u16;
    data[25] = capacity as u16;
    data
}

#[test]
fn battery_registers_are_validated() {
    let serial = "BG2134G005";
    assert!(validate_battery_bms(&bms(51_200, 5_000), serial));
    assert!(validate_battery_bms(&bms(30_000, 1), serial));
    assert!(!validate_battery_bms(&bms(29_999, 1), serial));
    assert!(validate_battery_bms(&bms(65_000, 1), serial));
    assert!(!validate_battery_bms(&bms(65_001, 1), serial));
    assert!(!validate_battery_bms(&bms(51_200, 0), serial));
    assert!(validate_battery_bms(&bms(51_200, 0x1_0000), serial));
    assert!(!validate_battery_bms(&[], serial));
    assert!(validate_battery_bms(&bms(51_200, 5_000), " \tBG 1 "));
    assert!(!validate_battery_bms(&bms(51_200, 5_000), "  BG1 "));
    assert!(!validate_battery_bms(&bms(51_200, 5_000), "          "));
    assert!(!validate_battery_bms(&bms(51_200, 5_000), ""));
    assert!(!validate_battery_bms(&bms(51_200, 5_000), "BG\u{1}34G005"));
    assert!(!validate_battery_bms(&bms(51_200, 5_000), "BGé34G005"));
}

fn modules(indices: &[usize], temperature: f64) -> Vec<BatteryModule> {
    indices
        .iter()
        .map(|&index| BatteryModule { index, temperature: q(temperature), ..Default::default() })
        .collect()
}

fn carried(read: &[usize], prev: Option<&[usize]>) -> Vec<(usize, Quantity)> {
    let mut snap = InverterSnapshot { battery_modules: modules(read, 20.0), ..Default::default() };
    let before = prev.map(|p| modules(p, 10.0));
    carry_forward_battery_modules_with(&mut snap, before.as_deref());
    snap.battery_modules.iter().map(|m| (m.index, m.temperature)).collect()
}

#[test]
fn missing_modules_are_filled_in_by_position() {
    let fresh = |i| (i, q(20.0));
    let stale = |i| (i, q(10.0));
    assert_eq!(carried(&[], Some(&[1, 0])), vec![stale(1), stale(0)]);
    assert_eq!(carried(&[2, 0], Some(&[0, 1, 2, 3])), vec![fresh(0), stale(1), fresh(2), stale(3)]);
    assert_eq!(carried(&[2, 0], Some(&[0, 1, 2])), vec![fresh(0), stale(1), fresh(2)]);
    assert_eq!(carried(&[2, 0], Some(&[0, 2])), vec![fresh(2), fresh(0)]);
    assert_eq!(carried(&[1, 2], Some(&[0])), vec![stale(0), fresh(1), fresh(2)]);
    assert_eq!(carried(&[1], None), vec![fresh(1)]);
    assert_eq!(carried(&[1], Some(&[])), vec![fresh(1)]);
}

#[test]
fn export_limit_of_a_plant_is_carried_forward() {
    let prev = InverterSnapshot {
        device_type: DeviceType::Gateway,
        export_limit_w: 3_600,
        ..Default::default()
    };
    let mut snap = InverterSnapshot { device_type: DeviceType::Gateway, ..Default::default() };
    assert!(!carry_forward_optional_block_values(&mut snap, Some(&prev), true, true, true, true));
    assert!(carry_forward_optional_block_values(&mut snap, Some(&prev), true, true, true, false));
    assert_eq!(snap.export_limit_w, 3_600);
    assert!(!carry_forward_optional_block_values(&mut snap, Some(&prev), true, true, true, false));
}

#[test]
fn median_of_two_is_the_upper_one() {
    let sample = |kwh| GraceCumulativeSamples {
        total_solar_kwh: Some(q(kwh)),
        ..Default::default()
    };
    assert_eq!(
        GraceCumulativeSamples::median(&[sample(2.0), sample(1.0)]).total_solar_kwh,
        Some(q(2.0))
    );
    assert_eq!(GraceCumulativeSamples::median(&[sample(1.5)]).total_solar_kwh, Some(q(1.5)));
    assert_eq!(GraceCumulativeSamples::median(&[sample(1.5)]).total_import_kwh, None);
}

#[test]
fn inverter_clock_is_a_real_date() {
    assert_eq!(inverter_minute_of_day("2026-07-01 01:05:59"), Some(65));
    assert_eq!(inverter_minute_of_day("2026-02-30 01:05:00"), None);
    assert_eq!(inverter_minute_of_day("2026-07-01 24:00:00"), None);
    assert_eq!(inverter_minute_of_day("2026-07-01"), None);
    assert_eq!(inverter_minute_of_day(""), None);
}

#[test]
fn reset_window_follows_the_first_clock_there_is() {
    assert!(reset_window_open(Some(65), Some(700)));
    assert!(!reset_window_open(Some(66), Some(0)));
    assert!(reset_window_open(None, Some(1375)));
    assert!(!reset_window_open(None, Some(1374)));
    assert!(!reset_window_open(None, None));
    assert!(!is_within_daily_reset_window(i64::MAX, ""));
    assert!(!is_within_daily_reset_window(8_210_266_876_800, ""));
    assert!(!is_within_daily_reset_window(-8_334_601_228_801, ""));
    assert!(is_within_daily_reset_window(i64::MAX, "2026-07-01 00:00:00"));
}
