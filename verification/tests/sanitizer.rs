use chrono::TimeZone;
use home_energy_manager::model::{
    BatteryMode, BatteryModule, BatteryRatings, DeviceType, HvBcuCluster, InverterSnapshot,
};
use home_energy_manager::quantity::Quantity;
use home_energy_manager::sanitizer::balance::{cross_validate_power_balance, PowerFieldState};
use home_energy_manager::sanitizer::bms::derive_battery_fields_from_bms;
use home_energy_manager::sanitizer::carry_forward::carry_forward_optional_block_values;
use home_energy_manager::sanitizer::clock::is_within_daily_reset_window;
use home_energy_manager::sanitizer::energy::{
    DeltaCorrectionCounts, DELTA_CORRECTION_RELEASE_THRESHOLD,
};
use home_energy_manager::sanitizer::fingerprint::is_block_suspicious;
use home_energy_manager::sanitizer::grace::GraceCumulativeSamples;
use home_energy_manager::sanitizer::power::{
    check_power_field, check_power_rate, ConsecutiveSuspectCounts, FieldRateRules,
    RateReleaseCounts, SUSPECT_RELEASE_THRESHOLD,
};
use home_energy_manager::sanitizer::snapshot::sanitize_snapshot;

fn q(value: f64) -> Quantity {
    if value.is_nan() {
        Quantity::Nan
    } else {
        Quantity::Nano((value * 1e9).round() as i64)
    }
}

fn close(actual: Quantity, expected: f64) -> bool {
    match actual {
        Quantity::Nan => false,
        Quantity::Nano(n) => (n as f64 / 1e9 - expected).abs() < 0.001,
    }
}

/// Ratings of the three-phase hybrid.
fn ratings() -> BatteryRatings {
    BatteryRatings { nominal_voltage: q(76.8), max_power_w: 6000 }
}

fn local_timestamp(hour: u32, minute: u32) -> i64 {
    let date = chrono::Local::now().date_naive();
    let naive = date.and_hms_opt(hour, minute, 0).unwrap();
    chrono::Local
        .from_local_datetime(&naive)
        .earliest()
        .unwrap()
        .timestamp()
}

#[test]
fn derive_battery_fields_from_bms_overrides_single_phase_temp() {
    let mut snap = InverterSnapshot {
        device_type: DeviceType::Gen3Hybrid,
        battery_temperature: q(31.5),
        battery_capacity_kwh: q(5.12),
        max_battery_power_w: 3600,
        ..Default::default()
    };
    snap.battery_modules = vec![
        BatteryModule {
            index: 0,
            temperature: q(28.0),
            ..Default::default()
        },
        BatteryModule {
            index: 1,
            temperature: q(30.0),
            ..Default::default()
        },
    ];
    derive_battery_fields_from_bms(&mut snap, None, &ratings());
    assert!(close(snap.battery_temperature, 29.0));
    assert_eq!(snap.battery_capacity_kwh, q(5.12));
    assert_eq!(snap.max_battery_power_w, 3600);
}

#[test]
fn derive_battery_fields_from_bms_three_phase_from_modules() {
    let mut snap = InverterSnapshot {
        device_type: DeviceType::ThreePhase,
        battery_temperature: q(999.0),
        battery_capacity_kwh: q(0.0),
        max_battery_power_w: 0,
        battery_modules: vec![
            BatteryModule {
                index: 0,
                capacity_ah: q(100.0),
                temperature: q(28.0),
                ..Default::default()
            },
            BatteryModule {
                index: 1,
                capacity_ah: q(200.0),
                temperature: q(31.5),
                ..Default::default()
            },
        ],
        ..Default::default()
    };
    derive_battery_fields_from_bms(&mut snap, None, &ratings());
    assert!(close(snap.battery_capacity_kwh, 23.04));
    assert!(close(snap.battery_temperature, 29.75));
    assert_eq!(snap.max_battery_power_w, 6000);
}

#[test]
fn derive_battery_fields_from_bms_capacity_caps_max_power() {
    let mut snap = InverterSnapshot {
        device_type: DeviceType::ThreePhase,
        battery_modules: vec![BatteryModule {
            index: 0,
            capacity_ah: q(50.0),
            temperature: q(25.0),
            ..Default::default()
        }],
        ..Default::default()
    };
    derive_battery_fields_from_bms(&mut snap, None, &ratings());
    assert!(close(snap.battery_capacity_kwh, 3.84));
    assert!(close(snap.battery_temperature, 25.0));
    assert_eq!(snap.max_battery_power_w, 1920);
}

#[test]
fn derive_battery_fields_from_bms_clears_garbage_when_no_bms() {
    let mut snap = InverterSnapshot {
        device_type: DeviceType::ThreePhase,
        battery_temperature: q(999.0),
        battery_capacity_kwh: q(999.0),
        max_battery_power_w: 0,
        battery_modules: vec![],
        ..Default::default()
    };
    derive_battery_fields_from_bms(&mut snap, None, &ratings());
    assert!(
        snap.battery_temperature.is_nan(),
        "missing BMS data should produce NaN, not 0.0"
    );
    assert_eq!(snap.battery_capacity_kwh, q(0.0));
    assert_eq!(snap.max_battery_power_w, 6000);
}

#[test]
fn derive_battery_fields_from_bms_from_hv_cluster_with_modules() {
    let cluster = HvBcuCluster {
        pack_software_version: "GA000005".to_string(),
        number_of_modules: 5,
        cells_per_module: 24,
        cluster_cell_voltage: q(3.2),
        status: 0x01,
        battery_voltage: q(384.0),
        battery_current: q(-12.5),
        battery_power_w: -4800,
        battery_soc_max: 87,
        battery_soc_min: 85,
        battery_soh: 99,
        temperature: q(6.0),
        nominal_capacity_ah: q(51.0),
        remaining_capacity_ah: q(44.0),
    };
    let mut snap = InverterSnapshot {
        device_type: DeviceType::ThreePhase,
        battery_voltage: q(0.0),
        battery_current: q(0.0),
        soc: 0,
        battery_temperature: q(999.0),
        battery_capacity_kwh: q(999.0),
        max_battery_power_w: 0,
        battery_modules: vec![
            BatteryModule {
                index: 0,
                temperature: q(18.5),
                ..Default::default()
            },
            BatteryModule {
                index: 1,
                temperature: q(19.0),
                ..Default::default()
            },
            BatteryModule {
                index: 2,
                temperature: q(18.8),
                ..Default::default()
            },
            BatteryModule {
                index: 3,
                temperature: q(19.2),
                ..Default::default()
            },
            BatteryModule {
                index: 4,
                temperature: q(18.6),
                ..Default::default()
            },
        ],
        ..Default::default()
    };
    derive_battery_fields_from_bms(&mut snap, Some(&cluster), &ratings());
    assert!(close(snap.battery_capacity_kwh, 19.584));
    assert!(close(snap.battery_temperature, 18.82));
    assert!(close(snap.battery_voltage, 384.0));
    assert!(close(snap.battery_current, -12.5));
    assert_eq!(snap.soc, 87);
    assert_eq!(snap.max_battery_power_w, 6000);
}

#[test]
fn derive_battery_fields_from_bms_hv_cluster_no_modules() {
    let cluster = HvBcuCluster {
        pack_software_version: "GA000005".to_string(),
        number_of_modules: 5,
        cells_per_module: 24,
        cluster_cell_voltage: q(3.2),
        status: 0x01,
        battery_voltage: q(384.0),
        battery_current: q(-12.5),
        battery_power_w: -4800,
        battery_soc_max: 87,
        battery_soc_min: 85,
        battery_soh: 99,
        temperature: q(6.0),
        nominal_capacity_ah: q(51.0),
        remaining_capacity_ah: q(44.0),
    };
    let mut snap = InverterSnapshot {
        device_type: DeviceType::ThreePhase,
        battery_temperature: q(999.0),
        battery_capacity_kwh: q(999.0),
        battery_voltage: q(0.0),
        battery_current: q(0.0),
        soc: 0,
        max_battery_power_w: 0,
        battery_modules: vec![],
        ..Default::default()
    };
    derive_battery_fields_from_bms(&mut snap, Some(&cluster), &ratings());
    assert!(
        snap.battery_temperature.is_nan(),
        "expected NaN when no modules available, got {:?}",
        snap.battery_temperature
    );
    assert!(close(snap.battery_capacity_kwh, 19.584));
    assert!(close(snap.battery_voltage, 384.0));
    assert_eq!(snap.soc, 87);
    assert_eq!(snap.max_battery_power_w, 6000);
}

#[test]
fn hv_cluster_total_capacity_multiplies_by_module_count() {
    let cluster = HvBcuCluster {
        nominal_capacity_ah: q(51.0),
        remaining_capacity_ah: q(44.0),
        number_of_modules: 5,
        ..Default::default()
    };
    assert!(close(cluster.total_capacity_ah(), 255.0));
    assert!(close(cluster.total_remaining_ah(), 220.0));
}

#[test]
fn grace_median_rejects_single_spike_in_consumption() {
    let mk = |consumption: f64| GraceCumulativeSamples {
        today_consumption_kwh: Some(q(consumption)),
        ..Default::default()
    };
    let samples = [mk(43.4), mk(44.5), mk(43.5)];
    let median = GraceCumulativeSamples::median(&samples);
    assert_eq!(median.today_consumption_kwh, Some(q(43.5)));

    let samples = [mk(44.5), mk(10.0), mk(44.6)];
    let median = GraceCumulativeSamples::median(&samples);
    assert_eq!(median.today_consumption_kwh, Some(q(44.5)));
}

#[test]
fn grace_median_handles_all_cumulative_fields_independently() {
    let mk = |consumption: f64, import: f64, total_import: f64| GraceCumulativeSamples {
        today_consumption_kwh: Some(q(consumption)),
        today_import_kwh: Some(q(import)),
        total_import_kwh: Some(q(total_import)),
        ..Default::default()
    };
    let samples = [
        mk(43.4, 5.0, 1000.0),
        mk(44.5, 50.0, 1000.0),
        mk(43.5, 5.1, 1000.1),
    ];
    let median = GraceCumulativeSamples::median(&samples);
    assert_eq!(median.today_consumption_kwh, Some(q(43.5)));
    assert_eq!(median.today_import_kwh, Some(q(5.1)));
    assert_eq!(median.total_import_kwh, Some(q(1000.0)));
}

#[test]
fn grace_median_apply_writes_all_fields_back() {
    let median = GraceCumulativeSamples {
        today_consumption_kwh: Some(q(43.5)),
        total_import_kwh: Some(q(1000.0)),
        ..Default::default()
    };
    let mut snap = InverterSnapshot {
        today_consumption_kwh: q(44.5),
        total_import_kwh: q(0.0),
        ..Default::default()
    };
    median.apply_to(&mut snap);
    assert_eq!(snap.today_consumption_kwh, q(43.5));
    assert_eq!(snap.total_import_kwh, q(1000.0));
}

#[test]
fn grace_median_filters_nan_and_uses_remaining_samples() {
    let mk = |solar: f64| GraceCumulativeSamples {
        today_solar_kwh: Some(q(solar)),
        ..Default::default()
    };
    let samples = [mk(f64::NAN), mk(5.0), mk(5.0)];
    let median = GraceCumulativeSamples::median(&samples);
    assert_eq!(median.today_solar_kwh, Some(q(5.0)));

    let samples = [mk(f64::NAN), mk(f64::NAN), mk(7.3)];
    let median = GraceCumulativeSamples::median(&samples);
    assert_eq!(median.today_solar_kwh, Some(q(7.3)));
}

#[test]
fn grace_median_all_nan_yields_none_and_keeps_last_reading() {
    let mk = |consumption: f64| GraceCumulativeSamples {
        today_consumption_kwh: Some(q(consumption)),
        ..Default::default()
    };
    let samples = [mk(f64::NAN), mk(f64::NAN), mk(f64::NAN)];
    let median = GraceCumulativeSamples::median(&samples);
    assert!(median.today_consumption_kwh.is_none());

    let mut snap = InverterSnapshot {
        today_consumption_kwh: q(43.5),
        ..Default::default()
    };
    median.apply_to(&mut snap);
    assert_eq!(
        snap.today_consumption_kwh, q(43.5),
        "all-NaN field must keep the snapshot's last reading"
    );
    assert!(
        !snap.today_consumption_kwh.is_nan(),
        "NaN must never overwrite a snapshot field"
    );
}

#[test]
fn grace_median_skips_nan_per_field_independently() {
    let mk = |solar: f64, import: f64| GraceCumulativeSamples {
        today_solar_kwh: Some(q(solar)),
        today_import_kwh: Some(q(import)),
        ..Default::default()
    };
    let samples = [mk(f64::NAN, 5.0), mk(f64::NAN, 50.0), mk(f64::NAN, 5.1)];
    let median = GraceCumulativeSamples::median(&samples);
    assert!(median.today_solar_kwh.is_none());
    assert_eq!(median.today_import_kwh, Some(q(5.1)));

    let mut snap = InverterSnapshot {
        today_solar_kwh: q(12.0),
        today_import_kwh: q(0.0),
        ..Default::default()
    };
    median.apply_to(&mut snap);
    assert_eq!(
        snap.today_solar_kwh, q(12.0),
        "all-NaN field keeps last reading"
    );
    assert_eq!(snap.today_import_kwh, q(5.1), "normal field gets its median");
}

#[test]
fn check_power_field_in_range_value_is_accepted_and_resets_counter() {
    let mut counts = ConsecutiveSuspectCounts::default();
    counts.0.insert("grid_power", 5);
    let (val, sanitized) =
        check_power_field(3000, Some(2900), 15_000, "grid_power", &mut counts);
    assert_eq!(val, 3000);
    assert!(!sanitized);
    assert!(
        !counts.0.contains_key("grid_power"),
        "in-range reading resets the counter"
    );
}

#[test]
fn check_power_field_soft_over_limit_uses_previous_then_releases() {
    let mut counts = ConsecutiveSuspectCounts::default();
    for _ in 1..SUSPECT_RELEASE_THRESHOLD {
        let (val, sanitized) =
            check_power_field(16_000, Some(12_000), 15_000, "grid_power", &mut counts);
        assert_eq!(
            val, 12_000,
            "over-limit value uses previous during suspect window"
        );
        assert!(sanitized);
    }
    let (val, sanitized) =
        check_power_field(16_000, Some(12_000), 15_000, "grid_power", &mut counts);
    assert_eq!(
        val, 16_000,
        "persistent over-limit value is released at threshold"
    );
    assert!(!sanitized);
    assert!(
        !counts.0.contains_key("grid_power"),
        "counter cleared on release"
    );
}

#[test]
fn check_power_field_corruption_ceiling_is_never_released() {
    let mut counts = ConsecutiveSuspectCounts::default();
    for _ in 0..(SUSPECT_RELEASE_THRESHOLD * 3) {
        let (val, sanitized) =
            check_power_field(32_767, Some(12_000), 15_000, "grid_power", &mut counts);
        assert_eq!(
            val, 12_000,
            "32767 corruption must always fall back to previous"
        );
        assert!(sanitized, "32767 must always be flagged as sanitized");
    }
    assert_eq!(
        counts.0.get("grid_power"),
        Some(0),
        "corruption cycles must not count toward the release window"
    );
}

#[test]
fn check_power_field_corruption_with_no_previous_is_clamped_not_accepted() {
    let mut counts = ConsecutiveSuspectCounts::default();
    let (val, sanitized) = check_power_field(32_767, None, 15_000, "grid_power", &mut counts);
    assert_eq!(
        val, 15_000,
        "positive corruption with no previous clamps to +limit"
    );
    assert!(sanitized);

    let (val, sanitized) = check_power_field(-32_768, None, 15_000, "grid_power", &mut counts);
    assert_eq!(
        val, -15_000,
        "negative corruption with no previous clamps to -limit"
    );
    assert!(sanitized);
}

#[test]
fn check_power_field_value_just_below_ceiling_still_releases_normally() {
    let mut counts = ConsecutiveSuspectCounts::default();
    for _ in 1..SUSPECT_RELEASE_THRESHOLD {
        check_power_field(30_000, Some(12_000), 15_000, "grid_power", &mut counts);
    }
    let (val, sanitized) =
        check_power_field(30_000, Some(12_000), 15_000, "grid_power", &mut counts);
    assert_eq!(val, 30_000, "below-ceiling value is released normally");
    assert!(!sanitized);
}

#[test]
fn check_power_field_corruption_then_legit_over_limit_starts_fresh_window() {
    let mut counts = ConsecutiveSuspectCounts::default();
    check_power_field(32_767, Some(12_000), 15_000, "grid_power", &mut counts);
    assert_eq!(counts.0.get("grid_power"), Some(0));
    let (val, sanitized) =
        check_power_field(16_000, Some(12_000), 15_000, "grid_power", &mut counts);
    assert_eq!(val, 12_000, "legit over-limit value not yet released");
    assert!(sanitized);
    assert_eq!(counts.0.get("grid_power"), Some(1));
}

#[test]
fn check_power_rate_spike_from_low_base_is_rejected() {
    let rules = FieldRateRules {
        rate_fraction: q(0.5),
        abs_delta_w: 2_000,
    };
    let (val, sanitized) = check_power_rate(
        7_000,
        Some(2_000),
        3,
        &rules,
        "solar_power",
        &mut RateReleaseCounts::default(),
    );
    assert_eq!(val, 2_000, "rate spike must fall back to previous");
    assert!(sanitized);
}

#[test]
fn check_power_rate_spike_from_high_base_is_rejected() {
    let rules = FieldRateRules {
        rate_fraction: q(0.5),
        abs_delta_w: 2_000,
    };
    let (val, sanitized) = check_power_rate(
        8_000,
        Some(3_000),
        3,
        &rules,
        "battery_power",
        &mut RateReleaseCounts::default(),
    );
    assert_eq!(
        val, 3_000,
        "large rate spike from high base must be rejected"
    );
    assert!(sanitized);
}

#[test]
fn check_power_rate_small_absolute_delta_is_accepted() {
    let rules = FieldRateRules {
        rate_fraction: q(0.5),
        abs_delta_w: 2_000,
    };
    let (val, sanitized) = check_power_rate(
        500,
        Some(200),
        3,
        &rules,
        "solar_power",
        &mut RateReleaseCounts::default(),
    );
    assert_eq!(val, 500, "small absolute delta must be accepted");
    assert!(!sanitized);
}

#[test]
fn check_power_rate_large_base_small_fraction_is_accepted() {
    let rules = FieldRateRules {
        rate_fraction: q(0.5),
        abs_delta_w: 2_000,
    };
    let (val, sanitized) = check_power_rate(
        10_000,
        Some(8_000),
        3,
        &rules,
        "home_power",
        &mut RateReleaseCounts::default(),
    );
    assert_eq!(
        val, 10_000,
        "small fractional change from high base must be accepted"
    );
    assert!(!sanitized);
}

#[test]
fn check_power_rate_long_gap_skips_check() {
    let rules = FieldRateRules {
        rate_fraction: q(0.5),
        abs_delta_w: 2_000,
    };
    let (val, sanitized) = check_power_rate(
        8_000,
        Some(2_000),
        120,
        &rules,
        "solar_power",
        &mut RateReleaseCounts::default(),
    );
    assert_eq!(val, 8_000, "long gap must skip rate check");
    assert!(!sanitized);
}

#[test]
fn check_power_rate_no_previous_accepts_raw() {
    let rules = FieldRateRules {
        rate_fraction: q(0.5),
        abs_delta_w: 2_000,
    };
    let (val, sanitized) = check_power_rate(
        5_000,
        None,
        3,
        &rules,
        "battery_power",
        &mut RateReleaseCounts::default(),
    );
    assert_eq!(val, 5_000, "first reading has no prev, must accept raw");
    assert!(!sanitized);
}

#[test]
fn check_power_rate_negative_to_positive_spike_is_rejected() {
    let rules = FieldRateRules {
        rate_fraction: q(0.5),
        abs_delta_w: 2_000,
    };
    let (val, sanitized) = check_power_rate(
        4_000,
        Some(-2_000),
        3,
        &rules,
        "battery_power",
        &mut RateReleaseCounts::default(),
    );
    assert_eq!(val, -2_000, "sign-flip spike must fall back to previous");
    assert!(sanitized);
}

#[test]
fn check_power_rate_exactly_at_fraction_threshold_is_accepted() {
    let rules = FieldRateRules {
        rate_fraction: q(0.5),
        abs_delta_w: 2_000,
    };
    let (val, sanitized) = check_power_rate(
        6_000,
        Some(4_000),
        3,
        &rules,
        "grid_power",
        &mut RateReleaseCounts::default(),
    );
    assert_eq!(
        val, 6_000,
        "exactly at threshold must be accepted (strict >)"
    );
    assert!(!sanitized);
}

#[test]
fn check_power_rate_negative_prev_uses_abs_for_denominator() {
    let rules = FieldRateRules {
        rate_fraction: q(0.5),
        abs_delta_w: 2_000,
    };
    let (val, sanitized) = check_power_rate(
        -7_000,
        Some(-4_000),
        3,
        &rules,
        "battery_power",
        &mut RateReleaseCounts::default(),
    );
    assert_eq!(
        val, -4_000,
        "rate spike on negative values must be rejected"
    );
    assert!(sanitized);
}

#[test]
fn check_power_rate_low_base_skips_fraction_check() {
    let rules = FieldRateRules {
        rate_fraction: q(0.5),
        abs_delta_w: 2_000,
    };
    let (val, sanitized) = check_power_rate(
        3_089,
        Some(0),
        23,
        &rules,
        "battery_power",
        &mut RateReleaseCounts::default(),
    );
    assert_eq!(
        val, 3_089,
        "battery wakeup from 0 W must be accepted (low base skips fraction)"
    );
    assert!(!sanitized);
    let (val, sanitized) = check_power_rate(
        -3_000,
        Some(-200),
        23,
        &rules,
        "grid_power",
        &mut RateReleaseCounts::default(),
    );
    assert_eq!(
        val, -3_000,
        "low-magnitude grid transitions must be accepted"
    );
    assert!(!sanitized);
    let (val, sanitized) = check_power_rate(
        2_500,
        Some(0),
        23,
        &rules,
        "solar_power",
        &mut RateReleaseCounts::default(),
    );
    assert_eq!(val, 2_500, "sunrise onset from 0 W must be accepted");
    assert!(!sanitized);
}

#[test]
fn check_power_rate_low_base_still_rejects_above_abs_delta_via_field_limit() {
    let rules = FieldRateRules {
        rate_fraction: q(0.5),
        abs_delta_w: 2_000,
    };
    let (val, sanitized) = check_power_rate(
        5_000,
        Some(0),
        23,
        &rules,
        "battery_power",
        &mut RateReleaseCounts::default(),
    );
    assert_eq!(val, 5_000, "check_power_rate accepts up to abs_delta_w");
    assert!(!sanitized);
}

#[test]
fn check_power_rate_exactly_at_low_base_threshold_applies_fraction() {
    let rules = FieldRateRules {
        rate_fraction: q(0.5),
        abs_delta_w: 2_000,
    };
    let (val, sanitized) = check_power_rate(
        7_000,
        Some(2_000),
        3,
        &rules,
        "solar_power",
        &mut RateReleaseCounts::default(),
    );
    assert_eq!(val, 2_000, "exact boundary must still apply fraction check");
    assert!(sanitized);
}

#[test]
fn daily_energy_tiny_decrease_is_noise_not_repoll() {
    let prev = InverterSnapshot {
        timestamp: 100,
        battery_mode: BatteryMode::Eco,
        grid_voltage: q(230.0),
        grid_frequency: q(50.0),
        battery_reserve: 4,
        today_consumption_kwh: q(7.6),
        ..Default::default()
    };
    let mut snap = InverterSnapshot {
        timestamp: 104,
        battery_mode: BatteryMode::Eco,
        grid_voltage: q(230.0),
        grid_frequency: q(50.0),
        battery_reserve: 4,
        today_consumption_kwh: q(7.5),
        ..Default::default()
    };
    let mut pending_mode = None;
    let mut delta_corrections = DeltaCorrectionCounts::default();
    let mut suspect_counts = ConsecutiveSuspectCounts::default();

    let mut rate_release_counts = RateReleaseCounts::default();

    let sanitized = sanitize_snapshot(
        &mut snap,
        Some(&prev),
        false,
        &mut pending_mode,
        &mut delta_corrections,
        &mut suspect_counts,
        &mut rate_release_counts,
    );

    assert!(
        !sanitized,
        "noise tolerance must not force immediate re-poll"
    );
    assert_eq!(snap.today_consumption_kwh, prev.today_consumption_kwh);
}

#[test]
fn daily_energy_two_tick_derived_decrease_is_noise_not_repoll() {
    let prev = InverterSnapshot {
        timestamp: 100,
        battery_mode: BatteryMode::Eco,
        grid_voltage: q(230.0),
        grid_frequency: q(50.0),
        battery_reserve: 4,
        today_consumption_kwh: q(1.6),
        ..Default::default()
    };
    let mut snap = InverterSnapshot {
        timestamp: 104,
        battery_mode: BatteryMode::Eco,
        grid_voltage: q(230.0),
        grid_frequency: q(50.0),
        battery_reserve: 4,
        today_consumption_kwh: q(1.4),
        ..Default::default()
    };
    let mut pending_mode = None;
    let mut delta_corrections = DeltaCorrectionCounts::default();
    let mut suspect_counts = ConsecutiveSuspectCounts::default();

    let mut rate_release_counts = RateReleaseCounts::default();

    let sanitized = sanitize_snapshot(
        &mut snap,
        Some(&prev),
        false,
        &mut pending_mode,
        &mut delta_corrections,
        &mut suspect_counts,
        &mut rate_release_counts,
    );

    assert!(
        !sanitized,
        "two-tick derived consumption wobble must not force immediate re-poll"
    );
    assert_eq!(snap.today_consumption_kwh, prev.today_consumption_kwh);
}

#[test]
fn daily_energy_false_zero_outside_midnight_window_is_carried_forward() {
    let prev = InverterSnapshot {
        timestamp: local_timestamp(22, 29),
        battery_mode: BatteryMode::Eco,
        grid_voltage: q(230.0),
        grid_frequency: q(50.0),
        battery_reserve: 4,
        today_pv2_kwh: q(9.5),
        ..Default::default()
    };
    let mut snap = InverterSnapshot {
        timestamp: local_timestamp(22, 30),
        battery_mode: BatteryMode::Eco,
        grid_voltage: q(230.0),
        grid_frequency: q(50.0),
        battery_reserve: 4,
        today_pv2_kwh: q(0.0),
        ..Default::default()
    };
    let mut pending_mode = None;
    let mut delta_corrections = DeltaCorrectionCounts::default();
    let mut suspect_counts = ConsecutiveSuspectCounts::default();
    let mut rate_release_counts = RateReleaseCounts::default();

    let sanitized = sanitize_snapshot(
        &mut snap,
        Some(&prev),
        false,
        &mut pending_mode,
        &mut delta_corrections,
        &mut suspect_counts,
        &mut rate_release_counts,
    );

    assert!(sanitized, "false pre-midnight zero should be rejected");
    assert_eq!(snap.today_pv2_kwh, prev.today_pv2_kwh);
}

#[test]
fn daily_energy_reset_inside_midnight_window_is_accepted() {
    let prev = InverterSnapshot {
        timestamp: local_timestamp(23, 29),
        battery_mode: BatteryMode::Eco,
        grid_voltage: q(230.0),
        grid_frequency: q(50.0),
        battery_reserve: 4,
        today_pv2_kwh: q(9.5),
        ..Default::default()
    };
    let mut snap = InverterSnapshot {
        timestamp: local_timestamp(23, 30),
        battery_mode: BatteryMode::Eco,
        grid_voltage: q(230.0),
        grid_frequency: q(50.0),
        battery_reserve: 4,
        today_pv2_kwh: q(0.0),
        ..Default::default()
    };
    let mut pending_mode = None;
    let mut delta_corrections = DeltaCorrectionCounts::default();
    let mut suspect_counts = ConsecutiveSuspectCounts::default();
    let mut rate_release_counts = RateReleaseCounts::default();

    let sanitized = sanitize_snapshot(
        &mut snap,
        Some(&prev),
        false,
        &mut pending_mode,
        &mut delta_corrections,
        &mut suspect_counts,
        &mut rate_release_counts,
    );

    assert!(!sanitized, "near-midnight reset should pass through");
    assert_eq!(snap.today_pv2_kwh, q(0.0));
}

#[test]
fn daily_energy_reset_uses_inverter_clock_when_host_time_disagrees() {
    let prev = InverterSnapshot {
        timestamp: local_timestamp(1, 59),
        inverter_time: "2026-06-30 23:59:00".to_string(),
        battery_mode: BatteryMode::Eco,
        grid_voltage: q(230.0),
        grid_frequency: q(50.0),
        battery_reserve: 4,
        today_pv2_kwh: q(9.5),
        ..Default::default()
    };
    let mut snap = InverterSnapshot {
        timestamp: local_timestamp(2, 0),
        inverter_time: "2026-07-01 00:00:30".to_string(),
        battery_mode: BatteryMode::Eco,
        grid_voltage: q(230.0),
        grid_frequency: q(50.0),
        battery_reserve: 4,
        today_pv2_kwh: q(0.0),
        ..Default::default()
    };
    let mut pending_mode = None;
    let mut delta_corrections = DeltaCorrectionCounts::default();
    let mut suspect_counts = ConsecutiveSuspectCounts::default();
    let mut rate_release_counts = RateReleaseCounts::default();

    let sanitized = sanitize_snapshot(
        &mut snap,
        Some(&prev),
        false,
        &mut pending_mode,
        &mut delta_corrections,
        &mut suspect_counts,
        &mut rate_release_counts,
    );

    assert!(
        !sanitized,
        "inverter-midnight reset must pass through even when host-local time disagrees"
    );
    assert_eq!(snap.today_pv2_kwh, q(0.0));
}

#[test]
fn daily_energy_reset_window_is_sixty_five_minutes_each_side_of_host_midnight() {
    assert!(is_within_daily_reset_window(local_timestamp(22, 55), ""));
    assert!(!is_within_daily_reset_window(local_timestamp(22, 54), ""));
    assert!(is_within_daily_reset_window(local_timestamp(1, 5), ""));
    assert!(!is_within_daily_reset_window(local_timestamp(1, 6), ""));
    assert!(is_within_daily_reset_window(local_timestamp(23, 58), "garbage"));
    assert!(!is_within_daily_reset_window(local_timestamp(12, 0), "garbage"));
}

#[test]
fn daily_energy_reset_window_prefers_inverter_clock_over_host_time() {
    assert!(is_within_daily_reset_window(local_timestamp(12, 0), "2026-07-01 00:05:00"));
    assert!(is_within_daily_reset_window(local_timestamp(12, 0), "2026-07-01 23:55:00"));
    assert!(!is_within_daily_reset_window(local_timestamp(23, 59), "2026-07-01 12:00:00"));
    assert!(is_within_daily_reset_window(local_timestamp(12, 0), "2026-07-01 01:05:00"));
    assert!(!is_within_daily_reset_window(local_timestamp(12, 0), "2026-07-01 01:06:00"));
    assert!(is_within_daily_reset_window(local_timestamp(12, 0), "2026-07-01 22:55:00"));
    assert!(!is_within_daily_reset_window(local_timestamp(12, 0), "2026-07-01 22:54:00"));
}

#[test]
fn daily_energy_near_zero_baseline_accepts_raw_without_clamping() {
    let prev = InverterSnapshot {
        timestamp: 100,
        battery_mode: BatteryMode::Eco,
        grid_voltage: q(230.0),
        grid_frequency: q(50.0),
        battery_reserve: 4,
        today_import_kwh: q(0.0),
        ..Default::default()
    };
    let mut snap = InverterSnapshot {
        timestamp: 103,
        battery_mode: BatteryMode::Eco,
        grid_voltage: q(230.0),
        grid_frequency: q(50.0),
        battery_reserve: 4,
        today_import_kwh: q(8.7),
        ..Default::default()
    };
    let mut pending_mode = None;
    let mut delta_corrections = DeltaCorrectionCounts::default();
    let mut suspect_counts = ConsecutiveSuspectCounts::default();

    let mut rate_release_counts = RateReleaseCounts::default();

    let sanitized = sanitize_snapshot(
        &mut snap,
        Some(&prev),
        false,
        &mut pending_mode,
        &mut delta_corrections,
        &mut suspect_counts,
        &mut rate_release_counts,
    );

    assert!(
        !sanitized,
        "prev<1.0 must accept raw - no clamping and no delta-counter increment"
    );
    assert_eq!(
        snap.today_import_kwh, q(8.7),
        "raw value must be accepted unchanged"
    );
    assert!(
        !delta_corrections.0.contains_key("today_import_kwh"),
        "no consecutive-correction counter should be accumulated for the first post-grace reading"
    );

    let prev = snap.clone();
    let mut snap = InverterSnapshot {
        timestamp: 106,
        battery_mode: BatteryMode::Eco,
        grid_voltage: q(230.0),
        grid_frequency: q(50.0),
        battery_reserve: 4,
        today_import_kwh: q(8.9),
        ..Default::default()
    };
    let mut pending_mode = None;
    let mut delta_corrections = DeltaCorrectionCounts::default();
    let mut suspect_counts = ConsecutiveSuspectCounts::default();

    let mut rate_release_counts = RateReleaseCounts::default();
    let sanitized = sanitize_snapshot(
        &mut snap,
        Some(&prev),
        false,
        &mut pending_mode,
        &mut delta_corrections,
        &mut suspect_counts,
        &mut rate_release_counts,
    );
    assert!(!sanitized, "normal follow-up increase must not be flagged");
    assert_eq!(snap.today_import_kwh, q(8.9));
}

#[test]
fn daily_energy_material_decrease_is_sanitized() {
    let prev = InverterSnapshot {
        timestamp: 100,
        battery_mode: BatteryMode::Eco,
        grid_voltage: q(230.0),
        grid_frequency: q(50.0),
        battery_reserve: 4,
        today_consumption_kwh: q(7.6),
        ..Default::default()
    };
    let mut snap = InverterSnapshot {
        timestamp: 104,
        battery_mode: BatteryMode::Eco,
        grid_voltage: q(230.0),
        grid_frequency: q(50.0),
        battery_reserve: 4,
        today_consumption_kwh: q(6.5),
        ..Default::default()
    };
    let mut pending_mode = None;
    let mut delta_corrections = DeltaCorrectionCounts::default();
    let mut suspect_counts = ConsecutiveSuspectCounts::default();

    let mut rate_release_counts = RateReleaseCounts::default();

    let sanitized = sanitize_snapshot(
        &mut snap,
        Some(&prev),
        false,
        &mut pending_mode,
        &mut delta_corrections,
        &mut suspect_counts,
        &mut rate_release_counts,
    );

    assert!(sanitized);
    assert_eq!(snap.today_consumption_kwh, prev.today_consumption_kwh);
}

#[test]
fn daily_energy_derived_wobble_within_wider_tolerance_is_not_repoll() {
    let prev = InverterSnapshot {
        timestamp: 100,
        battery_mode: BatteryMode::Eco,
        grid_voltage: q(230.0),
        grid_frequency: q(50.0),
        battery_reserve: 4,
        today_consumption_kwh: q(48.1),
        ..Default::default()
    };
    let mut snap = InverterSnapshot {
        timestamp: 103,
        battery_mode: BatteryMode::Eco,
        grid_voltage: q(230.0),
        grid_frequency: q(50.0),
        battery_reserve: 4,
        today_consumption_kwh: q(47.6),
        ..Default::default()
    };
    let mut pending_mode = None;
    let mut delta_corrections = DeltaCorrectionCounts::default();
    let mut suspect_counts = ConsecutiveSuspectCounts::default();

    let mut rate_release_counts = RateReleaseCounts::default();

    let sanitized = sanitize_snapshot(
        &mut snap,
        Some(&prev),
        false,
        &mut pending_mode,
        &mut delta_corrections,
        &mut suspect_counts,
        &mut rate_release_counts,
    );

    assert!(
        !sanitized,
        "0.5 kWh derived wobble must not force immediate re-poll"
    );
    assert_eq!(snap.today_consumption_kwh, prev.today_consumption_kwh);
    assert!(
        !delta_corrections.0.contains_key("today_consumption_kwh"),
        "within-tolerance wobble must not start a correction counter"
    );
}

#[test]
fn daily_energy_consecutive_decrease_releases_baseline() {
    let prev_consumption = 7.7;
    let raw_consumption = 7.1;
    let mut delta_corrections = DeltaCorrectionCounts::default();
    let mut suspect_counts = ConsecutiveSuspectCounts::default();

    let mut rate_release_counts = RateReleaseCounts::default();

    for i in 0..DELTA_CORRECTION_RELEASE_THRESHOLD {
        let prev = InverterSnapshot {
            timestamp: 100 + i as i64 * 3,
            battery_mode: BatteryMode::Eco,
            grid_voltage: q(230.0),
            grid_frequency: q(50.0),
            today_consumption_kwh: q(prev_consumption),
            ..Default::default()
        };
        let mut snap = InverterSnapshot {
            timestamp: 100 + (i as i64 + 1) * 3,
            battery_mode: BatteryMode::Eco,
            grid_voltage: q(230.0),
            grid_frequency: q(50.0),
            today_consumption_kwh: q(raw_consumption),
            ..Default::default()
        };
        let mut pending_mode = None;

        let _sanitized = sanitize_snapshot(
            &mut snap,
            Some(&prev),
            false,
            &mut pending_mode,
            &mut delta_corrections,
            &mut suspect_counts,
            &mut rate_release_counts,
        );

        if i < DELTA_CORRECTION_RELEASE_THRESHOLD - 1 {
            assert_eq!(
                snap.today_consumption_kwh, q(prev_consumption),
                "cycle {}: should carry forward baseline",
                i
            );
        } else {
            assert_eq!(
                snap.today_consumption_kwh, q(raw_consumption),
                "cycle {}: should accept raw value after threshold",
                i
            );
        }
    }

    assert!(
        !delta_corrections.0.contains_key("today_consumption_kwh")
            || delta_corrections.0.get("today_consumption_kwh").unwrap() == 0
    );
}

#[test]
fn daily_energy_correction_count_resets_on_normal_increase() {
    let mut delta_corrections = DeltaCorrectionCounts::default();
    let mut suspect_counts = ConsecutiveSuspectCounts::default();

    let mut rate_release_counts = RateReleaseCounts::default();

    for i in 0..3u8 {
        let prev = InverterSnapshot {
            timestamp: 100 + i as i64 * 3,
            battery_mode: BatteryMode::Eco,
            grid_voltage: q(230.0),
            grid_frequency: q(50.0),
            today_consumption_kwh: q(7.7),
            ..Default::default()
        };
        let mut snap = InverterSnapshot {
            timestamp: 100 + (i as i64 + 1) * 3,
            battery_mode: BatteryMode::Eco,
            grid_voltage: q(230.0),
            grid_frequency: q(50.0),
            today_consumption_kwh: q(7.1),
            ..Default::default()
        };
        let mut pending_mode = None;
        let _ = sanitize_snapshot(
            &mut snap,
            Some(&prev),
            false,
            &mut pending_mode,
            &mut delta_corrections,
            &mut suspect_counts,
            &mut rate_release_counts,
        );
    }
    assert_eq!(
        delta_corrections.0.get("today_consumption_kwh").unwrap(),
        3
    );

    let prev = InverterSnapshot {
        timestamp: 109,
        battery_mode: BatteryMode::Eco,
        grid_voltage: q(230.0),
        grid_frequency: q(50.0),
        today_consumption_kwh: q(7.1),
        ..Default::default()
    };
    let mut snap = InverterSnapshot {
        timestamp: 112,
        battery_mode: BatteryMode::Eco,
        grid_voltage: q(230.0),
        grid_frequency: q(50.0),
        today_consumption_kwh: q(7.5),
        ..Default::default()
    };
    let mut pending_mode = None;
    let _ = sanitize_snapshot(
        &mut snap,
        Some(&prev),
        false,
        &mut pending_mode,
        &mut delta_corrections,
        &mut suspect_counts,
        &mut rate_release_counts,
    );
    assert!(
        !delta_corrections.0.contains_key("today_consumption_kwh"),
        "counter should be reset after normal increase"
    );
}

#[test]
fn daily_energy_stuck_low_baseline_recovers_after_threshold() {
    let prev_export = 1.0388889;
    let raw_export = 18.5;
    let mut delta_corrections = DeltaCorrectionCounts::default();
    let mut suspect_counts = ConsecutiveSuspectCounts::default();

    let mut rate_release_counts = RateReleaseCounts::default();

    for i in 0..DELTA_CORRECTION_RELEASE_THRESHOLD {
        let prev = InverterSnapshot {
            timestamp: 100 + i as i64 * 3,
            battery_mode: BatteryMode::Eco,
            grid_voltage: q(230.0),
            grid_frequency: q(50.0),
            today_export_kwh: q(prev_export),
            ..Default::default()
        };
        let mut snap = InverterSnapshot {
            timestamp: 100 + (i as i64 + 1) * 3,
            battery_mode: BatteryMode::Eco,
            grid_voltage: q(230.0),
            grid_frequency: q(50.0),
            today_export_kwh: q(raw_export),
            ..Default::default()
        };
        let mut pending_mode = None;
        let _ = sanitize_snapshot(
            &mut snap,
            Some(&prev),
            false,
            &mut pending_mode,
            &mut delta_corrections,
            &mut suspect_counts,
            &mut rate_release_counts,
        );

        if i < DELTA_CORRECTION_RELEASE_THRESHOLD - 1 {
            assert_eq!(
                snap.today_export_kwh, q(prev_export),
                "cycle {}: stuck baseline must carry forward until release",
                i
            );
        } else {
            assert_eq!(
                snap.today_export_kwh, q(raw_export),
                "cycle {}: should accept raw once the stuck baseline is released",
                i
            );
        }
    }

    assert!(
        !delta_corrections.0.contains_key("today_export_kwh")
            || delta_corrections.0.get("today_export_kwh").unwrap() == 0
    );
}

#[test]
fn daily_energy_fast_jump_counter_resets_on_normal_reading() {
    let mut delta_corrections = DeltaCorrectionCounts::default();
    let mut suspect_counts = ConsecutiveSuspectCounts::default();

    let mut rate_release_counts = RateReleaseCounts::default();

    for i in 0..2u8 {
        let prev = InverterSnapshot {
            timestamp: 100 + i as i64 * 3,
            battery_mode: BatteryMode::Eco,
            grid_voltage: q(230.0),
            grid_frequency: q(50.0),
            today_import_kwh: q(1.0),
            ..Default::default()
        };
        let mut snap = InverterSnapshot {
            timestamp: 100 + (i as i64 + 1) * 3,
            battery_mode: BatteryMode::Eco,
            grid_voltage: q(230.0),
            grid_frequency: q(50.0),
            today_import_kwh: q(6.9),
            ..Default::default()
        };
        let mut pending_mode = None;
        let _ = sanitize_snapshot(
            &mut snap,
            Some(&prev),
            false,
            &mut pending_mode,
            &mut delta_corrections,
            &mut suspect_counts,
            &mut rate_release_counts,
        );
    }
    assert_eq!(delta_corrections.0.get("today_import_kwh").unwrap(), 2);

    let prev = InverterSnapshot {
        timestamp: 106,
        battery_mode: BatteryMode::Eco,
        grid_voltage: q(230.0),
        grid_frequency: q(50.0),
        today_import_kwh: q(1.0),
        ..Default::default()
    };
    let mut snap = InverterSnapshot {
        timestamp: 109,
        battery_mode: BatteryMode::Eco,
        grid_voltage: q(230.0),
        grid_frequency: q(50.0),
        today_import_kwh: q(1.02),
        ..Default::default()
    };
    let mut pending_mode = None;
    let _ = sanitize_snapshot(
        &mut snap,
        Some(&prev),
        false,
        &mut pending_mode,
        &mut delta_corrections,
        &mut suspect_counts,
        &mut rate_release_counts,
    );
    assert!(
        !delta_corrections.0.contains_key("today_import_kwh"),
        "a normal reading must reset the fast-jump counter"
    );
}

#[test]
fn daily_energy_transient_fast_jump_is_not_released_prematurely() {
    let mut delta_corrections = DeltaCorrectionCounts::default();
    let mut suspect_counts = ConsecutiveSuspectCounts::default();

    let mut rate_release_counts = RateReleaseCounts::default();

    let prev = InverterSnapshot {
        timestamp: 100,
        battery_mode: BatteryMode::Eco,
        grid_voltage: q(230.0),
        grid_frequency: q(50.0),
        today_solar_kwh: q(2.0),
        ..Default::default()
    };
    let mut snap = InverterSnapshot {
        timestamp: 103,
        battery_mode: BatteryMode::Eco,
        grid_voltage: q(230.0),
        grid_frequency: q(50.0),
        today_solar_kwh: q(40.0),
        ..Default::default()
    };
    let mut pending_mode = None;
    let _ = sanitize_snapshot(
        &mut snap,
        Some(&prev),
        false,
        &mut pending_mode,
        &mut delta_corrections,
        &mut suspect_counts,
        &mut rate_release_counts,
    );
    assert_eq!(
        snap.today_solar_kwh, q(2.0),
        "a single transient jump must be rejected, not accepted"
    );
    assert_eq!(delta_corrections.0.get("today_solar_kwh").unwrap(), 1);
}

#[test]
fn lifetime_total_stuck_low_baseline_recovers_after_threshold() {
    let prev_total = 100.0;
    let raw_total = 5000.0;
    let mut delta_corrections = DeltaCorrectionCounts::default();
    let mut suspect_counts = ConsecutiveSuspectCounts::default();

    let mut rate_release_counts = RateReleaseCounts::default();

    for i in 0..DELTA_CORRECTION_RELEASE_THRESHOLD {
        let prev = InverterSnapshot {
            timestamp: 100 + i as i64 * 3,
            battery_mode: BatteryMode::Eco,
            grid_voltage: q(230.0),
            grid_frequency: q(50.0),
            total_export_kwh: q(prev_total),
            ..Default::default()
        };
        let mut snap = InverterSnapshot {
            timestamp: 100 + (i as i64 + 1) * 3,
            battery_mode: BatteryMode::Eco,
            grid_voltage: q(230.0),
            grid_frequency: q(50.0),
            total_export_kwh: q(raw_total),
            ..Default::default()
        };
        let mut pending_mode = None;
        let _ = sanitize_snapshot(
            &mut snap,
            Some(&prev),
            false,
            &mut pending_mode,
            &mut delta_corrections,
            &mut suspect_counts,
            &mut rate_release_counts,
        );

        if i < DELTA_CORRECTION_RELEASE_THRESHOLD - 1 {
            assert_eq!(snap.total_export_kwh, q(prev_total));
        } else {
            assert_eq!(snap.total_export_kwh, q(raw_total));
        }
    }
    assert!(
        !delta_corrections.0.contains_key("total_export_kwh")
            || delta_corrections.0.get("total_export_kwh").unwrap() == 0
    );
}

#[test]
fn full_day_discharge_slot_starting_at_midnight_is_not_suspicious() {
    let mut prev = InverterSnapshot {
        battery_mode: BatteryMode::TimedExport,
        battery_reserve: 4,
        grid_voltage: q(230.0),
        grid_frequency: q(50.0),
        ..Default::default()
    };
    prev.discharge_slots[0].enabled = true;
    prev.discharge_slots[0].start_hour = 18;
    prev.discharge_slots[0].start_minute = 0;
    prev.discharge_slots[0].end_hour = 19;
    prev.discharge_slots[0].end_minute = 0;

    let mut snap = InverterSnapshot {
        battery_mode: BatteryMode::TimedExport,
        battery_reserve: 4,
        grid_voltage: q(230.0),
        grid_frequency: q(50.0),
        ..Default::default()
    };
    snap.discharge_slots[0].enabled = true;
    snap.discharge_slots[0].start_hour = 0;
    snap.discharge_slots[0].start_minute = 0;
    snap.discharge_slots[0].end_hour = 23;
    snap.discharge_slots[0].end_minute = 59;

    let mut pending_mode = None;
    let mut delta_corrections = DeltaCorrectionCounts::default();
    let mut suspect_counts = ConsecutiveSuspectCounts::default();

    let mut rate_release_counts = RateReleaseCounts::default();

    let sanitized = sanitize_snapshot(
        &mut snap,
        Some(&prev),
        false,
        &mut pending_mode,
        &mut delta_corrections,
        &mut suspect_counts,
        &mut rate_release_counts,
    );

    assert!(!sanitized, "valid full-day slot must not force a re-poll");
    assert_eq!(snap.discharge_slots[0].start_hour, 0);
    assert_eq!(snap.discharge_slots[0].start_minute, 0);
    assert_eq!(snap.discharge_slots[0].end_hour, 23);
    assert_eq!(snap.discharge_slots[0].end_minute, 59);
}

#[test]
fn genuinely_tiny_midnight_slot_is_still_carried_forward() {
    let mut prev = InverterSnapshot {
        battery_mode: BatteryMode::TimedExport,
        battery_reserve: 4,
        grid_voltage: q(230.0),
        grid_frequency: q(50.0),
        ..Default::default()
    };
    prev.discharge_slots[0].enabled = true;
    prev.discharge_slots[0].start_hour = 18;
    prev.discharge_slots[0].end_hour = 19;

    let mut snap = InverterSnapshot {
        battery_mode: BatteryMode::TimedExport,
        battery_reserve: 4,
        grid_voltage: q(230.0),
        grid_frequency: q(50.0),
        ..Default::default()
    };
    snap.discharge_slots[0].enabled = true;
    snap.discharge_slots[0].start_hour = 0;
    snap.discharge_slots[0].start_minute = 1;
    snap.discharge_slots[0].end_hour = 0;
    snap.discharge_slots[0].end_minute = 4;

    let mut pending_mode = None;
    let mut delta_corrections = DeltaCorrectionCounts::default();
    let mut suspect_counts = ConsecutiveSuspectCounts::default();

    let mut rate_release_counts = RateReleaseCounts::default();

    let sanitized = sanitize_snapshot(
        &mut snap,
        Some(&prev),
        false,
        &mut pending_mode,
        &mut delta_corrections,
        &mut suspect_counts,
        &mut rate_release_counts,
    );

    assert!(
        sanitized,
        "tiny midnight corruption should still be rejected"
    );
    assert_eq!(snap.discharge_slots[0].start_hour, 18);
    assert_eq!(snap.discharge_slots[0].end_hour, 19);
}

#[test]
fn optional_ac_config_carries_forward_when_block_missing() {
    let mut prev = InverterSnapshot {
        device_type: DeviceType::ACCoupled,
        charge_rate: 80,
        discharge_rate: 70,
        ac_export_priority: 2,
        ac_eps_enabled: true,
        battery_pause_mode: 1,
        ..Default::default()
    };
    prev.battery_pause_slot.enabled = true;
    prev.battery_pause_slot.start_hour = 1;
    prev.battery_pause_slot.end_hour = 2;

    let mut snap = InverterSnapshot {
        device_type: DeviceType::ACCoupled,
        ..Default::default()
    };

    let changed =
        carry_forward_optional_block_values(&mut snap, Some(&prev), false, true, true, true);
    assert!(changed);
    assert_eq!(snap.charge_rate, 80);
    assert_eq!(snap.discharge_rate, 70);
    assert_eq!(snap.ac_export_priority, 2);
    assert!(snap.ac_eps_enabled);
    assert_eq!(snap.battery_pause_mode, 1);
    assert!(snap.battery_pause_slot.enabled);
    assert_eq!(snap.battery_pause_slot.start_hour, 1);
    assert_eq!(snap.battery_pause_slot.end_hour, 2);
}

#[test]
fn optional_ac_config_does_not_carry_forward_when_block_present() {
    let prev = InverterSnapshot {
        device_type: DeviceType::ACCoupled,
        charge_rate: 80,
        discharge_rate: 70,
        ..Default::default()
    };
    let mut snap = InverterSnapshot {
        device_type: DeviceType::ACCoupled,
        charge_rate: 20,
        discharge_rate: 30,
        ..Default::default()
    };

    let changed =
        carry_forward_optional_block_values(&mut snap, Some(&prev), true, true, true, true);
    assert!(!changed);
    assert_eq!(snap.charge_rate, 20);
    assert_eq!(snap.discharge_rate, 30);
}

#[test]
fn optional_extended_slots_carry_forward_when_block_missing() {
    let mut prev = InverterSnapshot {
        device_type: DeviceType::Gen3Hybrid,
        ..Default::default()
    };
    prev.charge_slots[0].target_soc = 80;
    prev.discharge_slots[1].target_soc = 40;
    prev.charge_slots[2].enabled = true;
    prev.charge_slots[2].start_hour = 3;
    prev.charge_slots[2].end_hour = 4;
    prev.charge_slots[2].target_soc = 90;
    prev.discharge_slots[2].enabled = true;
    prev.discharge_slots[2].start_hour = 17;
    prev.discharge_slots[2].end_hour = 18;

    let mut snap = InverterSnapshot {
        device_type: DeviceType::Gen3Hybrid,
        ..Default::default()
    };

    let changed =
        carry_forward_optional_block_values(&mut snap, Some(&prev), true, false, true, true);
    assert!(changed);
    assert_eq!(snap.charge_slots[0].target_soc, 80);
    assert_eq!(snap.discharge_slots[1].target_soc, 40);
    assert!(snap.charge_slots[2].enabled);
    assert_eq!(snap.charge_slots[2].start_hour, 3);
    assert_eq!(snap.charge_slots[2].end_hour, 4);
    assert_eq!(snap.charge_slots[2].target_soc, 90);
    assert!(snap.discharge_slots[2].enabled);
    assert_eq!(snap.discharge_slots[2].start_hour, 17);
}

#[test]
fn optional_extended_slots_do_not_carry_forward_when_block_present() {
    let mut prev = InverterSnapshot {
        device_type: DeviceType::Gen3Hybrid,
        ..Default::default()
    };
    prev.charge_slots[2].enabled = true;

    let mut snap = InverterSnapshot {
        device_type: DeviceType::Gen3Hybrid,
        ..Default::default()
    };

    let changed =
        carry_forward_optional_block_values(&mut snap, Some(&prev), true, true, true, true);
    assert!(!changed);
    assert!(!snap.charge_slots[2].enabled);
}

#[test]
fn optional_three_phase_config_carries_forward_when_block_missing() {
    let prev = InverterSnapshot {
        device_type: DeviceType::ThreePhase,
        charge_rate: 81,
        discharge_rate: 72,
        battery_reserve: 15,
        target_soc: 95,
        ..Default::default()
    };
    let mut snap = InverterSnapshot {
        device_type: DeviceType::ThreePhase,
        ..Default::default()
    };

    let changed =
        carry_forward_optional_block_values(&mut snap, Some(&prev), true, true, false, true);
    assert!(changed);
    assert_eq!(snap.charge_rate, 81);
    assert_eq!(snap.discharge_rate, 72);
    assert_eq!(snap.battery_reserve, 15);
    assert_eq!(snap.target_soc, 95);
}

#[test]
fn is_block_suspicious_rejects_known_corruption() {
    let mut data = [0u16; 60];
    data[28] = 0x4C32;
    data[30] = 0xA119;
    data[31] = 0x34EA;
    data[32] = 0xE77F;
    data[33] = 0xD475;
    data[35] = 0x4500;
    data[40] = 0xE4F9;
    data[41] = 0xC0A8;
    data[43] = 0xC0A8;
    data[46] = 0xC5E9;
    data[50] = 0x60EF;
    data[51] = 0x8018;
    data[52] = 0x43E0;
    data[53] = 0xF6CE;
    data[56] = 0x080A;
    data[58] = 0xFCC1;
    data[59] = 0x661E;
    assert!(is_block_suspicious(&data), "fingerprint should match");
}

#[test]
fn is_block_suspicious_accepts_clean_data() {
    let data = [0u16; 60];
    assert!(!is_block_suspicious(&data), "clean data should not match");
}

#[test]
fn is_block_suspicious_requires_60_registers() {
    let data = vec![0u16; 30];
    assert!(!is_block_suspicious(&data), "short block should not match");
}

#[test]
fn is_block_suspicious_high_register_heuristic_detects_user_pattern() {
    let mut data = [0u16; 60];
    data[21] = 0xFFE0;
    data[22] = 0xFFE0;
    data[23] = 0xFFC0;
    data[30] = 0xFFC0;
    data[31] = 0xFFC0;
    data[32] = 0xFFE0;
    data[33] = 0xFFC0;
    data[34] = 0xFFC0;
    data[50] = 0xFFE0;
    data[51] = 0xE001;
    data[52] = 0xEFFF;
    data[53] = 0xFFC0;
    assert!(
        is_block_suspicious(&data),
        "12 high-value registers should trigger general heuristic"
    );
}

#[test]
fn is_block_suspicious_high_register_heuristic_below_threshold() {
    let mut data = [0u16; 60];
    data[10] = 0xFFE0;
    data[11] = 0xFFE0;
    data[12] = 0xFFC0;
    data[20] = 0xFFC0;
    data[21] = 0xFFC0;
    data[22] = 0xFFE0;
    data[23] = 0xFFC0;
    data[30] = 0xFFC0;
    assert!(
        !is_block_suspicious(&data),
        "8 high-value registers should be below threshold"
    );
}

#[test]
fn is_block_suspicious_sub_threshold_is_not_suspicious() {
    let mut data = [0u16; 60];
    data[28] = 0x4C32;
    data[41] = 0xC0A8;
    data[43] = 0xC0A8;
    assert!(
        !is_block_suspicious(&data),
        "3hits should be below threshold"
    );
}

#[test]
fn full_day_charge_slot_starting_at_midnight_is_not_suspicious() {
    let mut prev = InverterSnapshot {
        battery_mode: BatteryMode::Eco,
        battery_reserve: 4,
        grid_voltage: q(230.0),
        grid_frequency: q(50.0),
        ..Default::default()
    };
    prev.charge_slots[0].enabled = true;
    prev.charge_slots[0].start_hour = 2;
    prev.charge_slots[0].start_minute = 0;
    prev.charge_slots[0].end_hour = 5;
    prev.charge_slots[0].end_minute = 0;

    let mut snap = InverterSnapshot {
        battery_mode: BatteryMode::Eco,
        battery_reserve: 4,
        grid_voltage: q(230.0),
        grid_frequency: q(50.0),
        ..Default::default()
    };
    snap.charge_slots[0].enabled = true;
    snap.charge_slots[0].start_hour = 0;
    snap.charge_slots[0].start_minute = 0;
    snap.charge_slots[0].end_hour = 23;
    snap.charge_slots[0].end_minute = 59;

    let mut pending_mode = None;
    let mut delta_corrections = DeltaCorrectionCounts::default();
    let mut suspect_counts = ConsecutiveSuspectCounts::default();

    let mut rate_release_counts = RateReleaseCounts::default();

    let sanitized = sanitize_snapshot(
        &mut snap,
        Some(&prev),
        false,
        &mut pending_mode,
        &mut delta_corrections,
        &mut suspect_counts,
        &mut rate_release_counts,
    );

    assert!(
        !sanitized,
        "valid full-day charge slot must not force a re-poll"
    );
    assert_eq!(snap.charge_slots[0].start_hour, 0);
    assert_eq!(snap.charge_slots[0].start_minute, 0);
    assert_eq!(snap.charge_slots[0].end_hour, 23);
    assert_eq!(snap.charge_slots[0].end_minute, 59);
}

#[test]
fn genuinely_tiny_charge_slot_is_carried_forward() {
    let mut prev = InverterSnapshot {
        battery_mode: BatteryMode::Eco,
        battery_reserve: 4,
        grid_voltage: q(230.0),
        grid_frequency: q(50.0),
        ..Default::default()
    };
    prev.charge_slots[0].enabled = true;
    prev.charge_slots[0].start_hour = 2;
    prev.charge_slots[0].end_hour = 5;

    let mut snap = InverterSnapshot {
        battery_mode: BatteryMode::Eco,
        battery_reserve: 4,
        grid_voltage: q(230.0),
        grid_frequency: q(50.0),
        ..Default::default()
    };
    snap.charge_slots[0].enabled = true;
    snap.charge_slots[0].start_hour = 0;
    snap.charge_slots[0].start_minute = 1;
    snap.charge_slots[0].end_hour = 0;
    snap.charge_slots[0].end_minute = 4;

    let mut pending_mode = None;
    let mut delta_corrections = DeltaCorrectionCounts::default();
    let mut suspect_counts = ConsecutiveSuspectCounts::default();

    let mut rate_release_counts = RateReleaseCounts::default();

    let sanitized = sanitize_snapshot(
        &mut snap,
        Some(&prev),
        false,
        &mut pending_mode,
        &mut delta_corrections,
        &mut suspect_counts,
        &mut rate_release_counts,
    );

    assert!(
        sanitized,
        "tiny midnight charge slot corruption should be rejected"
    );
    assert_eq!(snap.charge_slots[0].start_hour, 2);
    assert_eq!(snap.charge_slots[0].end_hour, 5);
}

#[test]
fn overnight_charge_slot_is_not_suspicious() {
    let mut prev = InverterSnapshot {
        battery_mode: BatteryMode::Eco,
        battery_reserve: 4,
        grid_voltage: q(230.0),
        grid_frequency: q(50.0),
        ..Default::default()
    };
    prev.charge_slots[0].enabled = true;
    prev.charge_slots[0].start_hour = 2;
    prev.charge_slots[0].start_minute = 0;
    prev.charge_slots[0].end_hour = 5;
    prev.charge_slots[0].end_minute = 0;

    let mut snap = InverterSnapshot {
        battery_mode: BatteryMode::Eco,
        battery_reserve: 4,
        grid_voltage: q(230.0),
        grid_frequency: q(50.0),
        ..Default::default()
    };
    snap.charge_slots[0].enabled = true;
    snap.charge_slots[0].start_hour = 23;
    snap.charge_slots[0].start_minute = 0;
    snap.charge_slots[0].end_hour = 1;
    snap.charge_slots[0].end_minute = 0;

    let mut pending_mode = None;
    let mut delta_corrections = DeltaCorrectionCounts::default();
    let mut suspect_counts = ConsecutiveSuspectCounts::default();

    let mut rate_release_counts = RateReleaseCounts::default();

    let sanitized = sanitize_snapshot(
        &mut snap,
        Some(&prev),
        false,
        &mut pending_mode,
        &mut delta_corrections,
        &mut suspect_counts,
        &mut rate_release_counts,
    );

    assert!(
        !sanitized,
        "overnight 2-hour charge slot must not be suspicious"
    );
    assert_eq!(snap.charge_slots[0].start_hour, 23);
    assert_eq!(snap.charge_slots[0].end_hour, 1);
}

#[test]
fn disabled_slot_is_not_suspicious() {
    let mut prev = InverterSnapshot {
        battery_mode: BatteryMode::Eco,
        battery_reserve: 4,
        grid_voltage: q(230.0),
        grid_frequency: q(50.0),
        ..Default::default()
    };
    prev.charge_slots[0].enabled = true;
    prev.charge_slots[0].start_hour = 2;
    prev.charge_slots[0].end_hour = 5;

    let mut snap = InverterSnapshot {
        battery_mode: BatteryMode::Eco,
        battery_reserve: 4,
        grid_voltage: q(230.0),
        grid_frequency: q(50.0),
        ..Default::default()
    };
    snap.charge_slots[0].enabled = false;
    snap.charge_slots[0].start_hour = 0;
    snap.charge_slots[0].start_minute = 1;
    snap.charge_slots[0].end_hour = 0;
    snap.charge_slots[0].end_minute = 4;

    let mut pending_mode = None;
    let mut delta_corrections = DeltaCorrectionCounts::default();
    let mut suspect_counts = ConsecutiveSuspectCounts::default();

    let mut rate_release_counts = RateReleaseCounts::default();

    let sanitized = sanitize_snapshot(
        &mut snap,
        Some(&prev),
        false,
        &mut pending_mode,
        &mut delta_corrections,
        &mut suspect_counts,
        &mut rate_release_counts,
    );

    assert!(
        !sanitized,
        "disabled slot with tiny times must not be suspicious"
    );
    assert!(!snap.charge_slots[0].enabled);
}

#[test]
fn mid_hour_charge_slot_is_not_suspicious() {
    let mut prev = InverterSnapshot {
        battery_mode: BatteryMode::Eco,
        battery_reserve: 4,
        grid_voltage: q(230.0),
        grid_frequency: q(50.0),
        ..Default::default()
    };
    prev.charge_slots[0].enabled = true;
    prev.charge_slots[0].start_hour = 2;
    prev.charge_slots[0].end_hour = 5;

    let mut snap = InverterSnapshot {
        battery_mode: BatteryMode::Eco,
        battery_reserve: 4,
        grid_voltage: q(230.0),
        grid_frequency: q(50.0),
        ..Default::default()
    };
    snap.charge_slots[0].enabled = true;
    snap.charge_slots[0].start_hour = 0;
    snap.charge_slots[0].start_minute = 15;
    snap.charge_slots[0].end_hour = 3;
    snap.charge_slots[0].end_minute = 0;

    let mut pending_mode = None;
    let mut delta_corrections = DeltaCorrectionCounts::default();
    let mut suspect_counts = ConsecutiveSuspectCounts::default();

    let mut rate_release_counts = RateReleaseCounts::default();

    let sanitized = sanitize_snapshot(
        &mut snap,
        Some(&prev),
        false,
        &mut pending_mode,
        &mut delta_corrections,
        &mut suspect_counts,
        &mut rate_release_counts,
    );

    assert!(
        !sanitized,
        "slot at 00:15 must not be suspicious (start minutes > 10)"
    );
}

#[test]
fn exactly_10_minute_charge_slot_is_not_suspicious() {
    let mut prev = InverterSnapshot {
        battery_mode: BatteryMode::Eco,
        battery_reserve: 4,
        grid_voltage: q(230.0),
        grid_frequency: q(50.0),
        ..Default::default()
    };
    prev.charge_slots[0].enabled = true;
    prev.charge_slots[0].start_hour = 2;
    prev.charge_slots[0].end_hour = 5;

    let mut snap = InverterSnapshot {
        battery_mode: BatteryMode::Eco,
        battery_reserve: 4,
        grid_voltage: q(230.0),
        grid_frequency: q(50.0),
        ..Default::default()
    };
    snap.charge_slots[0].enabled = true;
    snap.charge_slots[0].start_hour = 0;
    snap.charge_slots[0].start_minute = 5;
    snap.charge_slots[0].end_hour = 0;
    snap.charge_slots[0].end_minute = 15;

    let mut pending_mode = None;
    let mut delta_corrections = DeltaCorrectionCounts::default();
    let mut suspect_counts = ConsecutiveSuspectCounts::default();

    let mut rate_release_counts = RateReleaseCounts::default();

    let sanitized = sanitize_snapshot(
        &mut snap,
        Some(&prev),
        false,
        &mut pending_mode,
        &mut delta_corrections,
        &mut suspect_counts,
        &mut rate_release_counts,
    );

    assert!(
        sanitized,
        "exactly-10-min slot with start <= 10 is still caught"
    );
    assert_eq!(snap.charge_slots[0].start_hour, 2);
}

#[test]
fn optional_three_phase_config_carries_forward_for_hybrid_hv_gen3() {
    let prev = InverterSnapshot {
        device_type: DeviceType::HybridHvGen3,
        charge_rate: 75,
        discharge_rate: 65,
        battery_reserve: 20,
        target_soc: 90,
        ..Default::default()
    };
    let mut snap = InverterSnapshot {
        device_type: DeviceType::HybridHvGen3,
        ..Default::default()
    };

    let changed =
        carry_forward_optional_block_values(&mut snap, Some(&prev), true, true, false, true);
    assert!(changed);
    assert_eq!(snap.charge_rate, 75);
    assert_eq!(snap.discharge_rate, 65);
    assert_eq!(snap.battery_reserve, 20);
    assert_eq!(snap.target_soc, 90);
}

#[test]
fn optional_three_phase_config_carries_forward_for_ac_three_phase() {
    let prev = InverterSnapshot {
        device_type: DeviceType::ACThreePhase,
        charge_rate: 60,
        discharge_rate: 55,
        battery_reserve: 12,
        target_soc: 85,
        ..Default::default()
    };
    let mut snap = InverterSnapshot {
        device_type: DeviceType::ACThreePhase,
        ..Default::default()
    };

    let changed =
        carry_forward_optional_block_values(&mut snap, Some(&prev), true, true, false, true);
    assert!(changed);
    assert_eq!(snap.charge_rate, 60);
    assert_eq!(snap.discharge_rate, 55);
    assert_eq!(snap.battery_reserve, 12);
    assert_eq!(snap.target_soc, 85);
}

#[test]
fn optional_three_phase_config_carries_forward_for_aio_commercial() {
    let prev = InverterSnapshot {
        device_type: DeviceType::AioCommercial,
        charge_rate: 70,
        discharge_rate: 60,
        battery_reserve: 10,
        target_soc: 95,
        ..Default::default()
    };
    let mut snap = InverterSnapshot {
        device_type: DeviceType::AioCommercial,
        ..Default::default()
    };

    let changed =
        carry_forward_optional_block_values(&mut snap, Some(&prev), true, true, false, true);
    assert!(changed);
    assert_eq!(snap.charge_rate, 70);
    assert_eq!(snap.discharge_rate, 60);
    assert_eq!(snap.battery_reserve, 10);
    assert_eq!(snap.target_soc, 95);
}

#[test]
fn optional_three_phase_config_carries_forward_for_all_in_one_hybrid() {
    let prev = InverterSnapshot {
        device_type: DeviceType::AllInOneHybrid,
        charge_rate: 80,
        discharge_rate: 70,
        battery_reserve: 25,
        target_soc: 88,
        ..Default::default()
    };
    let mut snap = InverterSnapshot {
        device_type: DeviceType::AllInOneHybrid,
        ..Default::default()
    };

    let changed =
        carry_forward_optional_block_values(&mut snap, Some(&prev), true, true, false, true);
    assert!(changed);
    assert_eq!(snap.charge_rate, 80);
    assert_eq!(snap.discharge_rate, 70);
    assert_eq!(snap.battery_reserve, 25);
    assert_eq!(snap.target_soc, 88);
}

#[test]
fn optional_ac_config_carries_forward_for_ac_coupled_mk2() {
    let mut prev = InverterSnapshot {
        device_type: DeviceType::ACCoupledMk2,
        charge_rate: 90,
        discharge_rate: 85,
        ac_export_priority: 1,
        ac_eps_enabled: false,
        battery_pause_mode: 2,
        ..Default::default()
    };
    prev.battery_pause_slot.enabled = true;
    prev.battery_pause_slot.start_hour = 8;
    prev.battery_pause_slot.end_hour = 10;

    let mut snap = InverterSnapshot {
        device_type: DeviceType::ACCoupledMk2,
        ..Default::default()
    };

    let changed =
        carry_forward_optional_block_values(&mut snap, Some(&prev), false, true, true, true);
    assert!(changed);
    assert_eq!(snap.charge_rate, 90);
    assert_eq!(snap.discharge_rate, 85);
    assert_eq!(snap.ac_export_priority, 1);
    assert!(!snap.ac_eps_enabled);
    assert_eq!(snap.battery_pause_mode, 2);
    assert!(snap.battery_pause_slot.enabled);
    assert_eq!(snap.battery_pause_slot.start_hour, 8);
    assert_eq!(snap.battery_pause_slot.end_hour, 10);
}

#[test]
fn optional_extended_slots_carry_forward_for_hybrid_hv_gen3() {
    let mut prev = InverterSnapshot {
        device_type: DeviceType::HybridHvGen3,
        ..Default::default()
    };
    prev.charge_slots[0].target_soc = 75;
    prev.discharge_slots[1].target_soc = 50;
    prev.charge_slots[2].enabled = true;
    prev.charge_slots[2].start_hour = 5;
    prev.charge_slots[2].end_hour = 7;
    prev.charge_slots[2].target_soc = 85;

    let mut snap = InverterSnapshot {
        device_type: DeviceType::HybridHvGen3,
        ..Default::default()
    };

    let changed =
        carry_forward_optional_block_values(&mut snap, Some(&prev), true, false, true, true);
    assert!(changed);
    assert_eq!(snap.charge_slots[0].target_soc, 75);
    assert_eq!(snap.discharge_slots[1].target_soc, 50);
    assert!(snap.charge_slots[2].enabled);
    assert_eq!(snap.charge_slots[2].start_hour, 5);
    assert_eq!(snap.charge_slots[2].target_soc, 85);
}

#[test]
fn optional_blocks_no_carry_forward_when_prev_is_none() {
    let mut snap = InverterSnapshot {
        device_type: DeviceType::ACCoupled,
        ..Default::default()
    };
    let changed = carry_forward_optional_block_values(&mut snap, None, false, true, true, true);
    assert!(!changed);
}

#[test]
fn optional_blocks_no_carry_forward_when_device_type_differs() {
    let prev = InverterSnapshot {
        device_type: DeviceType::ACCoupled,
        charge_rate: 80,
        ..Default::default()
    };
    let mut snap = InverterSnapshot {
        device_type: DeviceType::Gen2Hybrid,
        ..Default::default()
    };
    let changed =
        carry_forward_optional_block_values(&mut snap, Some(&prev), false, true, true, true);
    assert!(!changed);
}

#[test]
fn overnight_discharge_slot_is_not_suspicious() {
    let mut prev = InverterSnapshot {
        battery_mode: BatteryMode::TimedExport,
        battery_reserve: 4,
        grid_voltage: q(230.0),
        grid_frequency: q(50.0),
        ..Default::default()
    };
    prev.discharge_slots[0].enabled = true;
    prev.discharge_slots[0].start_hour = 18;
    prev.discharge_slots[0].start_minute = 0;
    prev.discharge_slots[0].end_hour = 19;
    prev.discharge_slots[0].end_minute = 0;

    let mut snap = InverterSnapshot {
        battery_mode: BatteryMode::TimedExport,
        battery_reserve: 4,
        grid_voltage: q(230.0),
        grid_frequency: q(50.0),
        ..Default::default()
    };
    snap.discharge_slots[0].enabled = true;
    snap.discharge_slots[0].start_hour = 23;
    snap.discharge_slots[0].start_minute = 0;
    snap.discharge_slots[0].end_hour = 1;
    snap.discharge_slots[0].end_minute = 0;

    let mut pending_mode = None;
    let mut delta_corrections = DeltaCorrectionCounts::default();
    let mut suspect_counts = ConsecutiveSuspectCounts::default();

    let mut rate_release_counts = RateReleaseCounts::default();

    let sanitized = sanitize_snapshot(
        &mut snap,
        Some(&prev),
        false,
        &mut pending_mode,
        &mut delta_corrections,
        &mut suspect_counts,
        &mut rate_release_counts,
    );

    assert!(
        !sanitized,
        "overnight 2-hour discharge slot must not be suspicious"
    );
    assert_eq!(snap.discharge_slots[0].start_hour, 23);
    assert_eq!(snap.discharge_slots[0].end_hour, 1);
}

fn sanitize_for_test(snap: &mut InverterSnapshot, prev: Option<&InverterSnapshot>) -> bool {
    let mut pending_mode = None;
    let mut delta_corrections = DeltaCorrectionCounts::default();
    let mut suspect_counts = ConsecutiveSuspectCounts::default();
    let mut rate_release_counts = RateReleaseCounts::default();
    sanitize_snapshot(
        snap,
        prev,
        false,
        &mut pending_mode,
        &mut delta_corrections,
        &mut suspect_counts,
        &mut rate_release_counts,
    )
}

fn base_grid_connected_snap() -> InverterSnapshot {
    InverterSnapshot {
        timestamp: 100,
        battery_mode: BatteryMode::Eco,
        grid_voltage: q(230.0),
        grid_frequency: q(50.0),
        grid_online: true,
        soc: 50,
        battery_reserve: 4,
        ..Default::default()
    }
}

#[test]
fn eps_power_w_in_range_is_accepted() {
    let mut snap = base_grid_connected_snap();
    snap.eps_power_w = 2400;
    let sanitized = sanitize_for_test(&mut snap, None);
    assert!(
        !sanitized,
        "in-range EPS reading must not be flagged, got sanitized=true"
    );
    assert_eq!(snap.eps_power_w, 2400);
}

#[test]
fn eps_power_w_soft_over_limit_falls_back_to_previous() {
    let mut counts = ConsecutiveSuspectCounts::default();
    let (val, sanitized) =
        check_power_field(16_000, Some(0), 15_000, "eps_power_w", &mut counts);
    assert_eq!(val, 0, "first over-limit cycle falls back to previous");
    assert!(sanitized);
    assert_eq!(counts.0.get("eps_power_w"), Some(1));
}

#[test]
fn eps_power_w_at_int16_saturation_is_treated_as_corruption() {
    let mut prev = base_grid_connected_snap();
    prev.eps_power_w = 800;

    let mut snap = prev.clone();
    snap.eps_power_w = 40_000;
    let sanitized = sanitize_for_test(&mut snap, Some(&prev));
    assert!(sanitized, "saturated EPS value must be flagged");
    assert_eq!(snap.eps_power_w, 800, "must fall back to previous");
}

#[test]
fn eps_power_w_zero_after_sanitize_remains_zero() {
    let mut snap = base_grid_connected_snap();
    snap.eps_power_w = 0;
    let sanitized = sanitize_for_test(&mut snap, None);
    assert!(!sanitized);
    assert_eq!(snap.eps_power_w, 0);
}

#[test]
fn operating_hours_in_range_is_accepted() {
    let mut snap = base_grid_connected_snap();
    snap.operating_hours = 26_280;
    let sanitized = sanitize_for_test(&mut snap, None);
    assert!(
        !sanitized,
        "in-range operating_hours must not be flagged, got sanitized=true"
    );
    assert_eq!(snap.operating_hours, 26_280);
}

#[test]
fn operating_hours_above_ceiling_falls_back_to_previous() {
    let mut prev = base_grid_connected_snap();
    prev.operating_hours = 10_000;
    let mut snap = prev.clone();
    snap.operating_hours = 4_294_967_295;
    let sanitized = sanitize_for_test(&mut snap, Some(&prev));
    assert!(sanitized, "above-ceiling reading must be flagged");
    assert_eq!(
        snap.operating_hours, 10_000,
        "above-ceiling cycle must fall back to previous"
    );
}

#[test]
fn operating_hours_above_ceiling_with_no_previous_zeroes() {
    let mut snap = base_grid_connected_snap();
    snap.operating_hours = 4_294_967_295;
    let sanitized = sanitize_for_test(&mut snap, None);
    assert!(sanitized);
    assert_eq!(snap.operating_hours, 0);
}

#[test]
fn operating_hours_backwards_jump_falls_back_to_previous() {
    let mut prev = base_grid_connected_snap();
    prev.operating_hours = 50_000;
    let mut snap = prev.clone();
    snap.operating_hours = 100;
    let sanitized = sanitize_for_test(&mut snap, Some(&prev));
    assert!(sanitized);
    assert_eq!(snap.operating_hours, 50_000);
}

#[test]
fn operating_hours_zero_after_sanitize_remains_zero() {
    let mut snap = base_grid_connected_snap();
    snap.operating_hours = 0;
    let sanitized = sanitize_for_test(&mut snap, None);
    assert!(!sanitized);
    assert_eq!(snap.operating_hours, 0);
}

#[test]
fn sanitize_rejects_solar_rate_spike_within_absolute_range() {
    let mut prev = base_grid_connected_snap();
    prev.solar_power = 2_000;
    prev.timestamp = 100;

    let mut snap = prev.clone();
    snap.solar_power = 7_000;
    snap.timestamp = 103;

    let sanitized = sanitize_for_test(&mut snap, Some(&prev));
    assert!(sanitized, "rate spike must be flagged as sanitized");
    assert_eq!(snap.solar_power, 2_000, "rate spike must hold at previous");
}

#[test]
fn sanitize_accepts_normal_solar_increase() {
    let mut prev = base_grid_connected_snap();
    prev.solar_power = 2_000;
    prev.timestamp = 100;

    let mut snap = prev.clone();
    snap.solar_power = 2_500;
    snap.timestamp = 103;

    let sanitized = sanitize_for_test(&mut snap, Some(&prev));
    assert!(
        !sanitized || snap.solar_power == 2_500,
        "normal solar increase must not be rate-rejected"
    );
    assert_eq!(snap.solar_power, 2_500);
}

#[test]
fn sanitize_rejects_battery_sign_flip_spike() {
    let mut prev = base_grid_connected_snap();
    prev.battery_power = -2_000;
    prev.timestamp = 100;

    let mut snap = prev.clone();
    snap.battery_power = 4_000;
    snap.timestamp = 103;

    let sanitized = sanitize_for_test(&mut snap, Some(&prev));
    assert!(sanitized);
    assert_eq!(
        snap.battery_power, -2_000,
        "sign-flip spike must hold at previous"
    );
}

#[test]
fn sanitize_accepts_legit_soc_rounding_tick_to_100_while_charging() {
    let mut prev = base_grid_connected_snap();
    prev.soc = 99;
    prev.timestamp = 100;

    let mut snap = prev.clone();
    snap.soc = 100;
    snap.solar_power = 3_000;
    snap.battery_power = -3_000;
    snap.timestamp = 103;

    let sanitized = sanitize_for_test(&mut snap, Some(&prev));
    assert!(
        !sanitized,
        "99→100 rounding tick during charging must not force a re-poll"
    );
    assert_eq!(snap.soc, 100, "the tick to 100 must be accepted");
}

#[test]
fn sanitize_carries_forward_soc_100_jump_from_far_below() {
    let mut prev = base_grid_connected_snap();
    prev.soc = 50;
    prev.timestamp = 100;

    let mut snap = prev.clone();
    snap.soc = 100;
    snap.solar_power = 3_000;
    snap.battery_power = -3_000;
    snap.timestamp = 103;

    let sanitized = sanitize_for_test(&mut snap, Some(&prev));
    assert!(sanitized);
    assert_eq!(
        snap.soc, 50,
        "jump from 50% to 100% must carry forward prev"
    );
}

#[test]
fn sanitize_accepts_legit_soc_rounding_tick_to_zero_with_live_power() {
    let mut prev = base_grid_connected_snap();
    prev.soc = 1;
    prev.timestamp = 100;

    let mut snap = prev.clone();
    snap.soc = 0;
    snap.battery_power = -2_500;
    snap.solar_power = 4_000;
    snap.timestamp = 103;

    let sanitized = sanitize_for_test(&mut snap, Some(&prev));
    assert!(
        !sanitized,
        "1→0 rounding tick during live power must not force a re-poll"
    );
    assert_eq!(snap.soc, 0, "the tick to 0 must be accepted");
}

#[test]
fn sanitize_carries_forward_soc_zero_jump_from_far_above() {
    let mut prev = base_grid_connected_snap();
    prev.soc = 80;
    prev.timestamp = 100;

    let mut snap = prev.clone();
    snap.soc = 0;
    snap.battery_power = -2_500;
    snap.solar_power = 4_000;
    snap.timestamp = 103;

    let sanitized = sanitize_for_test(&mut snap, Some(&prev));
    assert!(sanitized);
    assert_eq!(snap.soc, 80, "jump from 80% to 0% must carry forward prev");
}

#[test]
fn sanitize_rate_check_skipped_on_reconnect_gap() {
    let mut prev = base_grid_connected_snap();
    prev.solar_power = 2_000;
    prev.timestamp = 100;

    let mut snap = prev.clone();
    snap.solar_power = 8_000;
    snap.timestamp = 220;

    let sanitized = sanitize_for_test(&mut snap, Some(&prev));
    assert_eq!(
        snap.solar_power, 8_000,
        "long-gap jump must not be rate-rejected"
    );
    let _ = sanitized;
}

#[test]
fn sanitize_rate_check_no_false_positive_on_first_reading() {
    let mut snap = base_grid_connected_snap();
    snap.solar_power = 8_000;
    let sanitized = sanitize_for_test(&mut snap, None);
    assert_eq!(
        snap.solar_power, 8_000,
        "first reading must not be rate-rejected"
    );
    let _ = sanitized;
}

#[test]
fn sanitize_ev_charger_on_off_settles_within_three_polls() {
    fn run_one_poll(
        rate_release_counts: &mut RateReleaseCounts,
        timestamp: i64,
        home_prev: i32,
        home_raw: i32,
        battery_prev: i32,
        battery_raw: i32,
        grid_prev: i32,
        grid_raw: i32,
    ) -> i32 {
        let mut prev = base_grid_connected_snap();
        prev.home_power = home_prev;
        prev.battery_power = battery_prev;
        prev.grid_power = grid_prev;
        prev.timestamp = timestamp;

        let mut snap = prev.clone();
        snap.home_power = home_raw;
        snap.battery_power = battery_raw;
        snap.grid_power = grid_raw;
        snap.timestamp = timestamp + 3;

        let mut pending_mode = None;
        let mut delta_corrections = DeltaCorrectionCounts::default();
        let mut suspect_counts = ConsecutiveSuspectCounts::default();
        sanitize_snapshot(
            &mut snap,
            Some(&prev),
            false,
            &mut pending_mode,
            &mut delta_corrections,
            &mut suspect_counts,
            rate_release_counts,
        );
        snap.home_power
    }

    let mut rate_release_counts = RateReleaseCounts::default();
    let mut timestamp = 1000;

    let home_on_1 = run_one_poll(
        &mut rate_release_counts,
        timestamp,
        80,
        8_000,
        0,
        2_500,
        0,
        -5_500,
    );
    assert_eq!(
        home_on_1, 8_000,
        "EV ON cycle 1: home 80→8000 must be accepted immediately via low-base skip"
    );
    timestamp += 3;

    let home_on_2 = run_one_poll(
        &mut rate_release_counts,
        timestamp,
        8_000,
        8_000,
        2_500,
        2_500,
        -5_500,
        -5_500,
    );
    assert_eq!(
        home_on_2, 8_000,
        "EV ON steady state passes through unchanged"
    );
    timestamp += 3;

    let home_off_1 = run_one_poll(
        &mut rate_release_counts,
        timestamp,
        8_000,
        80,
        2_500,
        0,
        -5_500,
        -80,
    );
    assert_eq!(
        home_off_1, 8_000,
        "EV OFF cycle 1: rate check rejects and home held at prev (8 kW)"
    );
    timestamp += 3;

    let home_off_2 = run_one_poll(
        &mut rate_release_counts,
        timestamp,
        8_000,
        80,
        2_500,
        0,
        -5_500,
        -80,
    );
    assert_eq!(
        home_off_2, 8_000,
        "EV OFF cycle 2: still rate-rejected, held at prev"
    );
    timestamp += 3;

    let home_off_3 = run_one_poll(
        &mut rate_release_counts,
        timestamp,
        8_000,
        80,
        2_500,
        0,
        -5_500,
        -80,
    );
    assert_eq!(
        home_off_3, 80,
        "EV OFF cycle 3: RATE_RELEASE_THRESHOLD reached, raw 80 W is accepted"
    );
    timestamp += 3;

    let home_off_steady =
        run_one_poll(&mut rate_release_counts, timestamp, 80, 80, 0, 0, -80, -80);
    assert_eq!(
        home_off_steady, 80,
        "EV OFF steady state: no further rate-reject, no release"
    );
}

fn cross_check_snap(
    battery: i32,
    grid: i32,
    solar: i32,
    home: i32,
    timestamp: i64,
) -> InverterSnapshot {
    let mut snap = base_grid_connected_snap();
    snap.battery_power = battery;
    snap.grid_power = grid;
    snap.solar_power = solar;
    snap.home_power = home;
    snap.timestamp = timestamp;
    snap
}

fn rate_rejected_state(
    raw_battery: i32,
    raw_grid: i32,
    raw_solar: i32,
    raw_home: i32,
    prev_battery: i32,
    prev_grid: i32,
    prev_solar: i32,
    prev_home: i32,
) -> (
    PowerFieldState,
    PowerFieldState,
    PowerFieldState,
    PowerFieldState,
) {
    (
        PowerFieldState {
            raw: raw_battery,
            rate_rejected: raw_battery != prev_battery,
        },
        PowerFieldState {
            raw: raw_grid,
            rate_rejected: raw_grid != prev_grid,
        },
        PowerFieldState {
            raw: raw_solar,
            rate_rejected: raw_solar != prev_solar,
        },
        PowerFieldState {
            raw: raw_home,
            rate_rejected: raw_home != prev_home,
        },
    )
}

#[test]
fn cross_check_restores_rate_rejected_home_power_for_ev_charger_start() {
    let prev = cross_check_snap(3_100, -5_800, 0, 1_165, 100);
    let mut snap = cross_check_snap(3_100, -5_800, 0, 1_165, 103);
    let (battery, grid, solar, home) = rate_rejected_state(
        3_100, -5_800, 0, 8_649,
        3_100, -5_800, 0, 1_165,
    );

    let restored = cross_validate_power_balance(&mut snap, &prev, battery, grid, solar, home);

    assert!(
        restored,
        "cross-check must restore rate-rejected home_power when balance agrees"
    );
    assert_eq!(snap.home_power, 8_649, "raw home value must be restored");
}

#[test]
fn cross_check_restores_rate_rejected_solar_power_when_it_is_the_outlier() {
    let prev = cross_check_snap(0, 0, 200, 5_000, 100);
    let mut snap = cross_check_snap(0, 0, 200, 5_000, 103);
    let (battery, grid, solar, home) = rate_rejected_state(
        0, 0, 5_000, 5_000,
        0, 0, 200, 5_000,
    );

    let restored = cross_validate_power_balance(&mut snap, &prev, battery, grid, solar, home);

    assert!(
        restored,
        "cross-check must restore rate-rejected solar when balance agrees"
    );
    assert_eq!(snap.solar_power, 5_000, "raw solar value must be restored");
}

#[test]
fn cross_check_restores_rate_rejected_battery_power_when_it_is_the_outlier() {
    let prev = cross_check_snap(0, 0, 0, 3_000, 100);
    let mut snap = cross_check_snap(0, 0, 0, 3_000, 103);
    let (battery, grid, solar, home) = rate_rejected_state(
        3_000, 0, 0, 3_000,
        0, 0, 0, 3_000,
    );

    let restored = cross_validate_power_balance(&mut snap, &prev, battery, grid, solar, home);

    assert!(
        restored,
        "cross-check must restore rate-rejected battery when balance agrees"
    );
    assert_eq!(
        snap.battery_power, 3_000,
        "raw battery value must be restored"
    );
}

#[test]
fn cross_check_restores_rate_rejected_grid_power_when_it_is_the_outlier() {
    let prev = cross_check_snap(0, 0, 0, 5_000, 100);
    let mut snap = cross_check_snap(0, 0, 0, 5_000, 103);
    let (battery, grid, solar, home) = rate_rejected_state(
        0, -5_000, 0, 5_000,
        0, 0, 0, 5_000,
    );

    let restored = cross_validate_power_balance(&mut snap, &prev, battery, grid, solar, home);

    assert!(
        restored,
        "cross-check must restore rate-rejected grid when balance agrees"
    );
    assert_eq!(snap.grid_power, -5_000, "raw grid value must be restored");
}

#[test]
fn cross_check_does_nothing_when_fields_already_agree() {
    let mut prev = cross_check_snap(1_000, -500, 2_000, 1_500, 100);
    let mut snap = cross_check_snap(1_000, -500, 2_000, 1_500, 103);
    snap.home_power = 3_500;
    prev.home_power = 3_500;
    let (battery, grid, solar, home) =
        rate_rejected_state(1_000, -500, 2_000, 3_500, 1_000, -500, 2_000, 3_500);

    let restored = cross_validate_power_balance(&mut snap, &prev, battery, grid, solar, home);
    assert!(!restored, "balanced fields must not be touched");
}

#[test]
fn cross_check_does_nothing_when_small_residual() {
    let prev = cross_check_snap(0, 0, 500, 1_000, 100);
    let mut snap = cross_check_snap(0, 0, 500, 1_000, 103);
    let (b, g, s, h) = rate_rejected_state(
        0, 0, 500, 2_500,
        0, 0, 500, 1_000,
    );

    let restored = cross_validate_power_balance(&mut snap, &prev, b, g, s, h);
    assert!(
        !restored,
        "sub-threshold residual must not trigger restoration"
    );
    assert_eq!(snap.home_power, 1_000, "rate-rejected value must remain");
}

#[test]
fn cross_check_does_nothing_when_multiple_fields_disagree() {
    let prev = cross_check_snap(0, 0, 0, 5_000, 100);
    let mut snap = cross_check_snap(0, 0, 0, 5_000, 103);
    let (b, g, s, h) = rate_rejected_state(
        3_000, 2_000, 0, 5_000,
        0, 0, 0, 5_000,
    );

    let restored = cross_validate_power_balance(&mut snap, &prev, b, g, s, h);
    assert!(
        !restored,
        "no single field resolves — cross-check must not guess"
    );
    assert_eq!(snap.battery_power, 0, "rate-rejected value must remain");
    assert_eq!(snap.grid_power, 0, "rate-rejected value must remain");
}

#[test]
fn cross_check_does_nothing_when_no_candidate_moves() {
    let prev = cross_check_snap(1_000, 0, 0, 5_000, 100);
    let mut snap = cross_check_snap(1_000, 0, 0, 5_000, 103);
    let (b, g, s, h) = rate_rejected_state(
        1_000, 0, 0, 5_000,
        1_000, 0, 0, 5_000,
    );

    let restored = cross_validate_power_balance(&mut snap, &prev, b, g, s, h);
    assert!(
        !restored,
        "no movement means no candidate — must leave alone"
    );
}

#[test]
fn cross_check_skips_candidate_with_small_delta() {
    let prev = cross_check_snap(0, 0, 0, 5_000, 100);
    let mut snap = cross_check_snap(0, 0, 0, 5_000, 103);
    let (b, g, s, h) = rate_rejected_state(
        0, 500, 0, 5_000,
        0, 0, 0, 5_000,
    );

    let restored = cross_validate_power_balance(&mut snap, &prev, b, g, s, h);
    assert!(!restored, "sub-threshold candidate must be ignored");
    assert_eq!(snap.grid_power, 0, "rate-rejected value must remain");
}

#[test]
fn cross_check_restores_rate_rejected_home_power_end_to_end() {
    let mut prev = cross_check_snap(3_100, -5_800, 0, 1_165, 100);
    prev.device_type = DeviceType::Gen2Hybrid;
    let mut snap = cross_check_snap(3_100, -5_800, 0, 8_649, 103);
    snap.device_type = DeviceType::Gen2Hybrid;

    let mut pending_mode = None;
    let mut delta_corrections = DeltaCorrectionCounts::default();
    let mut suspect_counts = ConsecutiveSuspectCounts::default();

    let mut rate_release_counts = RateReleaseCounts::default();

    let sanitized = sanitize_snapshot(
        &mut snap,
        Some(&prev),
        false,
        &mut pending_mode,
        &mut delta_corrections,
        &mut suspect_counts,
        &mut rate_release_counts,
    );

    assert!(
        sanitized,
        "sanitize_snapshot must report a sanitization (the cross-check \
         did restore a field, which differs from raw)"
    );
    assert_eq!(
        snap.home_power, 8_649,
        "EV-charger home jump must be restored to raw value by cross-check"
    );
}

#[test]
fn cross_check_is_skipped_during_grace_period() {
    let mut prev = cross_check_snap(3_100, -5_800, 0, 1_165, 100);
    prev.device_type = DeviceType::Gen2Hybrid;
    let mut snap = cross_check_snap(3_100, -5_800, 0, 8_649, 103);
    snap.device_type = DeviceType::Gen2Hybrid;

    let mut pending_mode = None;
    let mut delta_corrections = DeltaCorrectionCounts::default();
    let mut suspect_counts = ConsecutiveSuspectCounts::default();

    let mut rate_release_counts = RateReleaseCounts::default();

    sanitize_snapshot(
        &mut snap,
        Some(&prev),
        true,
        &mut pending_mode,
        &mut delta_corrections,
        &mut suspect_counts,
        &mut rate_release_counts,
    );

    assert_eq!(
        snap.home_power, 1_165,
        "grace period must hold rate-rejected home at prev (no cross-check)"
    );
}

#[test]
fn cross_check_is_skipped_on_gateway_device() {
    let mut prev = cross_check_snap(3_100, -5_800, 0, 1_165, 100);
    prev.device_type = DeviceType::Gateway;
    let mut snap = cross_check_snap(3_100, -5_800, 0, 8_649, 103);
    snap.device_type = DeviceType::Gateway;

    let mut pending_mode = None;
    let mut delta_corrections = DeltaCorrectionCounts::default();
    let mut suspect_counts = ConsecutiveSuspectCounts::default();

    let mut rate_release_counts = RateReleaseCounts::default();

    sanitize_snapshot(
        &mut snap,
        Some(&prev),
        false,
        &mut pending_mode,
        &mut delta_corrections,
        &mut suspect_counts,
        &mut rate_release_counts,
    );

    assert!(
        snap.home_power == 1_165 || snap.home_power == 8_649,
        "gateway cross-check must not produce an unexpected value, got {}",
        snap.home_power
    );
}

#[test]
fn sanitize_rejects_pv1_spike_above_absolute_range() {
    let mut snap = base_grid_connected_snap();
    snap.today_pv1_kwh = q(1000.0);
    snap.today_pv2_kwh = q(5.0);
    sanitize_for_test(&mut snap, None);
    assert_eq!(
        snap.today_pv1_kwh, q(0.0),
        "PV1 above 200 kWh ceiling must be clamped to 0"
    );
    assert_eq!(snap.today_pv2_kwh, q(5.0), "PV2 untouched");
}

#[test]
fn sanitize_rejects_pv2_spike_above_absolute_range() {
    let mut snap = base_grid_connected_snap();
    snap.today_pv1_kwh = q(5.0);
    snap.today_pv2_kwh = q(500.0);
    sanitize_for_test(&mut snap, None);
    assert_eq!(snap.today_pv1_kwh, q(5.0));
    assert_eq!(
        snap.today_pv2_kwh, q(0.0),
        "PV2 above 200 kWh ceiling must be clamped to 0"
    );
}

#[test]
fn sanitize_rejects_per_string_rate_spike() {
    let mut prev = base_grid_connected_snap();
    prev.today_pv1_kwh = q(2.0);
    prev.timestamp = 100;
    let mut snap = prev.clone();
    snap.today_pv1_kwh = q(80.0);
    snap.timestamp = 103;
    let sanitized = sanitize_for_test(&mut snap, Some(&prev));
    assert!(sanitized, "rate spike must be flagged");
    assert_eq!(
        snap.today_pv1_kwh, q(2.0),
        "rate spike must hold at prev value"
    );
}

#[test]
fn sanitize_accepts_normal_per_string_increase() {
    let mut prev = base_grid_connected_snap();
    prev.today_pv1_kwh = q(2.0);
    prev.timestamp = 100;
    let mut snap = prev.clone();
    snap.today_pv1_kwh = q(2.3);
    snap.timestamp = 160;
    let sanitized = sanitize_for_test(&mut snap, Some(&prev));
    assert!(
        !sanitized || snap.today_pv1_kwh == q(2.3),
        "small legitimate increase must not be rejected"
    );
    assert!(
        snap.today_pv1_kwh == q(2.3) || snap.today_pv1_kwh == q(2.0),
        "got {:?}",
        snap.today_pv1_kwh
    );
}

#[test]
fn grace_period_median_taken_across_pv1_pv2_samples() {
    let samples = vec![
        GraceCumulativeSamples::from_snapshot(&InverterSnapshot {
            today_pv1_kwh: q(5.0),
            today_pv2_kwh: q(3.0),
            ..Default::default()
        }),
        GraceCumulativeSamples::from_snapshot(&InverterSnapshot {
            today_pv1_kwh: q(8_000.0),
            today_pv2_kwh: q(3.0),
            ..Default::default()
        }),
        GraceCumulativeSamples::from_snapshot(&InverterSnapshot {
            today_pv1_kwh: q(5.5),
            today_pv2_kwh: q(3.0),
            ..Default::default()
        }),
    ];
    let median = GraceCumulativeSamples::median(&samples);

    assert_eq!(median.today_pv1_kwh, Some(q(5.5)));
    assert_eq!(median.today_pv2_kwh, Some(q(3.0)));

    let mut snap = InverterSnapshot {
        today_pv1_kwh: q(8000.0),
        today_pv2_kwh: q(3.0),
        ..Default::default()
    };
    median.apply_to(&mut snap);
    assert_eq!(
        snap.today_pv1_kwh, q(5.5),
        "median must overwrite corrupted PV1"
    );
    assert_eq!(snap.today_pv2_kwh, q(3.0));
}


fn delta_snap(timestamp: i64, solar: f64) -> InverterSnapshot {
    InverterSnapshot {
        timestamp,
        today_solar_kwh: q(solar),
        battery_mode: BatteryMode::Eco,
        grid_voltage: q(230.0),
        grid_frequency: q(50.0),
        grid_online: true,
        soc: 50,
        battery_reserve: 4,
        inverter_time: String::from("2024-06-15 12:00:00"),
        ..Default::default()
    }
}

struct SeqSanitizer {
    pending_mode: Option<BatteryMode>,
    delta_corrections: DeltaCorrectionCounts,
    suspect_counts: ConsecutiveSuspectCounts,
    rate_release: RateReleaseCounts,
}

impl SeqSanitizer {
    fn new() -> Self {
        Self {
            pending_mode: None,
            delta_corrections: DeltaCorrectionCounts::default(),
            suspect_counts: ConsecutiveSuspectCounts::default(),
            rate_release: RateReleaseCounts::default(),
        }
    }

    fn run(&mut self, snap: &mut InverterSnapshot, prev: Option<&InverterSnapshot>) -> bool {
        sanitize_snapshot(
            snap,
            prev,
            false,
            &mut self.pending_mode,
            &mut self.delta_corrections,
            &mut self.suspect_counts,
            &mut self.rate_release,
        )
    }
}



#[test]
fn material_decrease_release_is_counted_then_counter_resets() {
    let mut sz = SeqSanitizer::new();

    let high = 50.0;
    let lower = 30.0;
    let prev0 = delta_snap(0, high);
    let mut last_snap = prev0.clone();

    for i in 1..DELTA_CORRECTION_RELEASE_THRESHOLD {
        let mut snap = delta_snap(i as i64 * 60, lower);
        let sanitized = sz.run(&mut snap, Some(&last_snap));
        assert!(sanitized, "cycle {i} must be flagged (held at prev)");
        assert_eq!(snap.today_solar_kwh, q(high), "cycle {i} must hold at high");
    }

    let mut snap = delta_snap(DELTA_CORRECTION_RELEASE_THRESHOLD as i64 * 60, lower);
    let released = sz.run(&mut snap, Some(&last_snap));
    assert!(!released, "release accepts raw, so sanitized must be false");
    assert_eq!(
        snap.today_solar_kwh, q(lower),
        "after {DELTA_CORRECTION_RELEASE_THRESHOLD} cycles the lower value must be accepted"
    );
    last_snap = delta_snap(DELTA_CORRECTION_RELEASE_THRESHOLD as i64 * 60, lower);

    let even_lower = 25.0;
    let mut snap = delta_snap((DELTA_CORRECTION_RELEASE_THRESHOLD as i64 + 1) * 60, even_lower);
    let sanitized = sz.run(&mut snap, Some(&last_snap));
    assert!(
        sanitized,
        "post-release a new decrease must start a fresh window (flagged, held)"
    );
    assert_eq!(snap.today_solar_kwh, q(lower), "held at the released baseline");
}
