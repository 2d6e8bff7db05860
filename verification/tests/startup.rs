use home_energy_manager::clock::{
    authoritative_minute_of_day, characters, inverter_minute_of_day, local_minute_now,
    minute_of_day, parse_number,
};
use home_energy_manager::model::InverterSnapshot;
use home_energy_manager::page::{
    startup_error_page, startup_error_script, window_script, BindOutcome,
};
use home_energy_manager::quantity::Quantity;
use home_energy_manager::startup::{
    choose_dist_dir, headless_port, html_escape, parse_dist, parse_port, startup_state,
    PersistedSettings,
};
use home_energy_manager::state_machines::limiter::LoadLimiterState;

fn args(list: &[&str]) -> Vec<String> {
    list.iter().map(|a| a.to_string()).collect()
}

fn q(value: f64) -> Quantity {
    Quantity::Nano((value * 1e9).round() as i64)
}

fn settings() -> PersistedSettings {
    PersistedSettings {
        host: String::new(),
        port: 8899,
        serial: String::new(),
        poll_interval: 3,
        evc_host: String::new(),
        evc_port: 502,
        auto_winter_enabled: false,
        auto_winter_cold_threshold: q(8.0),
        auto_winter_recovery_threshold: q(12.0),
        auto_winter_target_soc: 80,
        auto_winter_debounce_readings: 10,
        auto_winter_saved_enable_target: None,
        auto_winter_saved_target_soc: None,
        load_limiter_enabled: false,
        load_limiter_threshold_w: 3000,
        load_limiter_trigger_delay_minutes: 5,
        load_limiter_start_hour: 0,
        load_limiter_start_minute: 0,
        load_limiter_end_hour: 0,
        load_limiter_end_minute: 0,
        load_limiter_active_persisted: false,
    }
}

#[test]
fn initialize_app_state_applies_all_persisted_settings() {
    let mut s = settings();
    s.host = "10.0.0.99".to_string();
    s.port = 1234;
    s.serial = "SN-INIT-TEST".to_string();
    s.poll_interval = 42;
    s.evc_host = "evc.local".to_string();
    s.evc_port = 5020;
    s.auto_winter_enabled = true;
    s.auto_winter_cold_threshold = q(1.0);
    s.auto_winter_recovery_threshold = q(9.0);
    s.auto_winter_target_soc = 55;
    s.auto_winter_debounce_readings = 7;
    s.load_limiter_enabled = true;
    s.load_limiter_threshold_w = 3000;
    s.load_limiter_trigger_delay_minutes = 12;
    s.load_limiter_start_hour = 7;
    s.load_limiter_start_minute = 8;
    s.load_limiter_end_hour = 9;
    s.load_limiter_end_minute = 10;
    s.load_limiter_active_persisted = true;
    s.auto_winter_saved_enable_target = Some(true);
    s.auto_winter_saved_target_soc = Some(77);

    let state = startup_state(&s);

    assert_eq!(state.poll.host, "10.0.0.99");
    assert_eq!(state.poll.port, 1234);
    assert_eq!(state.poll.serial, "SN-INIT-TEST");
    assert_eq!(state.poll.interval_secs, 42);
    assert_eq!(state.poll.evc_host, "evc.local");
    assert_eq!(state.poll.evc_port, 5020);
    assert!(state.auto_winter.enabled);
    assert_eq!(state.auto_winter.cold_threshold, q(1.0));
    assert_eq!(state.auto_winter.recovery_threshold, q(9.0));
    assert_eq!(state.auto_winter.target_soc, 55);
    assert_eq!(state.auto_winter.debounce_readings, 7);
    let ll = state.load_limiter;
    assert!(ll.enabled);
    assert_eq!(ll.threshold_w, 3000);
    assert_eq!(ll.trigger_delay_minutes, 12);
    assert_eq!((ll.start_hour, ll.start_minute, ll.end_hour, ll.end_minute), (7, 8, 9, 10));
    assert_eq!(state.load_limiter_state, LoadLimiterState::PausedFromRestart);
    let saved = state.auto_winter_saved.expect("auto-winter saved should be restored");
    assert!(saved.enable_charge_target);
    assert_eq!(saved.target_soc, 77);
}

#[test]
fn initialize_app_state_leaves_defaults_when_unset() {
    let state = startup_state(&settings());
    assert!(state.auto_winter_saved.is_none(), "auto-winter saved should stay None");
    assert_eq!(state.load_limiter_state, LoadLimiterState::Idle);
}

#[test]
fn half_a_saved_winter_target_is_not_restored() {
    let mut s = settings();
    s.auto_winter_saved_target_soc = Some(77);
    assert!(startup_state(&s).auto_winter_saved.is_none());
    s.auto_winter_saved_target_soc = None;
    s.auto_winter_saved_enable_target = Some(true);
    assert!(startup_state(&s).auto_winter_saved.is_none());
}

#[test]
fn port_is_parsed_from_the_command_line() {
    assert_eq!(parse_port(&args(&[])), 7337);
    assert_eq!(parse_port(&args(&["--headless", "--port", "8080"])), 8080);
    assert_eq!(parse_port(&args(&["--port"])), 7337);
    assert_eq!(parse_port(&args(&["--port", "none", "--port", "99"])), 99);
    assert_eq!(parse_port(&args(&["--port", "65536"])), 7337);
    assert_eq!(parse_port(&args(&["--port", "+80"])), 80);
    assert_eq!(parse_port(&args(&["--port", "-80"])), 7337);
}

#[test]
fn dist_is_parsed_from_the_command_line() {
    assert_eq!(parse_dist(&args(&["--dist", "/srv/dist"])), Some("/srv/dist".to_string()));
    assert_eq!(parse_dist(&args(&["--dist"])), None);
    assert_eq!(parse_dist(&args(&["--headless"])), None);
}

#[test]
fn command_line_port_overrides_the_settings() {
    assert_eq!(headless_port(&args(&["--headless"]), 9000), 9000);
    assert_eq!(headless_port(&args(&["--port", "8080"]), 9000), 8080);
    assert_eq!(headless_port(&args(&["--port", "7337"]), 9000), 7337);
    assert_eq!(headless_port(&args(&["--port", "junk"]), 9000), 7337);
}

#[test]
fn dist_directory_is_the_first_that_exists() {
    let candidates = || {
        vec![
            ("dist".to_string(), false),
            ("/opt/app/dist".to_string(), true),
            ("/usr/share/dist".to_string(), true),
        ]
    };
    assert_eq!(
        choose_dist_dir(Some(("/given".to_string(), true)), candidates()),
        Some("/given".to_string())
    );
    assert_eq!(
        choose_dist_dir(Some(("/given".to_string(), false)), candidates()),
        Some("/opt/app/dist".to_string())
    );
    assert_eq!(choose_dist_dir(None, candidates()), Some("/opt/app/dist".to_string()));
    assert_eq!(choose_dist_dir(None, vec![("dist".to_string(), false)]), None);
}

#[test]
fn html_is_escaped() {
    assert_eq!(
        html_escape("<a href=\"x\">Tom & 'Jerry'</a>"),
        "&lt;a href=&quot;x&quot;&gt;Tom &amp; &#39;Jerry&#39;&lt;/a&gt;"
    );
    assert_eq!(html_escape("&lt;"), "&amp;lt;");
    assert_eq!(html_escape("plain é"), "plain é");
    assert_eq!(html_escape(""), "");
}

#[test]
fn error_script_quotes_the_page() {
    let page = startup_error_page("bind \"failed\"\n<7337>\u{1}");
    assert!(page.starts_with("<main style=\"font-family"));
    assert!(page.ends_with("</main>"));
    assert!(page.contains(">bind &quot;failed&quot;\n&lt;7337&gt;\u{1}</pre>"));

    let script = startup_error_script("bind \"failed\"\n<7337>\u{1}\\");
    assert!(script.starts_with("document.body.innerHTML = \"<main style=\\\"font-family"));
    assert!(script.ends_with("</main>\";"));
    assert!(script.contains(">bind &quot;failed&quot;\\n&lt;7337&gt;\\u0001\\\\</pre>\\n"));
    assert!(!script.contains('\n'));
}

#[test]
fn window_goes_to_the_server_or_shows_why_not() {
    assert_eq!(
        window_script(&BindOutcome::Bound(7338)),
        "window.location.replace('http://127.0.0.1:7338')"
    );
    assert_eq!(
        window_script(&BindOutcome::Bound(65535)),
        "window.location.replace('http://127.0.0.1:65535')"
    );
    assert_eq!(
        window_script(&BindOutcome::Refused("in use".to_string())),
        startup_error_script("in use")
    );
    assert_eq!(
        window_script(&BindOutcome::TimedOut("channel closed".to_string())),
        startup_error_script("Timed out waiting for embedded HTTP server to bind: channel closed")
    );
}

fn at(time: &str) -> InverterSnapshot {
    InverterSnapshot { inverter_time: time.to_string(), ..Default::default() }
}

#[test]
fn clock_text_is_read_by_its_second_word() {
    assert_eq!(inverter_minute_of_day(&at("2026-08-29 00:00:00")), Some(0));
    assert_eq!(inverter_minute_of_day(&at("2026-08-29 23:59")), Some(1439));
    assert_eq!(inverter_minute_of_day(&at("x 7:5:y z")), Some(425));
    assert_eq!(inverter_minute_of_day(&at("x +7:+05")), Some(425));
    assert_eq!(inverter_minute_of_day(&at("16:05")), None);
    assert_eq!(inverter_minute_of_day(&at("x 16")), None);
    assert_eq!(inverter_minute_of_day(&at("x  16:05")), None);
    assert_eq!(inverter_minute_of_day(&at("x 24:00")), None);
    assert_eq!(inverter_minute_of_day(&at("x 12:60")), None);
    assert_eq!(inverter_minute_of_day(&at("x 12:")), None);
    assert_eq!(inverter_minute_of_day(&at("x 99999:00")), None);
    assert_eq!(authoritative_minute_of_day(&at("x 24:00"), 30), 30);
}

#[test]
fn numbers_are_decimal_and_sixteen_bits() {
    let number = |text: &str| parse_number(&characters(text));
    assert_eq!(number("0"), Some(0));
    assert_eq!(number("0065535"), Some(65535));
    assert_eq!(number("65536"), None);
    assert_eq!(number("100000000000000000000000"), None);
    assert_eq!(number(""), None);
    assert_eq!(number("+"), None);
    assert_eq!(number("++1"), None);
    assert_eq!(number("1 "), None);
    assert_eq!(number("٣"), None);
}

#[test]
fn clock_times_have_a_minute_of_the_day() {
    assert_eq!(minute_of_day(0, 0), 0);
    assert_eq!(minute_of_day(7, 5), 425);
    assert_eq!(minute_of_day(23, 59), 1439);
}

#[test]
fn host_clock_gives_a_minute_of_the_day() {
    assert!(local_minute_now() < 1440);
}
