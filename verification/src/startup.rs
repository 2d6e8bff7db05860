//! Start-up: command line, error page and the state restored from settings.
use crate::clock::{characters, number, parse_number};
use crate::counts::same_text;
use crate::quantity::Quantity;
use crate::state_machines::limiter::{LoadLimiterConfig, LoadLimiterState};
use crate::state_machines::winter::{AutoWinterConfig, AutoWinterSaved};
use vstd::prelude::*;
use vstd::string::*;

verus! {

/// The port of the web server where nothing else is asked for.
pub const DEFAULT_PORT: u16 = 7337;

/// What stands for a character in HTML text.
pub open spec fn escaped_char(c: char) -> Seq<char> {
    if c == '&' {
        "&amp;"@
    } else if c == '<' {
        "&lt;"@
    } else if c == '>' {
        "&gt;"@
    } else if c == '"' {
        "&quot;"@
    } else if c == '\'' {
        "&#39;"@
    } else {
        seq![c]
    }
}

/// What stands for a text in HTML text.
pub open spec fn escaped(text: Seq<char>) -> Seq<char>
    decreases text.len(),
{
    if text.len() == 0 {
        Seq::empty()
    } else {
        escaped(text.drop_last()) + escaped_char(text.last())
    }
}

/// Replaces the characters that mean something in HTML.
pub fn html_escape(input: &str) -> (r: String)
    ensures
        r@ == escaped(input@),
{
    let len: usize = input.unicode_len();
    let mut out: String = String::new();
    let mut i: usize = 0;
    assert(input@.take(0) =~= Seq::<char>::empty());
    while i < len
        invariant
            i <= len,
            len == input@.len(),
            out@ == escaped(input@.take(i as int)),
        decreases len - i,
    {
        let c: char = input.get_char(i);
        proof {
            let next = input@.take(i + 1);
            assert(next.drop_last() =~= input@.take(i as int));
            assert(next.last() == c);
            assert(input@.subrange(i as int, i + 1) =~= seq![c]);
        }
        if c == '&' {
            out.append("&amp;");
        } else if c == '<' {
            out.append("&lt;");
        } else if c == '>' {
            out.append("&gt;");
        } else if c == '"' {
            out.append("&quot;");
        } else if c == '\'' {
            out.append("&#39;");
        } else {
            out.append(input.substring_char(i, i + 1));
        }
        i += 1;
    }
    assert(input@.take(i as int) =~= input@);
    out
}

/// Whether a character closes or opens markup or a quoted attribute.
pub open spec fn markup(c: char) -> bool {
    c == '<' || c == '>' || c == '"' || c == '\''
}

/// Escaped text holds no markup.
pub proof fn law_escaped_text_is_inert(text: Seq<char>)
    ensures
        forall|i: int| 0 <= i < escaped(text).len() ==> !markup(#[trigger] escaped(text)[i]),
    decreases text.len(),
{
    if text.len() > 0 {
        law_escaped_text_is_inert(text.drop_last());
        reveal_strlit("&amp;");
        reveal_strlit("&lt;");
        reveal_strlit("&gt;");
        reveal_strlit("&quot;");
        reveal_strlit("&#39;");
        let head = escaped(text.drop_last());
        let tail = escaped_char(text.last());
        assert forall|i: int| 0 <= i < tail.len() implies !markup(#[trigger] tail[i]) by {}
        assert forall|i: int| 0 <= i < escaped(text).len() implies !markup(
            #[trigger] escaped(text)[i],
        ) by {
            if i < head.len() {
                assert(escaped(text)[i] == head[i]);
            } else {
                assert(escaped(text)[i] == tail[i - head.len()]);
            }
        }
    }
}

/// Whether the argument at `i` is the option and a value follows.
pub open spec fn option_at(args: Seq<String>, i: int, option: Seq<char>) -> bool {
    0 <= i && i + 1 < args.len() && args[i]@ == option
}

/// The port that the arguments from `i` on ask for.
pub open spec fn port_from(args: Seq<String>, i: int) -> u16
    decreases args.len() - i,
{
    if i >= args.len() {
        DEFAULT_PORT
    } else if option_at(args, i, "--port"@) && number(args[i + 1]@) is Some {
        number(args[i + 1]@)->0
    } else {
        port_from(args, i + 1)
    }
}

/// The path that the arguments from `i` on ask for.
pub open spec fn dist_from(args: Seq<String>, i: int) -> Option<Seq<char>>
    decreases args.len() - i,
{
    if i >= args.len() {
        None
    } else if option_at(args, i, "--dist"@) {
        Some(args[i + 1]@)
    } else {
        dist_from(args, i + 1)
    }
}

/// The port of the first `--port <N>` whose value is a port number; 7337 where
/// there is none.
pub fn parse_port(args: &[String]) -> (r: u16)
    ensures
        r == port_from(args@, 0),
{
    let mut i: usize = 0;
    while i < args.len()
        invariant
            i <= args.len(),
            port_from(args@, 0) == port_from(args@, i as int),
        decreases args.len() - i,
    {
        if same_text(args[i].as_str(), "--port") && i + 1 < args.len() {
            if let Some(port) = parse_number(&characters(args[i + 1].as_str())) {
                return port;
            }
        }
        i += 1;
    }
    DEFAULT_PORT
}

/// The value of the first `--dist <path>`.
pub fn parse_dist(args: &[String]) -> (r: Option<String>)
    ensures
        match r {
            Some(path) => dist_from(args@, 0) == Some(path@),
            None => dist_from(args@, 0) is None,
        },
{
    let mut i: usize = 0;
    while i < args.len()
        invariant
            i <= args.len(),
            dist_from(args@, 0) == dist_from(args@, i as int),
        decreases args.len() - i,
    {
        if same_text(args[i].as_str(), "--dist") && i + 1 < args.len() {
            return Some(args[i + 1].clone());
        }
        i += 1;
    }
    None
}

/// Whether an argument is `--port`.
pub open spec fn asks_for_port(args: Seq<String>) -> bool {
    exists|i: int| 0 <= i < args.len() && (#[trigger] args[i])@ == "--port"@
}

/// The port to serve on: the command line's where it names one, else that of
/// the settings.
pub fn headless_port(args: &[String], settings_port: u16) -> (r: u16)
    ensures
        r == if asks_for_port(args@) {
            port_from(args@, 0)
        } else {
            settings_port
        },
{
    let mut i: usize = 0;
    while i < args.len()
        invariant
            i <= args.len(),
            forall|j: int| 0 <= j < i ==> (#[trigger] args@[j])@ != "--port"@,
        decreases args.len() - i,
    {
        if same_text(args[i].as_str(), "--port") {
            return parse_port(args);
        }
        i += 1;
    }
    settings_port
}

/// Whether a path was given and is there.
pub open spec fn given_exists(given: Option<(String, bool)>) -> bool {
    given is Some && (given->Some_0).1
}

/// Chooses the directory of the web frontend: the one given on the command line
/// if it exists, else the first candidate that holds a frontend. Each path comes
/// with whether that is so.
pub fn choose_dist_dir(given: Option<(String, bool)>, candidates: Vec<(String, bool)>) -> (r:
    Option<String>)
    ensures
        if given_exists(given) {
            r is Some && r->0@ == (given->Some_0).0@
        } else {
            match r {
                Some(path) => exists|i: int|
                    0 <= i < candidates.len() && (#[trigger] candidates[i]).1 && path@
                        == candidates[i].0@ && forall|j: int|
                        0 <= j < i ==> !(#[trigger] candidates[j]).1,
                None => forall|i: int| 0 <= i < candidates.len() ==> !(#[trigger] candidates[i]).1,
            }
        },
{
    if let Some((path, exists_there)) = &given {
        if *exists_there {
            return Some(path.clone());
        }
    }
    let mut i: usize = 0;
    while i < candidates.len()
        invariant
            i <= candidates.len(),
            !given_exists(given),
            forall|j: int| 0 <= j < i ==> !(#[trigger] candidates[j]).1,
        decreases candidates.len() - i,
    {
        if candidates[i].1 {
            return Some(candidates[i].0.clone());
        }
        i += 1;
    }
    None
}

/// The settings that outlive a restart, as far as start-up needs them.
#[derive(Clone, Debug)]
pub struct PersistedSettings {
    pub host: String,
    pub port: u16,
    pub serial: String,
    pub poll_interval: u64,
    pub evc_host: String,
    pub evc_port: u16,
    pub auto_winter_enabled: bool,
    pub auto_winter_cold_threshold: Quantity,
    pub auto_winter_recovery_threshold: Quantity,
    pub auto_winter_target_soc: u8,
    pub auto_winter_debounce_readings: u32,
    pub auto_winter_saved_enable_target: Option<bool>,
    pub auto_winter_saved_target_soc: Option<u16>,
    pub load_limiter_enabled: bool,
    pub load_limiter_threshold_w: u32,
    pub load_limiter_trigger_delay_minutes: u32,
    pub load_limiter_start_hour: u8,
    pub load_limiter_start_minute: u8,
    pub load_limiter_end_hour: u8,
    pub load_limiter_end_minute: u8,
    pub load_limiter_active_persisted: bool,
}

/// How and where to poll.
#[derive(Clone, Debug)]
pub struct PollSettings {
    pub host: String,
    pub port: u16,
    pub serial: String,
    pub interval_secs: u64,
    pub evc_host: String,
    pub evc_port: u16,
}

/// The state that the settings restore.
#[derive(Clone, Debug)]
pub struct StartupState {
    pub poll: PollSettings,
    pub auto_winter: AutoWinterConfig,
    pub auto_winter_saved: Option<AutoWinterSaved>,
    pub load_limiter: LoadLimiterConfig,
    pub load_limiter_state: LoadLimiterState,
}

/// The charge target saved by auto-winter, if both halves of it were persisted.
pub open spec fn persisted_winter_target(settings: PersistedSettings) -> Option<AutoWinterSaved> {
    match (settings.auto_winter_saved_enable_target, settings.auto_winter_saved_target_soc) {
        (Some(enable), Some(target)) => Some(
            AutoWinterSaved { enable_charge_target: enable, target_soc: (target % 256) as u8 },
        ),
        _ => None,
    }
}

/// Restores the state from the settings. A load limiter that was pausing
/// discharge comes back as paused by a restart.
pub fn startup_state(settings: &PersistedSettings) -> (r: StartupState)
    ensures
        r.poll.host@ == settings.host@,
        r.poll.port == settings.port,
        r.poll.serial@ == settings.serial@,
        r.poll.interval_secs == settings.poll_interval,
        r.poll.evc_host@ == settings.evc_host@,
        r.poll.evc_port == settings.evc_port,
        r.auto_winter == (AutoWinterConfig {
            enabled: settings.auto_winter_enabled,
            cold_threshold: settings.auto_winter_cold_threshold,
            recovery_threshold: settings.auto_winter_recovery_threshold,
            target_soc: settings.auto_winter_target_soc,
            debounce_readings: settings.auto_winter_debounce_readings,
        }),
        r.auto_winter_saved == persisted_winter_target(*settings),
        r.load_limiter == (LoadLimiterConfig {
            enabled: settings.load_limiter_enabled,
            threshold_w: settings.load_limiter_threshold_w,
            trigger_delay_minutes: settings.load_limiter_trigger_delay_minutes,
            start_hour: settings.load_limiter_start_hour,
            start_minute: settings.load_limiter_start_minute,
            end_hour: settings.load_limiter_end_hour,
            end_minute: settings.load_limiter_end_minute,
        }),
        r.load_limiter_state == if settings.load_limiter_active_persisted {
            LoadLimiterState::PausedFromRestart
        } else {
            LoadLimiterState::Idle
        },
{
    StartupState {
        poll: PollSettings {
            host: settings.host.clone(),
            port: settings.port,
            serial: settings.serial.clone(),
            interval_secs: settings.poll_interval,
            evc_host: settings.evc_host.clone(),
            evc_port: settings.evc_port,
        },
        auto_winter: AutoWinterConfig {
            enabled: settings.auto_winter_enabled,
            cold_threshold: settings.auto_winter_cold_threshold,
            recovery_threshold: settings.auto_winter_recovery_threshold,
            target_soc: settings.auto_winter_target_soc,
            debounce_readings: settings.auto_winter_debounce_readings,
        },
        auto_winter_saved: match (
            settings.auto_winter_saved_enable_target,
            settings.auto_winter_saved_target_soc,
        ) {
            (Some(enable), Some(target)) => Some(
                AutoWinterSaved {
                    enable_charge_target: enable,
                    target_soc: (target % 256) as u8,
                },
            ),
            _ => None,
        },
        load_limiter: LoadLimiterConfig {
            enabled: settings.load_limiter_enabled,
            threshold_w: settings.load_limiter_threshold_w,
            trigger_delay_minutes: settings.load_limiter_trigger_delay_minutes,
            start_hour: settings.load_limiter_start_hour,
            start_minute: settings.load_limiter_start_minute,
            end_hour: settings.load_limiter_end_hour,
            end_minute: settings.load_limiter_end_minute,
        },
        load_limiter_state: if settings.load_limiter_active_persisted {
            LoadLimiterState::PausedFromRestart
        } else {
            LoadLimiterState::Idle
        },
    }
}

} // verus!
