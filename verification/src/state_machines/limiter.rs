//! Safety limiters that pause battery discharge: on high load, and on a hot
//! inverter.
use crate::clock::local_minute_now;
use crate::model::{
    clock_minutes, daily_window, in_daily_window, three_phase_family, BatteryMode, DeviceType,
    InverterSnapshot,
};
use crate::quantity::{whole, Quantity};
use crate::registers::{
    setting, RegisterWrite, HR_3PH_BATTERY_SOC_RESERVE, HR_3PH_FORCE_DISCHARGE_ENABLE,
    HR_BATTERY_POWER_MODE, HR_BATTERY_SOC_RESERVE, HR_ENABLE_DISCHARGE,
};
use crate::state_machines::winter::writes_view;
use vstd::prelude::*;

verus! {

/// The battery reserve before a limiter paused discharge.
#[derive(Clone, Copy, Debug, PartialEq, Eq, Structural)]
pub struct LoadLimiterSaved {
    pub reserve: u16,
}

/// The writes that select Eco without scheduled discharge and set the reserve:
/// 100 % pauses discharge, the previous reserve resumes it.
pub open spec fn pause_writes(device_type: DeviceType, reserve: u16) -> Seq<RegisterWrite> {
    if three_phase_family(device_type) {
        seq![
            setting(HR_BATTERY_POWER_MODE, 1),
            setting(HR_ENABLE_DISCHARGE, 0),
            setting(HR_3PH_FORCE_DISCHARGE_ENABLE, 0),
            setting(HR_3PH_BATTERY_SOC_RESERVE, reserve),
        ]
    } else {
        seq![
            setting(HR_BATTERY_POWER_MODE, 1),
            setting(HR_ENABLE_DISCHARGE, 0),
            setting(HR_BATTERY_SOC_RESERVE, reserve),
        ]
    }
}

/// The reserve to return to: what was saved, or the lowest.
pub open spec fn reserve_to_restore(saved: Option<LoadLimiterSaved>) -> u16 {
    match saved {
        Some(s) => s.reserve,
        None => 4,
    }
}

/// The saved reserve after a limiter took over: the first limiter's, unless the
/// reading is that of a pause.
pub open spec fn captured(saved: Option<LoadLimiterSaved>, reserve: u8) -> Option<
    LoadLimiterSaved,
> {
    if saved is None && 4 <= reserve < 100 {
        Some(LoadLimiterSaved { reserve: reserve as u16 })
    } else {
        saved
    }
}

/// The mathematical decision of a limiter.
pub struct LimiterStep<S> {
    pub state: S,
    pub saved: Option<LoadLimiterSaved>,
    pub writes: Option<Seq<RegisterWrite>>,
}

/// A step without writes.
pub open spec fn held_off<S>(state: S, saved: Option<LoadLimiterSaved>) -> LimiterStep<S> {
    LimiterStep { state, saved, writes: None }
}

/// A step that pauses discharge.
pub open spec fn pausing<S>(
    state: S,
    saved: Option<LoadLimiterSaved>,
    device_type: DeviceType,
) -> LimiterStep<S> {
    LimiterStep { state, saved, writes: Some(pause_writes(device_type, 100)) }
}

/// State of the load limiter.
#[derive(Clone, Copy, Debug, PartialEq, Eq, Structural)]
pub enum LoadLimiterState {
    /// Discharge is not paused.
    Idle,
    /// High load for this many polls in a row.
    HighLoadPending { consecutive: u32 },
    /// Discharge is paused.
    Paused,
    /// Discharge was paused when the process last ran; it resumes once the load
    /// is low, and until that is read back.
    PausedFromRestart,
    /// Low load for this many polls in a row; discharge is still paused.
    LowLoadPending { consecutive: u32 },
}

impl LoadLimiterState {
    /// Whether the limiter owns a pause.
    pub open spec fn pauses(self) -> bool {
        self is Paused || self is PausedFromRestart || self is LowLoadPending
    }

    /// Whether the poll counter has room to grow.
    pub open spec fn can_count(self) -> bool {
        match self {
            LoadLimiterState::HighLoadPending { consecutive } => consecutive < u32::MAX,
            LoadLimiterState::LowLoadPending { consecutive } => consecutive < u32::MAX,
            _ => true,
        }
    }

    /// Whether the limiter owns a pause, which lasts until the writes that end
    /// it are issued.
    pub fn is_actively_pausing(&self) -> (r: bool)
        ensures
            r == self.pauses(),
    {
        matches!(
            self,
            LoadLimiterState::Paused
                | LoadLimiterState::PausedFromRestart
                | LoadLimiterState::LowLoadPending { .. }
        )
    }
}

impl Default for LoadLimiterState {
    fn default() -> (r: LoadLimiterState)
        ensures
            r == LoadLimiterState::Idle,
    {
        LoadLimiterState::Idle
    }
}

/// Configuration of the load limiter.
#[derive(Clone, Copy, Debug, PartialEq, Eq, Structural)]
pub struct LoadLimiterConfig {
    pub enabled: bool,
    /// Home power (W) above which the load is high.
    pub threshold_w: u32,
    /// How long the load must stay high, or low, before anything changes.
    pub trigger_delay_minutes: u32,
    pub start_hour: u8,
    pub start_minute: u8,
    pub end_hour: u8,
    pub end_minute: u8,
}

impl Default for LoadLimiterConfig {
    fn default() -> (r: LoadLimiterConfig)
        ensures
            r == (LoadLimiterConfig {
                enabled: false,
                threshold_w: 3000,
                trigger_delay_minutes: 5,
                start_hour: 0,
                start_minute: 0,
                end_hour: 0,
                end_minute: 0,
            }),
    {
        LoadLimiterConfig {
            enabled: false,
            threshold_w: 3000,
            trigger_delay_minutes: 5,
            start_hour: 0,
            start_minute: 0,
            end_hour: 0,
            end_minute: 0,
        }
    }
}

impl LoadLimiterConfig {
    /// Whether the limiter watches at any time of day.
    pub open spec fn always(self) -> bool {
        clock_minutes(self.start_hour, self.start_minute) == 0 && clock_minutes(
            self.end_hour,
            self.end_minute,
        ) == 0
    }

    /// Whether the limiter watches at the minute.
    pub open spec fn watches(self, now: int) -> bool {
        self.always() || daily_window(
            clock_minutes(self.start_hour, self.start_minute),
            clock_minutes(self.end_hour, self.end_minute),
            now,
        )
    }

    /// How many polls in a row the delay takes, rounded up.
    pub open spec fn delay_polls(self, poll_interval_secs: int) -> int {
        if poll_interval_secs == 0 {
            self.trigger_delay_minutes as int
        } else {
            (self.trigger_delay_minutes * 60 + poll_interval_secs - 1) / poll_interval_secs
        }
    }
}

/// The step that gives a pause up: discharge resumes unless another limiter
/// still wants the pause.
pub open spec fn release_load(
    snap: InverterSnapshot,
    saved: Option<LoadLimiterSaved>,
    other_active: bool,
) -> LimiterStep<LoadLimiterState> {
    if other_active {
        held_off(LoadLimiterState::Idle, saved)
    } else {
        LimiterStep {
            state: LoadLimiterState::Idle,
            saved: None,
            writes: Some(pause_writes(snap.device_type, reserve_to_restore(saved))),
        }
    }
}

/// One poll of the load limiter.
pub open spec fn load_step(
    snap: InverterSnapshot,
    config: LoadLimiterConfig,
    state: LoadLimiterState,
    poll_interval_secs: int,
    saved: Option<LoadLimiterSaved>,
    now: int,
    other_active: bool,
) -> LimiterStep<LoadLimiterState> {
    let high = snap.home_power > config.threshold_w;
    let delay = config.delay_polls(poll_interval_secs);
    if !config.enabled || !config.watches(now) {
        if state.pauses() {
            release_load(snap, saved, other_active)
        } else {
            held_off(LoadLimiterState::Idle, saved)
        }
    } else {
        match state {
            LoadLimiterState::Idle => held_off(
                if high {
                    LoadLimiterState::HighLoadPending { consecutive: 1 }
                } else {
                    state
                },
                saved,
            ),
            LoadLimiterState::HighLoadPending { consecutive } => if !high {
                held_off(LoadLimiterState::Idle, saved)
            } else if consecutive + 1 < delay {
                held_off(
                    LoadLimiterState::HighLoadPending { consecutive: (consecutive + 1) as u32 },
                    saved,
                )
            } else if other_active {
                held_off(LoadLimiterState::Paused, captured(saved, snap.battery_reserve))
            } else {
                pausing(
                    LoadLimiterState::Paused,
                    captured(saved, snap.battery_reserve),
                    snap.device_type,
                )
            },
            LoadLimiterState::Paused => if !high {
                held_off(LoadLimiterState::LowLoadPending { consecutive: 1 }, saved)
            } else if snap.battery_mode != BatteryMode::EcoPaused {
                pausing(state, saved, snap.device_type)
            } else {
                held_off(state, saved)
            },
            LoadLimiterState::PausedFromRestart => if snap.battery_mode == BatteryMode::Eco {
                held_off(
                    LoadLimiterState::Idle,
                    if other_active {
                        saved
                    } else {
                        None
                    },
                )
            } else if high {
                if snap.battery_mode != BatteryMode::EcoPaused {
                    pausing(LoadLimiterState::Paused, saved, snap.device_type)
                } else {
                    held_off(LoadLimiterState::Paused, saved)
                }
            } else if other_active {
                held_off(LoadLimiterState::Idle, saved)
            } else {
                LimiterStep {
                    state,
                    saved,
                    writes: Some(pause_writes(snap.device_type, reserve_to_restore(saved))),
                }
            },
            LoadLimiterState::LowLoadPending { consecutive } => if high {
                held_off(LoadLimiterState::Paused, saved)
            } else if consecutive + 1 < delay {
                held_off(
                    LoadLimiterState::LowLoadPending { consecutive: (consecutive + 1) as u32 },
                    saved,
                )
            } else {
                release_load(snap, saved, other_active)
            },
        }
    }
}

/// The writes that pause discharge, or resume it with the given reserve.
pub fn discharge_pause_writes(device_type: DeviceType, reserve: u16) -> (r: Vec<RegisterWrite>)
    ensures
        r@ == pause_writes(device_type, reserve),
{
    let mut writes: Vec<RegisterWrite> = vec![
        RegisterWrite { address: HR_BATTERY_POWER_MODE, value: 1 },
        RegisterWrite { address: HR_ENABLE_DISCHARGE, value: 0 },
    ];
    if device_type.uses_three_phase_schedule_slots() {
        writes.push(RegisterWrite { address: HR_3PH_FORCE_DISCHARGE_ENABLE, value: 0 });
        writes.push(RegisterWrite { address: HR_3PH_BATTERY_SOC_RESERVE, value: reserve });
    } else {
        writes.push(RegisterWrite { address: HR_BATTERY_SOC_RESERVE, value: reserve });
    }
    assert(writes@ =~= pause_writes(device_type, reserve));
    writes
}

/// Gives up a pause that limiters share: discharge resumes, with the reserve
/// that was saved, unless another limiter still wants the pause.
pub fn release_shared_discharge_pause(
    snap: &InverterSnapshot,
    saved: &mut Option<LoadLimiterSaved>,
    other_active: bool,
) -> (r: Option<Vec<RegisterWrite>>)
    ensures
        writes_view(r) == release_load(*snap, *old(saved), other_active).writes,
        *final(saved) == release_load(*snap, *old(saved), other_active).saved,
{
    if other_active {
        None
    } else {
        let reserve: u16 = match *saved {
            Some(s) => s.reserve,
            None => 4,
        };
        *saved = None;
        Some(discharge_pause_writes(snap.device_type, reserve))
    }
}

/// Saves the reserve when a limiter takes over.
fn capture_reserve(saved: &mut Option<LoadLimiterSaved>, reserve: u8)
    ensures
        *final(saved) == captured(*old(saved), reserve),
{
    if saved.is_none() && reserve >= 4 && reserve < 100 {
        *saved = Some(LoadLimiterSaved { reserve: reserve as u16 });
    }
}

/// Evaluates the load limiter at the present minute of the host's local time,
/// where no other limiter pauses discharge.
pub fn check_load_limiter(
    snap: &InverterSnapshot,
    config: &LoadLimiterConfig,
    state: &mut LoadLimiterState,
    poll_interval_secs: u64,
    saved: &mut Option<LoadLimiterSaved>,
) -> (r: Option<Vec<RegisterWrite>>)
    requires
        old(state).can_count(),
    ensures
        exists|now: int|
            0 <= now < 1440 && {
                let step = #[trigger] load_step(
                    *snap,
                    *config,
                    *old(state),
                    poll_interval_secs as int,
                    *old(saved),
                    now,
                    false,
                );
                &&& *final(state) == step.state
                &&& *final(saved) == step.saved
                &&& writes_view(r) == step.writes
            },
{
    check_load_limiter_with_other_pause(snap, config, state, poll_interval_secs, saved, false)
}

/// Evaluates the load limiter at the present minute of the host's local time.
pub fn check_load_limiter_with_other_pause(
    snap: &InverterSnapshot,
    config: &LoadLimiterConfig,
    state: &mut LoadLimiterState,
    poll_interval_secs: u64,
    saved: &mut Option<LoadLimiterSaved>,
    other_active: bool,
) -> (r: Option<Vec<RegisterWrite>>)
    requires
        old(state).can_count(),
    ensures
        exists|now: int|
            0 <= now < 1440 && {
                let step = #[trigger] load_step(
                    *snap,
                    *config,
                    *old(state),
                    poll_interval_secs as int,
                    *old(saved),
                    now,
                    other_active,
                );
                &&& *final(state) == step.state
                &&& *final(saved) == step.saved
                &&& writes_view(r) == step.writes
            },
{
    let now: u16 = local_minute_now();
    check_load_limiter_at(snap, config, state, poll_interval_secs, saved, now, other_active)
}

/// Evaluates the load limiter at a minute of the day. Returns the writes to
/// issue, if any.
///
/// Load above the threshold for the configured time pauses discharge, load
/// below it for the same time resumes it. `other_active` tells that another
/// limiter wants the pause.
pub fn check_load_limiter_at(
    snap: &InverterSnapshot,
    config: &LoadLimiterConfig,
    state: &mut LoadLimiterState,
    poll_interval_secs: u64,
    saved: &mut Option<LoadLimiterSaved>,
    now_minutes: u16,
    other_active: bool,
) -> (r: Option<Vec<RegisterWrite>>)
    requires
        old(state).can_count(),
    ensures
        ({
            let step = load_step(
                *snap,
                *config,
                *old(state),
                poll_interval_secs as int,
                *old(saved),
                now_minutes as int,
                other_active,
            );
            &&& *final(state) == step.state
            &&& *final(saved) == step.saved
            &&& writes_view(r) == step.writes
        }),
{
    let start: u16 = config.start_hour as u16 * 60 + config.start_minute as u16;
    let end: u16 = config.end_hour as u16 * 60 + config.end_minute as u16;
    let watching: bool = (start == 0 && end == 0) || in_daily_window(start, end, now_minutes);
    if !config.enabled || !watching {
        let paused: bool = state.is_actively_pausing();
        *state = LoadLimiterState::Idle;
        if paused {
            return release_shared_discharge_pause(snap, saved, other_active);
        }
        return None;
    }
    let high: bool = snap.home_power as i64 > config.threshold_w as i64;
    let delay: u128 = if poll_interval_secs == 0 {
        config.trigger_delay_minutes as u128
    } else {
        (config.trigger_delay_minutes as u128 * 60 + poll_interval_secs as u128 - 1)
            / poll_interval_secs as u128
    };
    assert(delay == config.delay_polls(poll_interval_secs as int));
    match *state {
        LoadLimiterState::Idle => {
            if high {
                *state = LoadLimiterState::HighLoadPending { consecutive: 1 };
            }
            None
        },
        LoadLimiterState::HighLoadPending { consecutive } => {
            if !high {
                *state = LoadLimiterState::Idle;
                return None;
            }
            let count: u32 = consecutive + 1;
            if (count as u128) < delay {
                *state = LoadLimiterState::HighLoadPending { consecutive: count };
                return None;
            }
            *state = LoadLimiterState::Paused;
            capture_reserve(saved, snap.battery_reserve);
            if other_active {
                None
            } else {
                Some(discharge_pause_writes(snap.device_type, 100))
            }
        },
        LoadLimiterState::Paused => {
            if !high {
                *state = LoadLimiterState::LowLoadPending { consecutive: 1 };
                None
            } else if snap.battery_mode != BatteryMode::EcoPaused {
                Some(discharge_pause_writes(snap.device_type, 100))
            } else {
                None
            }
        },
        LoadLimiterState::PausedFromRestart => {
            if snap.battery_mode == BatteryMode::Eco {
                if !other_active {
                    *saved = None;
                }
                *state = LoadLimiterState::Idle;
                return None;
            }
            if high {
                *state = LoadLimiterState::Paused;
                if snap.battery_mode != BatteryMode::EcoPaused {
                    return Some(discharge_pause_writes(snap.device_type, 100));
                }
                return None;
            }
            if other_active {
                *state = LoadLimiterState::Idle;
                return None;
            }
            let reserve: u16 = match *saved {
                Some(s) => s.reserve,
                None => 4,
            };
            Some(discharge_pause_writes(snap.device_type, reserve))
        },
        LoadLimiterState::LowLoadPending { consecutive } => {
            if high {
                *state = LoadLimiterState::Paused;
                return None;
            }
            let count: u32 = consecutive + 1;
            if (count as u128) < delay {
                *state = LoadLimiterState::LowLoadPending { consecutive: count };
                return None;
            }
            *state = LoadLimiterState::Idle;
            release_shared_discharge_pause(snap, saved, other_active)
        },
    }
}

/// State of the temperature limiter.
#[derive(Clone, Copy, Debug, PartialEq, Eq, Structural)]
pub enum TemperatureLimiterState {
    /// Discharge is not paused.
    Idle,
    /// Hot for this many polls in a row.
    HighPending { consecutive: u32 },
    /// Discharge is paused.
    Paused,
    /// Discharge is to resume, which is not yet read back; also the state after
    /// a restart while paused.
    PausedFromRestart,
    /// Cool for this many polls in a row; discharge is still paused.
    CoolingPending { consecutive: u32 },
}

impl TemperatureLimiterState {
    /// Whether the limiter owns a pause.
    pub open spec fn pauses(self) -> bool {
        self is Paused || self is PausedFromRestart || self is CoolingPending
    }

    /// Whether the poll counter has room to grow.
    pub open spec fn can_count(self) -> bool {
        match self {
            TemperatureLimiterState::HighPending { consecutive } => consecutive < u32::MAX,
            TemperatureLimiterState::CoolingPending { consecutive } => consecutive < u32::MAX,
            _ => true,
        }
    }

    /// Whether the limiter owns a pause.
    pub fn is_actively_pausing(&self) -> (r: bool)
        ensures
            r == self.pauses(),
    {
        matches!(
            self,
            TemperatureLimiterState::Paused
                | TemperatureLimiterState::PausedFromRestart
                | TemperatureLimiterState::CoolingPending { .. }
        )
    }
}

impl Default for TemperatureLimiterState {
    fn default() -> (r: TemperatureLimiterState)
        ensures
            r == TemperatureLimiterState::Idle,
    {
        TemperatureLimiterState::Idle
    }
}

/// Configuration of the temperature limiter.
#[derive(Clone, Copy, Debug, PartialEq, Eq, Structural)]
pub struct TemperatureLimiterConfig {
    pub enabled: bool,
    /// From this inverter temperature (degrees Celsius) on it is hot.
    pub high_threshold: Quantity,
    /// Up to this inverter temperature it is cool.
    pub recovery_threshold: Quantity,
    /// Consecutive readings required in either direction.
    pub confirmation_readings: u32,
}

impl Default for TemperatureLimiterConfig {
    fn default() -> (r: TemperatureLimiterConfig)
        ensures
            r == (TemperatureLimiterConfig {
                enabled: false,
                high_threshold: whole(60),
                recovery_threshold: whole(55),
                confirmation_readings: 3,
            }),
    {
        TemperatureLimiterConfig {
            enabled: false,
            high_threshold: Quantity::units(60),
            recovery_threshold: Quantity::units(55),
            confirmation_readings: 3,
        }
    }
}

impl TemperatureLimiterConfig {
    /// The first thing that is wrong with the configuration.
    pub open spec fn fault(self) -> Option<Seq<char>> {
        if !(whole(30).le(self.high_threshold) && self.high_threshold.le(whole(90))) {
            Some("High threshold must be between 30°C and 90°C"@)
        } else if !(whole(20).le(self.recovery_threshold) && self.recovery_threshold.lt(
            whole(90),
        )) {
            Some("Recovery threshold must be between 20°C and 89°C"@)
        } else if self.high_threshold.le(self.recovery_threshold) {
            Some("Recovery threshold must be below the high threshold"@)
        } else if !(1 <= self.confirmation_readings <= 30) {
            Some("Confirmation readings must be between 1 and 30"@)
        } else {
            None
        }
    }

    /// Checks the thresholds and the number of readings.
    pub fn validate(&self) -> (r: Result<(), String>)
        ensures
            match r {
                Ok(_) => self.fault() is None,
                Err(e) => self.fault() == Some(e@),
            },
    {
        if !(Quantity::units(30).at_most(self.high_threshold) && self.high_threshold.at_most(
            Quantity::units(90),
        )) {
            return Err("High threshold must be between 30°C and 90°C".to_owned());
        }
        if !(Quantity::units(20).at_most(self.recovery_threshold)
            && self.recovery_threshold.below(Quantity::units(90))) {
            return Err("Recovery threshold must be between 20°C and 89°C".to_owned());
        }
        if self.high_threshold.at_most(self.recovery_threshold) {
            return Err("Recovery threshold must be below the high threshold".to_owned());
        }
        if self.confirmation_readings < 1 || self.confirmation_readings > 30 {
            return Err("Confirmation readings must be between 1 and 30".to_owned());
        }
        Ok(())
    }
}

/// The step that ends a thermal pause: discharge resumes, which is retried until
/// it is read back, unless another limiter still wants the pause.
pub open spec fn release_heat(
    snap: InverterSnapshot,
    saved: Option<LoadLimiterSaved>,
    other_active: bool,
) -> LimiterStep<TemperatureLimiterState> {
    if other_active {
        held_off(TemperatureLimiterState::Idle, saved)
    } else {
        LimiterStep {
            state: TemperatureLimiterState::PausedFromRestart,
            saved,
            writes: Some(pause_writes(snap.device_type, reserve_to_restore(saved))),
        }
    }
}

/// A step that keeps a thermal pause, writing it again where it was lifted or
/// may have been.
pub open spec fn keep_paused(
    state: TemperatureLimiterState,
    snap: InverterSnapshot,
    saved: Option<LoadLimiterSaved>,
    reassert_pause: bool,
) -> LimiterStep<TemperatureLimiterState> {
    if reassert_pause || snap.battery_mode != BatteryMode::EcoPaused {
        pausing(state, saved, snap.device_type)
    } else {
        held_off(state, saved)
    }
}

/// One poll of the temperature limiter.
pub open spec fn heat_step(
    snap: InverterSnapshot,
    config: TemperatureLimiterConfig,
    state: TemperatureLimiterState,
    saved: Option<LoadLimiterSaved>,
    other_active: bool,
    reassert_pause: bool,
) -> LimiterStep<TemperatureLimiterState> {
    let hot = config.high_threshold.le(snap.inverter_temperature);
    let cool = snap.inverter_temperature.le(config.recovery_threshold);
    if !config.enabled {
        if !state.pauses() {
            held_off(TemperatureLimiterState::Idle, saved)
        } else if state is PausedFromRestart && snap.battery_mode == BatteryMode::Eco
            && !other_active {
            held_off(TemperatureLimiterState::Idle, None)
        } else {
            release_heat(snap, saved, other_active)
        }
    } else if snap.inverter_temperature is Nan {
        held_off(state, saved)
    } else {
        match state {
            TemperatureLimiterState::Idle => if !hot {
                held_off(state, saved)
            } else if config.confirmation_readings == 1 {
                pausing(
                    TemperatureLimiterState::Paused,
                    captured(saved, snap.battery_reserve),
                    snap.device_type,
                )
            } else {
                held_off(TemperatureLimiterState::HighPending { consecutive: 1 }, saved)
            },
            TemperatureLimiterState::HighPending { consecutive } => if !hot {
                held_off(TemperatureLimiterState::Idle, saved)
            } else if consecutive + 1 >= config.confirmation_readings {
                pausing(
                    TemperatureLimiterState::Paused,
                    captured(saved, snap.battery_reserve),
                    snap.device_type,
                )
            } else {
                held_off(
                    TemperatureLimiterState::HighPending { consecutive: (consecutive + 1) as u32 },
                    saved,
                )
            },
            TemperatureLimiterState::Paused => if cool && config.confirmation_readings == 1 {
                release_heat(snap, saved, other_active)
            } else {
                keep_paused(
                    if cool {
                        TemperatureLimiterState::CoolingPending { consecutive: 1 }
                    } else {
                        state
                    },
                    snap,
                    saved,
                    reassert_pause,
                )
            },
            TemperatureLimiterState::PausedFromRestart => if !cool {
                keep_paused(TemperatureLimiterState::Paused, snap, saved, reassert_pause)
            } else if other_active {
                held_off(TemperatureLimiterState::Idle, saved)
            } else if snap.battery_mode == BatteryMode::Eco {
                held_off(TemperatureLimiterState::Idle, None)
            } else {
                LimiterStep {
                    state,
                    saved,
                    writes: Some(pause_writes(snap.device_type, reserve_to_restore(saved))),
                }
            },
            TemperatureLimiterState::CoolingPending { consecutive } => if cool && consecutive + 1
                >= config.confirmation_readings {
                release_heat(snap, saved, other_active)
            } else {
                keep_paused(
                    if cool {
                        TemperatureLimiterState::CoolingPending {
                            consecutive: (consecutive + 1) as u32,
                        }
                    } else {
                        TemperatureLimiterState::Paused
                    },
                    snap,
                    saved,
                    reassert_pause,
                )
            },
        }
    }
}

/// Ends a thermal pause.
fn release_thermal_pause(
    snap: &InverterSnapshot,
    state: &mut TemperatureLimiterState,
    saved: &Option<LoadLimiterSaved>,
    other_active: bool,
) -> (r: Option<Vec<RegisterWrite>>)
    ensures
        *final(state) == release_heat(*snap, *saved, other_active).state,
        writes_view(r) == release_heat(*snap, *saved, other_active).writes,
{
    if other_active {
        *state = TemperatureLimiterState::Idle;
        None
    } else {
        *state = TemperatureLimiterState::PausedFromRestart;
        let reserve: u16 = match *saved {
            Some(s) => s.reserve,
            None => 4,
        };
        Some(discharge_pause_writes(snap.device_type, reserve))
    }
}

/// The writes that keep a thermal pause.
fn reassert(snap: &InverterSnapshot, reassert_pause: bool) -> (r: Option<Vec<RegisterWrite>>)
    ensures
        writes_view(r) == if reassert_pause || snap.battery_mode != BatteryMode::EcoPaused {
            Some(pause_writes(snap.device_type, 100))
        } else {
            None
        },
{
    if reassert_pause || snap.battery_mode != BatteryMode::EcoPaused {
        Some(discharge_pause_writes(snap.device_type, 100))
    } else {
        None
    }
}

/// Evaluates the temperature limiter where nothing was written earlier in the
/// poll.
pub fn check_temperature_limiter(
    snap: &InverterSnapshot,
    config: &TemperatureLimiterConfig,
    state: &mut TemperatureLimiterState,
    saved: &mut Option<LoadLimiterSaved>,
    other_active: bool,
) -> (r: Option<Vec<RegisterWrite>>)
    requires
        old(state).can_count(),
    ensures
        ({
            let step = heat_step(*snap, *config, *old(state), *old(saved), other_active, false);
            &&& *final(state) == step.state
            &&& *final(saved) == step.saved
            &&& writes_view(r) == step.writes
        }),
{
    check_temperature_limiter_after_automation(snap, config, state, saved, other_active, false)
}

/// Evaluates the temperature limiter. Returns the writes to issue, if any.
///
/// A hot inverter pauses discharge in every battery mode; a cool one resumes it
/// in Eco. With `reassert_pause` a pause in force is written again, since an
/// automation may have lifted it earlier in the same poll.
pub fn check_temperature_limiter_after_automation(
    snap: &InverterSnapshot,
    config: &TemperatureLimiterConfig,
    state: &mut TemperatureLimiterState,
    saved: &mut Option<LoadLimiterSaved>,
    other_active: bool,
    reassert_pause: bool,
) -> (r: Option<Vec<RegisterWrite>>)
    requires
        old(state).can_count(),
    ensures
        ({
            let step = heat_step(
                *snap,
                *config,
                *old(state),
                *old(saved),
                other_active,
                reassert_pause,
            );
            &&& *final(state) == step.state
            &&& *final(saved) == step.saved
            &&& writes_view(r) == step.writes
        }),
{
    if !config.enabled {
        if !state.is_actively_pausing() {
            *state = TemperatureLimiterState::Idle;
            return None;
        }
        if matches!(state, TemperatureLimiterState::PausedFromRestart) && snap.battery_mode
            == BatteryMode::Eco && !other_active {
            *saved = None;
            *state = TemperatureLimiterState::Idle;
            return None;
        }
        return release_thermal_pause(snap, state, saved, other_active);
    }
    if snap.inverter_temperature.is_nan() {
        return None;
    }
    let hot: bool = config.high_threshold.at_most(snap.inverter_temperature);
    let cool: bool = snap.inverter_temperature.at_most(config.recovery_threshold);
    match *state {
        TemperatureLimiterState::Idle => {
            if !hot {
                return None;
            }
            if config.confirmation_readings == 1 {
                capture_reserve(saved, snap.battery_reserve);
                *state = TemperatureLimiterState::Paused;
                return Some(discharge_pause_writes(snap.device_type, 100));
            }
            *state = TemperatureLimiterState::HighPending { consecutive: 1 };
            None
        },
        TemperatureLimiterState::HighPending { consecutive } => {
            if !hot {
                *state = TemperatureLimiterState::Idle;
                return None;
            }
            if consecutive + 1 >= config.confirmation_readings {
                capture_reserve(saved, snap.battery_reserve);
                *state = TemperatureLimiterState::Paused;
                return Some(discharge_pause_writes(snap.device_type, 100));
            }
            *state = TemperatureLimiterState::HighPending { consecutive: consecutive + 1 };
            None
        },
        TemperatureLimiterState::Paused => {
            if cool {
                if config.confirmation_readings == 1 {
                    return release_thermal_pause(snap, state, saved, other_active);
                }
                *state = TemperatureLimiterState::CoolingPending { consecutive: 1 };
            }
            reassert(snap, reassert_pause)
        },
        TemperatureLimiterState::PausedFromRestart => {
            if !cool {
                *state = TemperatureLimiterState::Paused;
                return reassert(snap, reassert_pause);
            }
            if other_active {
                *state = TemperatureLimiterState::Idle;
                return None;
            }
            if snap.battery_mode == BatteryMode::Eco {
                *saved = None;
                *state = TemperatureLimiterState::Idle;
                return None;
            }
            let reserve: u16 = match *saved {
                Some(s) => s.reserve,
                None => 4,
            };
            Some(discharge_pause_writes(snap.device_type, reserve))
        },
        TemperatureLimiterState::CoolingPending { consecutive } => {
            if cool {
                if consecutive + 1 >= config.confirmation_readings {
                    return release_thermal_pause(snap, state, saved, other_active);
                }
                *state = TemperatureLimiterState::CoolingPending { consecutive: consecutive + 1 };
            } else {
                *state = TemperatureLimiterState::Paused;
            }
            reassert(snap, reassert_pause)
        },
    }
}

} // verus!
