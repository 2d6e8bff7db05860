//! Auto-winter: a charge target that keeps a cold battery charged.
use crate::model::InverterSnapshot;
use crate::quantity::{whole, Quantity};
use crate::registers::{setting, RegisterWrite, HR_CHARGE_TARGET_SOC, HR_ENABLE_CHARGE_TARGET};
use vstd::prelude::*;

verus! {

/// How often a batch of writes is issued again before the machine gives up.
pub const AUTO_WINTER_MAX_WRITE_RETRIES: u8 = 3;

/// State of auto-winter.
#[derive(Clone, Debug, PartialEq, Eq)]
pub enum AutoWinterState {
    /// Waiting for the cold.
    Idle,
    /// Cold for this many polls in a row.
    ColdPending { consecutive: u32 },
    /// The winter target was written and is not yet read back.
    Activating { retries: u8 },
    /// The winter target is in force.
    WinterActive,
    /// Warm for this many polls in a row.
    WarmPending { consecutive: u32 },
    /// The previous target was written and is not yet read back.
    Restoring { retries: u8 },
    /// The writes failed too often.
    Error { message: String },
}

/// The mathematical state of auto-winter.
pub enum WinterPhase {
    Idle,
    ColdPending { consecutive: u32 },
    Activating { retries: u8 },
    WinterActive,
    WarmPending { consecutive: u32 },
    Restoring { retries: u8 },
    Error { message: Seq<char> },
}

impl View for AutoWinterState {
    type V = WinterPhase;

    open spec fn view(&self) -> WinterPhase {
        match *self {
            AutoWinterState::Idle => WinterPhase::Idle,
            AutoWinterState::ColdPending { consecutive } => WinterPhase::ColdPending {
                consecutive,
            },
            AutoWinterState::Activating { retries } => WinterPhase::Activating { retries },
            AutoWinterState::WinterActive => WinterPhase::WinterActive,
            AutoWinterState::WarmPending { consecutive } => WinterPhase::WarmPending {
                consecutive,
            },
            AutoWinterState::Restoring { retries } => WinterPhase::Restoring { retries },
            AutoWinterState::Error { message } => WinterPhase::Error { message: message@ },
        }
    }
}

impl WinterPhase {
    /// Whether the poll counter has room to grow.
    pub open spec fn can_count(self) -> bool {
        match self {
            WinterPhase::ColdPending { consecutive } | WinterPhase::WarmPending {
                consecutive,
            } => consecutive < u32::MAX,
            _ => true,
        }
    }
}

impl Default for AutoWinterState {
    fn default() -> (r: AutoWinterState)
        ensures
            r@ == WinterPhase::Idle,
    {
        AutoWinterState::Idle
    }
}

/// How the writes of the previous poll went.
#[derive(Clone, Copy, Debug, PartialEq, Eq, Structural)]
pub enum AutoWinterWriteOutcome {
    NoneIssued,
    Succeeded,
    Failed,
}

/// Configuration of auto-winter.
#[derive(Clone, Copy, Debug, PartialEq, Eq, Structural)]
pub struct AutoWinterConfig {
    pub enabled: bool,
    /// Below this battery temperature (degrees Celsius) it is cold.
    pub cold_threshold: Quantity,
    /// Above this battery temperature it is warm.
    pub recovery_threshold: Quantity,
    /// The winter charge target (%).
    pub target_soc: u8,
    /// Consecutive cold or warm readings before anything is written.
    pub debounce_readings: u32,
}

impl Default for AutoWinterConfig {
    fn default() -> (r: AutoWinterConfig)
        ensures
            r == (AutoWinterConfig {
                enabled: false,
                cold_threshold: whole(8),
                recovery_threshold: whole(12),
                target_soc: 80,
                debounce_readings: 10,
            }),
    {
        AutoWinterConfig {
            enabled: false,
            cold_threshold: Quantity::units(8),
            recovery_threshold: Quantity::units(12),
            target_soc: 80,
            debounce_readings: 10,
        }
    }
}

/// The charge target before auto-winter changed it.
#[derive(Clone, Copy, Debug, PartialEq, Eq, Structural)]
pub struct AutoWinterSaved {
    pub enable_charge_target: bool,
    pub target_soc: u8,
}

/// The writes that set a charge target.
pub open spec fn target_writes(enable: u16, target: u16) -> Seq<RegisterWrite> {
    seq![setting(HR_ENABLE_CHARGE_TARGET, enable), setting(HR_CHARGE_TARGET_SOC, target)]
}

/// The enable and target to return to: what was saved, or no target.
pub open spec fn restoration(saved: Option<AutoWinterSaved>) -> (u16, u16) {
    match saved {
        Some(s) => (
            if s.enable_charge_target {
                1
            } else {
                0
            },
            s.target_soc as u16,
        ),
        None => (0, 100),
    }
}

/// The mathematical decision.
pub struct WinterStep {
    pub phase: WinterPhase,
    pub saved: Option<AutoWinterSaved>,
    pub writes: Option<Seq<RegisterWrite>>,
}

/// A step without writes.
pub open spec fn winter_quiet(phase: WinterPhase, saved: Option<AutoWinterSaved>) -> WinterStep {
    WinterStep { phase, saved, writes: None }
}

/// The retry counter after one more unconfirmed poll.
pub open spec fn winter_retries(retries: u8, outcome: AutoWinterWriteOutcome) -> u8 {
    if outcome == AutoWinterWriteOutcome::NoneIssued || retries == u8::MAX {
        retries
    } else {
        (retries + 1) as u8
    }
}

/// One poll of auto-winter.
pub open spec fn winter_step(
    snap: InverterSnapshot,
    config: AutoWinterConfig,
    phase: WinterPhase,
    saved: Option<AutoWinterSaved>,
    outcome: AutoWinterWriteOutcome,
) -> WinterStep {
    let temp = snap.battery_temperature;
    let cold = temp.lt(config.cold_threshold);
    let not_cold = config.cold_threshold.le(temp);
    let warm = config.recovery_threshold.lt(temp);
    let not_warm = temp.le(config.recovery_threshold);
    let winter = target_writes(1, config.target_soc as u16);
    let (enable, target) = restoration(saved);
    if !config.enabled {
        winter_quiet(WinterPhase::Idle, None)
    } else {
        match phase {
            WinterPhase::Idle => if cold {
                winter_quiet(WinterPhase::ColdPending { consecutive: 1 }, saved)
            } else {
                winter_quiet(phase, saved)
            },
            WinterPhase::ColdPending { consecutive } => if cold {
                if consecutive + 1 >= config.debounce_readings {
                    WinterStep {
                        phase: WinterPhase::Activating { retries: 0 },
                        saved: match saved {
                            Some(s) => Some(s),
                            None => Some(
                                AutoWinterSaved {
                                    enable_charge_target: snap.enable_charge_target,
                                    target_soc: snap.target_soc,
                                },
                            ),
                        },
                        writes: Some(winter),
                    }
                } else {
                    winter_quiet(
                        WinterPhase::ColdPending { consecutive: (consecutive + 1) as u32 },
                        saved,
                    )
                }
            } else if not_cold {
                winter_quiet(WinterPhase::Idle, saved)
            } else {
                winter_quiet(phase, saved)
            },
            WinterPhase::Activating { retries } => if snap.enable_charge_target && snap.target_soc
                == config.target_soc {
                winter_quiet(WinterPhase::WinterActive, saved)
            } else if winter_retries(retries, outcome) > AUTO_WINTER_MAX_WRITE_RETRIES {
                winter_quiet(
                    WinterPhase::Error {
                        message: "Auto-winter activation failed after 3 retries"@,
                    },
                    saved,
                )
            } else {
                WinterStep {
                    phase: WinterPhase::Activating { retries: winter_retries(retries, outcome) },
                    saved,
                    writes: Some(winter),
                }
            },
            WinterPhase::WinterActive => if warm {
                winter_quiet(WinterPhase::WarmPending { consecutive: 1 }, saved)
            } else {
                winter_quiet(phase, saved)
            },
            WinterPhase::WarmPending { consecutive } => if warm {
                if consecutive + 1 >= config.debounce_readings {
                    WinterStep {
                        phase: WinterPhase::Restoring { retries: 0 },
                        saved,
                        writes: Some(target_writes(enable, target)),
                    }
                } else {
                    winter_quiet(
                        WinterPhase::WarmPending { consecutive: (consecutive + 1) as u32 },
                        saved,
                    )
                }
            } else if not_warm {
                winter_quiet(WinterPhase::WinterActive, saved)
            } else {
                winter_quiet(phase, saved)
            },
            WinterPhase::Restoring { retries } => if snap.target_soc == target
                && snap.enable_charge_target == (enable == 1) {
                winter_quiet(WinterPhase::Idle, None)
            } else if winter_retries(retries, outcome) > AUTO_WINTER_MAX_WRITE_RETRIES {
                winter_quiet(
                    WinterPhase::Error {
                        message: "Auto-winter restoration failed after 3 retries"@,
                    },
                    saved,
                )
            } else {
                WinterStep {
                    phase: WinterPhase::Restoring { retries: winter_retries(retries, outcome) },
                    saved,
                    writes: Some(target_writes(enable, target)),
                }
            },
            WinterPhase::Error { .. } => winter_quiet(phase, saved),
        }
    }
}

/// The writes of a decision, if there are any.
pub open spec fn writes_view(writes: Option<Vec<RegisterWrite>>) -> Option<Seq<RegisterWrite>> {
    match writes {
        Some(w) => Some(w@),
        None => None,
    }
}

fn build_target_writes(enable: u16, target: u16) -> (r: Vec<RegisterWrite>)
    ensures
        r@ == target_writes(enable, target),
{
    let r: Vec<RegisterWrite> = vec![
        RegisterWrite { address: HR_ENABLE_CHARGE_TARGET, value: enable },
        RegisterWrite { address: HR_CHARGE_TARGET_SOC, value: target },
    ];
    assert(r@ =~= target_writes(enable, target));
    r
}

fn count_retry(retries: u8, outcome: AutoWinterWriteOutcome) -> (r: u8)
    ensures
        r == winter_retries(retries, outcome),
{
    if outcome == AutoWinterWriteOutcome::NoneIssued || retries == u8::MAX {
        retries
    } else {
        retries + 1
    }
}

/// Evaluates auto-winter where no writes were issued on the previous poll.
pub fn check_auto_winter(
    snap: &InverterSnapshot,
    config: &AutoWinterConfig,
    state: &mut AutoWinterState,
    saved: &mut Option<AutoWinterSaved>,
) -> (r: Option<Vec<RegisterWrite>>)
    requires
        old(state)@.can_count(),
    ensures
        ({
            let step = winter_step(
                *snap,
                *config,
                old(state)@,
                *old(saved),
                AutoWinterWriteOutcome::NoneIssued,
            );
            &&& final(state)@ == step.phase
            &&& *final(saved) == step.saved
            &&& writes_view(r) == step.writes
        }),
{
    check_auto_winter_with_outcome(snap, config, state, saved, AutoWinterWriteOutcome::NoneIssued)
}

/// Evaluates auto-winter. Returns the writes to issue, if any.
///
/// The machine acts only after `debounce_readings` consecutive readings on the
/// same side of a threshold; one on the other side starts the count again. What
/// it writes counts once it is read back, and is issued again a bounded number
/// of times until then.
pub fn check_auto_winter_with_outcome(
    snap: &InverterSnapshot,
    config: &AutoWinterConfig,
    state: &mut AutoWinterState,
    saved: &mut Option<AutoWinterSaved>,
    last_write_outcome: AutoWinterWriteOutcome,
) -> (r: Option<Vec<RegisterWrite>>)
    requires
        old(state)@.can_count(),
    ensures
        ({
            let step = winter_step(*snap, *config, old(state)@, *old(saved), last_write_outcome);
            &&& final(state)@ == step.phase
            &&& *final(saved) == step.saved
            &&& writes_view(r) == step.writes
        }),
{
    if !config.enabled {
        *state = AutoWinterState::Idle;
        *saved = None;
        return None;
    }
    let temp: Quantity = snap.battery_temperature;
    let (enable, target): (u16, u16) = match *saved {
        Some(s) => (if s.enable_charge_target { 1 } else { 0 }, s.target_soc as u16),
        None => (0, 100),
    };
    match *state {
        AutoWinterState::Idle => {
            if temp.below(config.cold_threshold) {
                *state = AutoWinterState::ColdPending { consecutive: 1 };
            }
        },
        AutoWinterState::ColdPending { consecutive } => {
            if temp.below(config.cold_threshold) {
                if consecutive + 1 >= config.debounce_readings {
                    if saved.is_none() {
                        *saved = Some(
                            AutoWinterSaved {
                                enable_charge_target: snap.enable_charge_target,
                                target_soc: snap.target_soc,
                            },
                        );
                    }
                    *state = AutoWinterState::Activating { retries: 0 };
                    return Some(build_target_writes(1, config.target_soc as u16));
                }
                *state = AutoWinterState::ColdPending { consecutive: consecutive + 1 };
            } else if config.cold_threshold.at_most(temp) {
                *state = AutoWinterState::Idle;
            }
        },
        AutoWinterState::Activating { retries } => {
            if snap.enable_charge_target && snap.target_soc == config.target_soc {
                *state = AutoWinterState::WinterActive;
            } else {
                let next: u8 = count_retry(retries, last_write_outcome);
                if next > AUTO_WINTER_MAX_WRITE_RETRIES {
                    *state = AutoWinterState::Error {
                        message: "Auto-winter activation failed after 3 retries".to_owned(),
                    };
                } else {
                    *state = AutoWinterState::Activating { retries: next };
                    return Some(build_target_writes(1, config.target_soc as u16));
                }
            }
        },
        AutoWinterState::WinterActive => {
            if config.recovery_threshold.below(temp) {
                *state = AutoWinterState::WarmPending { consecutive: 1 };
            }
        },
        AutoWinterState::WarmPending { consecutive } => {
            if config.recovery_threshold.below(temp) {
                if consecutive + 1 >= config.debounce_readings {
                    *state = AutoWinterState::Restoring { retries: 0 };
                    return Some(build_target_writes(enable, target));
                }
                *state = AutoWinterState::WarmPending { consecutive: consecutive + 1 };
            } else if temp.at_most(config.recovery_threshold) {
                *state = AutoWinterState::WinterActive;
            }
        },
        AutoWinterState::Restoring { retries } => {
            if snap.target_soc as u16 == target && snap.enable_charge_target == (enable == 1) {
                *saved = None;
                *state = AutoWinterState::Idle;
            } else {
                let next: u8 = count_retry(retries, last_write_outcome);
                if next > AUTO_WINTER_MAX_WRITE_RETRIES {
                    *state = AutoWinterState::Error {
                        message: "Auto-winter restoration failed after 3 retries".to_owned(),
                    };
                } else {
                    *state = AutoWinterState::Restoring { retries: next };
                    return Some(build_target_writes(enable, target));
                }
            }
        },
        AutoWinterState::Error { .. } => {},
    }
    None
}

} // verus!
