//! What auto-winter, the re-arm detector and the arbiter are for.
use crate::model::InverterSnapshot;
use crate::plain::{less, no_more, put};
use crate::registers::RegisterWrite;
use crate::state_machines::control::{admits, DischargeControlOwner};
use crate::state_machines::rearm::RearmPhase;
use crate::state_machines::winter::{
    winter_step, AutoWinterConfig, AutoWinterSaved, AutoWinterWriteOutcome, WinterPhase,
    WinterStep,
};
use vstd::prelude::*;

verus! {

/// A charge target: the enable in register 20, the state of charge in 116.
pub open spec fn charge_target(enable: bool, soc: int) -> Seq<RegisterWrite> {
    seq![
        put(
            20,
            if enable {
                1
            } else {
                0
            },
        ),
        put(116, soc),
    ]
}

/// The target from before winter: the saved one, or none up to 100 %.
pub open spec fn target_before(saved: Option<AutoWinterSaved>) -> (bool, int) {
    match saved {
        Some(s) => (s.enable_charge_target, s.target_soc as int),
        None => (false, 100),
    }
}

/// A step that changes the phase alone.
pub open spec fn turns(
    step: WinterStep,
    phase: WinterPhase,
    saved: Option<AutoWinterSaved>,
) -> bool {
    step.phase == phase && step.saved == saved && step.writes is None
}

/// A step that writes a charge target.
pub open spec fn writes_target(
    step: WinterStep,
    phase: WinterPhase,
    saved: Option<AutoWinterSaved>,
    enable: bool,
    soc: int,
) -> bool {
    &&& step.phase == phase
    &&& step.saved == saved
    &&& step.writes is Some
    &&& step.writes->0 =~= charge_target(enable, soc)
}

/// Switched off, auto-winter is idle and forgets what it saved, without a write.
pub proof fn law_winter_switched_off(
    snap: InverterSnapshot,
    config: AutoWinterConfig,
    phase: WinterPhase,
    saved: Option<AutoWinterSaved>,
    outcome: AutoWinterWriteOutcome,
)
    requires
        !config.enabled,
    ensures
        turns(winter_step(snap, config, phase, saved, outcome), WinterPhase::Idle, None),
{
}

/// Readings below the cold threshold are counted; when there are as many as
/// asked for, and two at least, the winter target is written and the target in
/// force saved, unless one is saved already. A reading at or above the threshold
/// ends the count, and a missing one leaves it.
pub proof fn law_cold_battery_gets_the_winter_target(
    snap: InverterSnapshot,
    config: AutoWinterConfig,
    consecutive: u32,
    saved: Option<AutoWinterSaved>,
    outcome: AutoWinterWriteOutcome,
)
    requires
        config.enabled,
        consecutive < u32::MAX,
    ensures
        ({
            let cold = less(snap.battery_temperature, config.cold_threshold);
            let idle = winter_step(snap, config, WinterPhase::Idle, saved, outcome);
            let counting = winter_step(
                snap,
                config,
                WinterPhase::ColdPending { consecutive },
                saved,
                outcome,
            );
            &&& turns(
                idle,
                if cold {
                    WinterPhase::ColdPending { consecutive: 1 }
                } else {
                    WinterPhase::Idle
                },
                saved,
            )
            &&& if cold && consecutive + 1 >= config.debounce_readings {
                writes_target(
                    counting,
                    WinterPhase::Activating { retries: 0 },
                    match saved {
                        Some(s) => Some(s),
                        None => Some(
                            AutoWinterSaved {
                                enable_charge_target: snap.enable_charge_target,
                                target_soc: snap.target_soc,
                            },
                        ),
                    },
                    true,
                    config.target_soc as int,
                )
            } else {
                turns(
                    counting,
                    if cold {
                        WinterPhase::ColdPending { consecutive: (consecutive + 1) as u32 }
                    } else if no_more(config.cold_threshold, snap.battery_temperature) {
                        WinterPhase::Idle
                    } else {
                        WinterPhase::ColdPending { consecutive }
                    },
                    saved,
                )
            }
        }),
{
}

/// Readings above the recovery threshold are counted in the same way, and write
/// back the target from before winter.
pub proof fn law_warm_battery_gets_its_target_back(
    snap: InverterSnapshot,
    config: AutoWinterConfig,
    consecutive: u32,
    saved: Option<AutoWinterSaved>,
    outcome: AutoWinterWriteOutcome,
)
    requires
        config.enabled,
        consecutive < u32::MAX,
    ensures
        ({
            let warm = less(config.recovery_threshold, snap.battery_temperature);
            let active = winter_step(snap, config, WinterPhase::WinterActive, saved, outcome);
            let counting = winter_step(
                snap,
                config,
                WinterPhase::WarmPending { consecutive },
                saved,
                outcome,
            );
            &&& turns(
                active,
                if warm {
                    WinterPhase::WarmPending { consecutive: 1 }
                } else {
                    WinterPhase::WinterActive
                },
                saved,
            )
            &&& if warm && consecutive + 1 >= config.debounce_readings {
                writes_target(
                    counting,
                    WinterPhase::Restoring { retries: 0 },
                    saved,
                    target_before(saved).0,
                    target_before(saved).1,
                )
            } else {
                turns(
                    counting,
                    if warm {
                        WinterPhase::WarmPending { consecutive: (consecutive + 1) as u32 }
                    } else if no_more(snap.battery_temperature, config.recovery_threshold) {
                        WinterPhase::WinterActive
                    } else {
                        WinterPhase::WarmPending { consecutive }
                    },
                    saved,
                )
            }
        }),
{
}

/// A target that was written is in force when both registers read it back. Until
/// then it is written again; each batch that was issued counts, and after three
/// of them the machine gives up.
pub proof fn law_winter_targets_are_read_back(
    snap: InverterSnapshot,
    config: AutoWinterConfig,
    retries: u8,
    saved: Option<AutoWinterSaved>,
    outcome: AutoWinterWriteOutcome,
)
    requires
        config.enabled,
    ensures
        ({
            let next = if outcome is NoneIssued {
                retries as int
            } else {
                retries + 1
            };
            let (enable, soc) = target_before(saved);
            let activating = winter_step(
                snap,
                config,
                WinterPhase::Activating { retries },
                saved,
                outcome,
            );
            let restoring = winter_step(
                snap,
                config,
                WinterPhase::Restoring { retries },
                saved,
                outcome,
            );
            &&& if snap.enable_charge_target && snap.target_soc == config.target_soc {
                turns(activating, WinterPhase::WinterActive, saved)
            } else if next <= 3 {
                writes_target(
                    activating,
                    WinterPhase::Activating { retries: next as u8 },
                    saved,
                    true,
                    config.target_soc as int,
                )
            } else {
                turns(
                    activating,
                    WinterPhase::Error {
                        message: "Auto-winter activation failed after 3 retries"@,
                    },
                    saved,
                )
            }
            &&& if snap.enable_charge_target == enable && snap.target_soc == soc {
                turns(restoring, WinterPhase::Idle, None)
            } else if next <= 3 {
                writes_target(
                    restoring,
                    WinterPhase::Restoring { retries: next as u8 },
                    saved,
                    enable,
                    soc,
                )
            } else {
                turns(
                    restoring,
                    WinterPhase::Error {
                        message: "Auto-winter restoration failed after 3 retries"@,
                    },
                    saved,
                )
            }
        }),
{
}

/// A machine that gave up stays put until it is switched off.
pub proof fn law_winter_error_stays(
    snap: InverterSnapshot,
    config: AutoWinterConfig,
    message: Seq<char>,
    saved: Option<AutoWinterSaved>,
    outcome: AutoWinterWriteOutcome,
)
    requires
        config.enabled,
    ensures
        turns(
            winter_step(snap, config, WinterPhase::Error { message }, saved, outcome),
            WinterPhase::Error { message },
            saved,
        ),
{
}

/// The detector moves only on polls without a write of our own under way: an
/// exit is confirmed by an enable that reads off, an enable that comes back
/// outside every window is counted, and any other poll ends the count. Three in
/// a row classify the firmware.
pub proof fn law_detector_counts_unsolicited_enables(
    outside_window: bool,
    enable_set: bool,
    consecutive: u32,
)
    requires
        consecutive < u32::MAX,
    ensures
        forall|phase: RearmPhase| #[trigger] phase.after(outside_window, enable_set, true) == phase,
        RearmPhase::Idle.after(outside_window, enable_set, false) == RearmPhase::Idle,
        RearmPhase::ExitWritten.after(outside_window, false, false)
            == RearmPhase::ExitConfirmedOff,
        RearmPhase::ExitWritten.after(outside_window, true, false) == RearmPhase::ExitWritten,
        RearmPhase::ExitConfirmedOff.after(true, true, false) == (RearmPhase::Observing {
            consecutive: 1,
        }),
        !(outside_window && enable_set) ==> RearmPhase::ExitConfirmedOff.after(
            outside_window,
            enable_set,
            false,
        ) == RearmPhase::ExitConfirmedOff,
        (RearmPhase::Observing { consecutive }).after(true, true, false) == (RearmPhase::Observing {
            consecutive: (consecutive + 1) as u32,
        }),
        !(outside_window && enable_set) ==> (RearmPhase::Observing { consecutive }).after(
            outside_window,
            enable_set,
            false,
        ) == RearmPhase::ExitConfirmedOff,
        (RearmPhase::Observing { consecutive }).classified() <==> consecutive >= 3,
        !RearmPhase::Idle.classified(),
        !RearmPhase::ExitWritten.classified(),
        !RearmPhase::ExitConfirmedOff.classified(),
{
}

/// Protection of the hardware outranks what the user forces, that a pause of the
/// user's, that a mode of the user's, that the export schedule, that scheduled
/// charging, and that the price-driven automation. An owner is let in beside
/// itself, and beside a lower one only.
pub proof fn law_order_of_owners(low: DischargeControlOwner, high: DischargeControlOwner)
    requires
        match high {
            DischargeControlOwner::Agile => false,
            DischargeControlOwner::TimedCharge => low is Agile,
            DischargeControlOwner::TimedExport => low is Agile || low is TimedCharge,
            DischargeControlOwner::ManualMode => low is Agile || low is TimedCharge
                || low is TimedExport,
            DischargeControlOwner::ExplicitPause => low is Agile || low is TimedCharge
                || low is TimedExport || low is ManualMode,
            DischargeControlOwner::ManualForce => !(low is ManualForce) && !(low is Safety),
            DischargeControlOwner::Safety => !(low is Safety),
        },
    ensures
        admits(Some(low), high),
        !admits(Some(high), low),
        admits(Some(low), low),
        admits(Some(high), high),
        admits(None, low),
        admits(None, high),
{
}

} // verus!
