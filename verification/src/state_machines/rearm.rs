//! Firmware that arms discharge again by itself.
//!
//! Some firmware sets the discharge enable whenever a discharge slot is
//! populated. That is recognised only behind an exit of our own that was read
//! back: an enable that appears after it, outside every window and for several
//! polls, can come from nowhere else.
use vstd::prelude::*;

verus! {

/// Consecutive readings of an unsolicited enable that classify the firmware.
pub const TIMED_EXPORT_REARM_CONFIRM_POLLS: u32 = 3;

/// How far the detection has come.
#[derive(Clone, Copy, Debug, PartialEq, Eq, Structural)]
pub enum RearmPhase {
    /// No exit of our own since the last reset: an enable proves nothing.
    Idle,
    /// An exit was written and is not yet read back.
    ExitWritten,
    /// The exit was read back.
    ExitConfirmedOff,
    /// The enable came back for this many polls in a row.
    Observing { consecutive: u32 },
}

impl RearmPhase {
    /// Whether the firmware is classified.
    pub open spec fn classified(self) -> bool {
        match self {
            RearmPhase::Observing { consecutive } => consecutive
                >= TIMED_EXPORT_REARM_CONFIRM_POLLS,
            _ => false,
        }
    }

    /// The phase after one poll.
    pub open spec fn after(
        self,
        outside_window: bool,
        enable_set: bool,
        boundary_write_pending: bool,
    ) -> RearmPhase {
        if boundary_write_pending {
            self
        } else {
            match self {
                RearmPhase::Idle => self,
                RearmPhase::ExitWritten => if enable_set {
                    self
                } else {
                    RearmPhase::ExitConfirmedOff
                },
                RearmPhase::ExitConfirmedOff => if enable_set && outside_window {
                    RearmPhase::Observing { consecutive: 1 }
                } else {
                    self
                },
                RearmPhase::Observing { consecutive } => if enable_set && outside_window {
                    RearmPhase::Observing {
                        consecutive: if consecutive == u32::MAX {
                            consecutive
                        } else {
                            (consecutive + 1) as u32
                        },
                    }
                } else {
                    RearmPhase::ExitConfirmedOff
                },
            }
        }
    }
}

/// Recognises firmware that arms discharge again while slots are populated.
#[derive(Clone, Copy, Debug, PartialEq, Eq, Structural)]
pub struct TimedExportRearmDetector {
    pub phase: RearmPhase,
}

impl View for TimedExportRearmDetector {
    type V = RearmPhase;

    closed spec fn view(&self) -> RearmPhase {
        self.phase
    }
}

impl Default for TimedExportRearmDetector {
    fn default() -> (r: TimedExportRearmDetector)
        ensures
            r@ == RearmPhase::Idle,
    {
        TimedExportRearmDetector { phase: RearmPhase::Idle }
    }
}

impl TimedExportRearmDetector {
    /// Notes that an exit, or a repair to Eco, was written.
    pub fn note_exit_written(&mut self)
        ensures
            final(self)@ == RearmPhase::ExitWritten,
    {
        self.phase = RearmPhase::ExitWritten;
    }

    /// Takes in one poll. Returns whether the firmware is classified.
    ///
    /// `outside_window` tells that no export window is open, `enable_set` that
    /// the discharge enable reads armed, `hem_boundary_write_pending` that
    /// writes of our own are under way, so that the poll proves nothing.
    pub fn observe(
        &mut self,
        outside_window: bool,
        enable_set: bool,
        hem_boundary_write_pending: bool,
    ) -> (r: bool)
        ensures
            final(self)@ == old(self)@.after(
                outside_window,
                enable_set,
                hem_boundary_write_pending,
            ),
            r == final(self)@.classified(),
    {
        if !hem_boundary_write_pending {
            match self.phase {
                RearmPhase::Idle => {},
                RearmPhase::ExitWritten => {
                    if !enable_set {
                        self.phase = RearmPhase::ExitConfirmedOff;
                    }
                },
                RearmPhase::ExitConfirmedOff => {
                    if enable_set && outside_window {
                        self.phase = RearmPhase::Observing { consecutive: 1 };
                    }
                },
                RearmPhase::Observing { consecutive } => {
                    if enable_set && outside_window {
                        let next: u32 = if consecutive == u32::MAX {
                            consecutive
                        } else {
                            consecutive + 1
                        };
                        self.phase = RearmPhase::Observing { consecutive: next };
                    } else {
                        self.phase = RearmPhase::ExitConfirmedOff;
                    }
                },
            }
        }
        self.confirmed()
    }

    /// Whether the firmware is classified.
    pub fn confirmed(&self) -> (r: bool)
        ensures
            r == self@.classified(),
    {
        match self.phase {
            RearmPhase::Observing { consecutive } => consecutive
                >= TIMED_EXPORT_REARM_CONFIRM_POLLS,
            _ => false,
        }
    }

    /// Whether repairs are to be held back so that a re-arm can show itself.
    pub fn is_observing(&self) -> (r: bool)
        ensures
            r == !(self@ is Idle),
    {
        !matches!(self.phase, RearmPhase::Idle)
    }

    /// Starts over.
    pub fn reset(&mut self)
        ensures
            final(self)@ == RearmPhase::Idle,
    {
        self.phase = RearmPhase::Idle;
    }
}

/// Whether a pause mode blocks discharge, so that forcing a discharge has to
/// lift it.
pub fn should_disable_pause_for_force_discharge(pause_mode: u8) -> (r: bool)
    ensures
        r == (pause_mode == 2 || pause_mode == 3),
{
    pause_mode == 2 || pause_mode == 3
}

/// One poll's observation.
pub struct Observation {
    pub outside_window: bool,
    pub enable_set: bool,
    pub boundary_write_pending: bool,
}

/// The phase after a sequence of polls.
pub open spec fn observed(phase: RearmPhase, polls: Seq<Observation>) -> RearmPhase
    decreases polls.len(),
{
    if polls.len() == 0 {
        phase
    } else {
        let last = polls.last();
        observed(phase, polls.drop_last()).after(
            last.outside_window,
            last.enable_set,
            last.boundary_write_pending,
        )
    }
}

/// Without an exit of our own, no sequence of readings classifies the firmware.
pub proof fn law_unanchored_never_classified(polls: Seq<Observation>)
    ensures
        observed(RearmPhase::Idle, polls) == RearmPhase::Idle,
        !observed(RearmPhase::Idle, polls).classified(),
    decreases polls.len(),
{
    if polls.len() > 0 {
        law_unanchored_never_classified(polls.drop_last());
    }
}

/// A run of unsolicited enables is counted exactly: the run that follows an
/// exit read back classifies the firmware once it is three polls long, and not
/// before.
pub proof fn law_classified_after_three(polls: Seq<Observation>)
    requires
        polls.len() < u32::MAX,
        forall|i: int|
            0 <= i < polls.len() ==> (#[trigger] polls[i]).outside_window && polls[i].enable_set
                && !polls[i].boundary_write_pending,
    ensures
        observed(RearmPhase::ExitConfirmedOff, polls).classified() <==> polls.len()
            >= TIMED_EXPORT_REARM_CONFIRM_POLLS,
        polls.len() > 0 ==> observed(RearmPhase::ExitConfirmedOff, polls) == (
        RearmPhase::Observing { consecutive: polls.len() as u32 }),
    decreases polls.len(),
{
    if polls.len() > 0 {
        let rest = polls.drop_last();
        assert forall|i: int| 0 <= i < rest.len() implies (#[trigger] rest[i]).outside_window
            && rest[i].enable_set && !rest[i].boundary_write_pending by {
            assert(rest[i] == polls[i]);
        }
        law_classified_after_three(rest);
        assert(polls.last() == polls[polls.len() - 1]);
    }
}

} // verus!
