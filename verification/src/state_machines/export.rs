//! Timed Export: maximum-power export inside daily windows, Eco outside.
//!
//! The machine is a reconciler. Every poll it compares what the schedule, the
//! inverter's time and the discharge pause ask for with what the registers read
//! back, and issues the writes that bring the two together. A transition counts
//! only once it is read back. Failed or unconfirmed writes are issued again a
//! bounded number of times.
use crate::model::{
    any_configured, any_covers, discharge_slot_limit, some_configured, some_covers, DeviceType,
    InverterSnapshot, ScheduleSlot,
};
use crate::registers::{RegisterWrite, HR_BATTERY_POWER_MODE};
use crate::state_machines::export_writes::{
    arm_writes, build_timed_export_slot_clear_writes, build_timed_export_slot_restore_writes,
    clear_slots, disarm_writes, restorable, restore_slots, timed_export_discharge_enable_write,
};
use crate::text::{decimal, decimal_text, joined};
use vstd::prelude::*;

verus! {

/// Polls to wait for a successful batch of writes to be read back before it is
/// issued again.
pub const TIMED_EXPORT_CONFIRM_GRACE_POLLS: u32 = 2;

/// How often a batch of writes is issued again before the machine gives up.
pub const TIMED_EXPORT_MAX_WRITE_RETRIES: u32 = 3;

/// State of the Timed Export schedule as confirmed by the registers.
#[derive(Clone, Debug, PartialEq, Eq)]
pub enum TimedExportState {
    /// No schedule, or a disabled one.
    Off,
    /// A schedule is set and now is outside its windows; the inverter is in Eco.
    Configured,
    /// Inside a window; the entry writes are not yet read back.
    Entering { polls_waiting: u32, retries: u32 },
    /// Inside a window, exporting, as read back.
    Active,
    /// The window ended or a repair is due; the exit writes are not yet read
    /// back.
    Exiting { polls_waiting: u32, retries: u32 },
    /// Inside a window while discharge is paused.
    BlockedByPause,
    /// The writes failed too often. Only a schedule change clears this.
    Error { reason: String },
}

/// The mathematical state of the machine.
pub enum ExportPhase {
    Off,
    Configured,
    Entering { polls_waiting: u32, retries: u32 },
    Active,
    Exiting { polls_waiting: u32, retries: u32 },
    BlockedByPause,
    Error { reason: Seq<char> },
}

impl View for TimedExportState {
    type V = ExportPhase;

    open spec fn view(&self) -> ExportPhase {
        match *self {
            TimedExportState::Off => ExportPhase::Off,
            TimedExportState::Configured => ExportPhase::Configured,
            TimedExportState::Entering { polls_waiting, retries } => ExportPhase::Entering {
                polls_waiting,
                retries,
            },
            TimedExportState::Active => ExportPhase::Active,
            TimedExportState::Exiting { polls_waiting, retries } => ExportPhase::Exiting {
                polls_waiting,
                retries,
            },
            TimedExportState::BlockedByPause => ExportPhase::BlockedByPause,
            TimedExportState::Error { reason } => ExportPhase::Error { reason: reason@ },
        }
    }
}

impl ExportPhase {
    /// Whether writes of the machine are waiting to be read back.
    pub open spec fn boundary_pending(self) -> bool {
        self is Entering || self is Exiting
    }

    /// Whether the retry counter has room to grow.
    pub open spec fn can_retry(self) -> bool {
        match self {
            ExportPhase::Entering { retries, .. } | ExportPhase::Exiting { retries, .. } => retries
                < u32::MAX,
            _ => true,
        }
    }
}

impl Default for TimedExportState {
    fn default() -> (r: TimedExportState)
        ensures
            r@ == ExportPhase::Off,
    {
        TimedExportState::Off
    }
}

impl TimedExportState {
    /// Whether writes of the machine are waiting to be read back.
    pub fn is_boundary_pending(&self) -> (r: bool)
        ensures
            r == self@.boundary_pending(),
    {
        matches!(self, TimedExportState::Entering { .. } | TimedExportState::Exiting { .. })
    }

    /// Whether the machine owns the discharge-control registers this poll.
    pub fn owns_discharge_control(&self) -> (r: bool)
        ensures
            r == (self@.boundary_pending() || self@ is Active),
    {
        matches!(
            self,
            TimedExportState::Entering { .. }
                | TimedExportState::Active
                | TimedExportState::Exiting { .. }
        )
    }

    /// A copy of the state.
    fn copy(&self) -> (r: TimedExportState)
        ensures
            r@ == self@,
    {
        match self {
            TimedExportState::Off => TimedExportState::Off,
            TimedExportState::Configured => TimedExportState::Configured,
            TimedExportState::Entering { polls_waiting, retries } => TimedExportState::Entering {
                polls_waiting: *polls_waiting,
                retries: *retries,
            },
            TimedExportState::Active => TimedExportState::Active,
            TimedExportState::Exiting { polls_waiting, retries } => TimedExportState::Exiting {
                polls_waiting: *polls_waiting,
                retries: *retries,
            },
            TimedExportState::BlockedByPause => TimedExportState::BlockedByPause,
            TimedExportState::Error { reason } => TimedExportState::Error {
                reason: reason.clone(),
            },
        }
    }
}

/// What the user wants exported, and what is known of the firmware.
#[derive(Clone, Debug)]
pub struct TimedExportConfig {
    /// Whether the schedule is enabled.
    pub schedule_enabled: bool,
    /// The export windows.
    pub slots: Vec<ScheduleSlot>,
    /// Whether the firmware re-arms discharge from populated slots, so that
    /// they must be cleared outside windows and restored at entry.
    pub device_rearm_confirmed: bool,
    /// Whether a stop was begun whose return to Eco is not yet confirmed.
    pub stop_pending: bool,
}

impl Default for TimedExportConfig {
    fn default() -> (r: TimedExportConfig)
        ensures
            !r.schedule_enabled,
            r.slots@.len() == 0,
            !r.device_rearm_confirmed,
            !r.stop_pending,
    {
        TimedExportConfig {
            schedule_enabled: false,
            slots: Vec::new(),
            device_rearm_confirmed: false,
            stop_pending: false,
        }
    }
}

/// What the machine decided.
#[derive(Clone, Debug)]
pub struct TimedExportDecision {
    /// The state after the poll.
    pub new_state: TimedExportState,
    /// Writes to issue in order, stopping at the first that fails, so that a
    /// rejected slot write is never followed by the write that arms export.
    pub writes: Vec<RegisterWrite>,
    /// A message for the log.
    pub log_message: Option<String>,
    /// Whether the writes disarm scheduled discharge.
    pub is_exit_transition: bool,
}

/// How the writes of the previous poll went.
#[derive(Clone, Copy, Debug, PartialEq, Eq, Structural)]
pub enum TimedExportWriteOutcome {
    NoneIssued,
    Succeeded,
    /// At least one write failed; later ones were not issued.
    Failed,
}

impl Default for TimedExportWriteOutcome {
    fn default() -> (r: TimedExportWriteOutcome)
        ensures
            r == TimedExportWriteOutcome::NoneIssued,
    {
        TimedExportWriteOutcome::NoneIssued
    }
}

/// The mathematical decision.
pub struct ExportStep {
    pub phase: ExportPhase,
    pub writes: Seq<RegisterWrite>,
    pub log: Option<Seq<char>>,
    pub exit: bool,
}

impl View for TimedExportDecision {
    type V = ExportStep;

    open spec fn view(&self) -> ExportStep {
        ExportStep {
            phase: self.new_state@,
            writes: self.writes@,
            log: match self.log_message {
                Some(m) => Some(m@),
                None => None,
            },
            exit: self.is_exit_transition,
        }
    }
}

/// The writes that enter Timed Export: the slots first where the firmware needs
/// them restored, then maximum power, then the arming of discharge.
pub open spec fn entry_writes(device_type: DeviceType, config: TimedExportConfig) -> Seq<
    RegisterWrite,
> {
    (if config.device_rearm_confirmed {
        restore_slots(device_type, config.slots@, restorable(device_type, config.slots@))
    } else {
        Seq::empty()
    }) + arm_writes(device_type)
}

/// The writes that leave Timed Export: the slots first where the firmware would
/// re-arm from them, then the disarming of discharge, then Eco.
pub open spec fn exit_writes(device_type: DeviceType, config: TimedExportConfig) -> Seq<
    RegisterWrite,
> {
    (if config.device_rearm_confirmed {
        clear_slots(device_type, discharge_slot_limit(device_type))
    } else {
        Seq::empty()
    }) + disarm_writes(device_type)
}

/// Whether discharge is paused at the minute: the pause mode covers discharge
/// and the minute lies in the pause window, which must not be empty.
pub open spec fn discharge_paused(snapshot: InverterSnapshot, minute_of_day: int) -> bool {
    (snapshot.battery_pause_mode == 2 || snapshot.battery_pause_mode == 3)
        && snapshot.battery_pause_slot.covers(minute_of_day)
}

/// What one poll tells the machine.
pub struct ExportInputs {
    /// The schedule is enabled and has a window.
    pub scheduled: bool,
    /// Now is inside a window.
    pub in_window: bool,
    /// Discharge is paused now.
    pub paused: bool,
    /// The registers read export.
    pub exporting: bool,
    /// The registers read Eco.
    pub eco: bool,
    /// The inverter holds a discharge slot.
    pub slots_populated: bool,
    /// A stop was begun and is not yet confirmed.
    pub stop_pending: bool,
    /// Repairs are held to see whether the firmware re-arms.
    pub observing: bool,
    /// How the previous writes went.
    pub outcome: TimedExportWriteOutcome,
    /// The writes that enter export.
    pub entry: Seq<RegisterWrite>,
    /// The writes that leave export.
    pub leave: Seq<RegisterWrite>,
}

/// What a poll tells the machine.
pub open spec fn export_inputs(
    snapshot: InverterSnapshot,
    config: TimedExportConfig,
    minute_of_day: int,
    device_type: DeviceType,
    outcome: TimedExportWriteOutcome,
    observing: bool,
) -> ExportInputs {
    ExportInputs {
        scheduled: config.schedule_enabled && some_configured(config.slots@),
        in_window: some_covers(config.slots@, minute_of_day),
        paused: discharge_paused(snapshot, minute_of_day),
        exporting: snapshot.battery_power_mode == 0 && snapshot.enable_discharge,
        eco: snapshot.battery_power_mode == 1 && !snapshot.enable_discharge,
        slots_populated: some_configured(snapshot.discharge_slots@),
        stop_pending: config.stop_pending,
        observing,
        outcome,
        entry: entry_writes(device_type, config),
        leave: exit_writes(device_type, config),
    }
}

/// A step that issues nothing and logs nothing.
pub open spec fn silent(phase: ExportPhase) -> ExportStep {
    ExportStep { phase, writes: Seq::empty(), log: None, exit: false }
}

/// A step that issues nothing.
pub open spec fn moved(phase: ExportPhase, message: Seq<char>) -> ExportStep {
    ExportStep { phase, writes: Seq::empty(), log: Some(message), exit: false }
}

/// The step that begins the entry.
pub open spec fn begin_entry(inputs: ExportInputs, message: Seq<char>) -> ExportStep {
    ExportStep {
        phase: ExportPhase::Entering { polls_waiting: 0, retries: 0 },
        writes: inputs.entry,
        log: Some(message),
        exit: false,
    }
}

/// The step that begins the exit.
pub open spec fn begin_exit(inputs: ExportInputs, message: Seq<char>) -> ExportStep {
    ExportStep {
        phase: ExportPhase::Exiting { polls_waiting: 0, retries: 0 },
        writes: inputs.leave,
        log: Some(message),
        exit: true,
    }
}

/// The step that gives up.
pub open spec fn give_up(reason: Seq<char>) -> ExportStep {
    moved(ExportPhase::Error { reason }, "Timed Export error: "@ + reason)
}

/// The counters after one more unconfirmed poll: a failure counts as a retry at
/// once, an unconfirmed success after the grace period.
pub open spec fn waited(polls_waiting: u32, retries: u32, failed: bool) -> (u32, u32) {
    if failed {
        (polls_waiting, (retries + 1) as u32)
    } else if polls_waiting >= TIMED_EXPORT_CONFIRM_GRACE_POLLS {
        (0, (retries + 1) as u32)
    } else {
        ((polls_waiting + 1) as u32, retries)
    }
}

/// The message of a retry.
pub open spec fn retry_message(what: Seq<char>, retries: u32) -> Seq<char> {
    what + decimal(retries as nat) + " of 3"@
}

/// One more poll of an unconfirmed entry.
pub open spec fn retry_entry(
    outcome: TimedExportWriteOutcome,
    writes: Seq<RegisterWrite>,
    polls_waiting: u32,
    retries: u32,
) -> ExportStep {
    let failed = outcome == TimedExportWriteOutcome::Failed;
    let (polls, tries) = waited(polls_waiting, retries, failed);
    let phase = ExportPhase::Entering { polls_waiting: polls, retries: tries };
    if tries > TIMED_EXPORT_MAX_WRITE_RETRIES {
        give_up("entry writes failed after retries"@)
    } else if failed || polls == 0 {
        ExportStep {
            phase,
            writes,
            log: Some(retry_message("Timed Export entry retry "@, tries)),
            exit: false,
        }
    } else {
        silent(phase)
    }
}

/// One more poll of an unconfirmed exit.
pub open spec fn retry_exit(
    outcome: TimedExportWriteOutcome,
    writes: Seq<RegisterWrite>,
    polls_waiting: u32,
    retries: u32,
) -> ExportStep {
    let failed = outcome == TimedExportWriteOutcome::Failed;
    let (polls, tries) = waited(polls_waiting, retries, failed);
    let phase = ExportPhase::Exiting { polls_waiting: polls, retries: tries };
    if tries > TIMED_EXPORT_MAX_WRITE_RETRIES {
        give_up("exit writes failed after retries"@)
    } else if failed || polls == 0 {
        ExportStep {
            phase,
            writes,
            log: Some(retry_message("Timed Export exit retry "@, tries)),
            exit: true,
        }
    } else {
        silent(phase)
    }
}

/// The step without a schedule: an exit of the machine's own is seen through,
/// anything else is left to whoever populated the inverter's slots, and stale
/// export registers without slots are repaired.
pub open spec fn unscheduled_step(inputs: ExportInputs, phase: ExportPhase) -> ExportStep {
    match phase {
        ExportPhase::Exiting { polls_waiting, retries } => if inputs.eco {
            moved(ExportPhase::Off, "Timed Export exited, Eco restored"@)
        } else if polls_waiting == 0 && retries == 0 && inputs.outcome
            == TimedExportWriteOutcome::NoneIssued {
            begin_exit(inputs, "Timed Export: repairing the stop that failed to disarm"@)
        } else {
            retry_exit(inputs.outcome, inputs.leave, polls_waiting, retries)
        },
        _ => if inputs.stop_pending && !inputs.eco && !inputs.observing {
            if inputs.outcome == TimedExportWriteOutcome::NoneIssued {
                begin_exit(
                    inputs,
                    "Timed Export: repairing the stop/exit left pending (stop-pending marker)"@,
                )
            } else {
                retry_exit(inputs.outcome, inputs.leave, 0, 0)
            }
        } else if inputs.slots_populated {
            silent(ExportPhase::Off)
        } else if phase is Off {
            if !inputs.eco && !inputs.observing {
                begin_exit(
                    inputs,
                    "Timed Export: repairing export-armed registers outside a window"@,
                )
            } else {
                silent(ExportPhase::Off)
            }
        } else {
            moved(ExportPhase::Off, "Timed Export schedule disabled"@)
        },
    }
}

/// The step with a schedule.
pub open spec fn scheduled_step(inputs: ExportInputs, phase: ExportPhase) -> ExportStep {
    match phase {
        ExportPhase::Off => if inputs.in_window && !inputs.paused {
            begin_entry(inputs, "Timed Export entering"@)
        } else if inputs.in_window {
            moved(ExportPhase::BlockedByPause, "Timed Export blocked by Pause Discharge"@)
        } else if !inputs.eco && !inputs.observing {
            begin_exit(inputs, "Timed Export: startup repair — export-armed outside window"@)
        } else {
            moved(ExportPhase::Configured, "Timed Export configured for future window"@)
        },
        ExportPhase::Configured => if inputs.in_window && inputs.paused {
            moved(ExportPhase::BlockedByPause, "Timed Export window entered but blocked by pause"@)
        } else if inputs.in_window {
            begin_entry(inputs, "Timed Export entering"@)
        } else if !inputs.eco && !inputs.observing {
            begin_exit(inputs, "Timed Export: repair — export-armed outside window"@)
        } else {
            silent(phase)
        },
        ExportPhase::Entering { polls_waiting, retries } => if inputs.exporting {
            moved(ExportPhase::Active, "Timed Export active (entry confirmed)"@)
        } else if !inputs.in_window {
            begin_exit(inputs, "Timed Export exiting (window ended during entry)"@)
        } else if inputs.paused {
            moved(ExportPhase::BlockedByPause, "Timed Export blocked by pause during entry"@)
        } else {
            retry_entry(inputs.outcome, inputs.entry, polls_waiting, retries)
        },
        ExportPhase::Active => if !inputs.in_window {
            begin_exit(inputs, "Timed Export exiting"@)
        } else if inputs.paused {
            moved(ExportPhase::BlockedByPause, "Timed Export blocked by pause"@)
        } else if !inputs.exporting {
            begin_entry(inputs, "Timed Export re-entering (registers changed externally)"@)
        } else {
            silent(phase)
        },
        ExportPhase::Exiting { polls_waiting, retries } => if inputs.eco {
            moved(ExportPhase::Configured, "Timed Export exited, Eco restored"@)
        } else if inputs.in_window && inputs.paused {
            moved(ExportPhase::BlockedByPause, "Timed Export blocked by pause"@)
        } else if inputs.in_window {
            begin_entry(inputs, "Timed Export re-entering window"@)
        } else {
            retry_exit(inputs.outcome, inputs.leave, polls_waiting, retries)
        },
        ExportPhase::BlockedByPause => if inputs.in_window && inputs.paused {
            silent(phase)
        } else if inputs.in_window {
            begin_entry(inputs, "Timed Export unblocked, entering export"@)
        } else if inputs.paused {
            begin_exit(inputs, "Timed Export exiting while blocked"@)
        } else if inputs.eco {
            moved(ExportPhase::Configured, "Timed Export unblocked, awaiting window"@)
        } else {
            begin_exit(inputs, "Timed Export unblocked after window end, restoring Eco"@)
        },
        ExportPhase::Error { .. } => silent(phase),
    }
}

/// One poll of the machine.
pub open spec fn export_step(inputs: ExportInputs, phase: ExportPhase) -> ExportStep {
    if inputs.scheduled {
        scheduled_step(inputs, phase)
    } else {
        unscheduled_step(inputs, phase)
    }
}

/// Counts one more unconfirmed poll after a successful batch: after the grace
/// period it becomes a retry. Returns whether retries are left.
pub fn bump(polls_waiting: &mut u32, retries: &mut u32) -> (r: bool)
    requires
        *old(retries) < u32::MAX,
    ensures
        (*final(polls_waiting), *final(retries)) == waited(
            *old(polls_waiting),
            *old(retries),
            false,
        ),
        r == (*old(polls_waiting) < TIMED_EXPORT_CONFIRM_GRACE_POLLS || *final(retries)
            <= TIMED_EXPORT_MAX_WRITE_RETRIES),
{
    if *polls_waiting >= TIMED_EXPORT_CONFIRM_GRACE_POLLS {
        *polls_waiting = 0;
        *retries = *retries + 1;
        *retries <= TIMED_EXPORT_MAX_WRITE_RETRIES
    } else {
        *polls_waiting = *polls_waiting + 1;
        true
    }
}

/// Whether the minute (since midnight, on the inverter's clock) is inside an
/// enabled slot that is not empty.
pub fn export_window_contains(slots: &[ScheduleSlot], minute_of_day: u16) -> (r: bool)
    ensures
        r == some_covers(slots@, minute_of_day as int),
{
    is_in_export_window(slots, minute_of_day)
}

fn is_in_export_window(slots: &[ScheduleSlot], minute_of_day: u16) -> (r: bool)
    ensures
        r == some_covers(slots@, minute_of_day as int),
{
    any_covers(slots, minute_of_day)
}

/// Whether discharge is paused at the minute. The pause window is the inverse
/// of the visible discharge window; an empty one pauses nothing.
pub fn hr318_blocks_discharge(snapshot: &InverterSnapshot, minute_of_day: u16) -> (r: bool)
    ensures
        r == discharge_paused(*snapshot, minute_of_day as int),
{
    match snapshot.battery_pause_mode {
        2 | 3 => snapshot.battery_pause_slot.contains_minute(minute_of_day),
        _ => false,
    }
}

/// The writes that enter Timed Export.
pub fn build_timed_export_entry_writes(device_type: DeviceType, config: &TimedExportConfig) -> (r:
    Vec<RegisterWrite>)
    ensures
        r@ == entry_writes(device_type, *config),
{
    let mut writes: Vec<RegisterWrite> = if config.device_rearm_confirmed {
        build_timed_export_slot_restore_writes(device_type, config.slots.as_slice())
    } else {
        Vec::new()
    };
    writes.push(RegisterWrite { address: HR_BATTERY_POWER_MODE, value: 0 });
    writes.push(timed_export_discharge_enable_write(device_type, true));
    assert(writes@ =~= entry_writes(device_type, *config));
    writes
}

/// The writes that leave Timed Export.
pub fn build_timed_export_exit_writes(device_type: DeviceType, config: &TimedExportConfig) -> (r:
    Vec<RegisterWrite>)
    ensures
        r@ == exit_writes(device_type, *config),
{
    let mut writes: Vec<RegisterWrite> = if config.device_rearm_confirmed {
        build_timed_export_slot_clear_writes(device_type)
    } else {
        Vec::new()
    };
    writes.push(timed_export_discharge_enable_write(device_type, false));
    writes.push(RegisterWrite { address: HR_BATTERY_POWER_MODE, value: 1 });
    assert(writes@ =~= exit_writes(device_type, *config));
    writes
}

/// Moves to `next` without writes.
fn move_decision(state: &mut TimedExportState, next: TimedExportState, message: &str) -> (r:
    TimedExportDecision)
    ensures
        r@ == moved(next@, message@),
        final(state)@ == next@,
{
    *state = next;
    let r = TimedExportDecision {
        new_state: state.copy(),
        writes: Vec::new(),
        log_message: Some(message.to_owned()),
        is_exit_transition: false,
    };
    assert(r@.writes =~= Seq::<RegisterWrite>::empty());
    r
}

/// Stays as it is.
fn quiet_decision(state: &TimedExportState) -> (r: TimedExportDecision)
    ensures
        r@ == silent(state@),
{
    let r = TimedExportDecision {
        new_state: state.copy(),
        writes: Vec::new(),
        log_message: None,
        is_exit_transition: false,
    };
    assert(r@.writes =~= Seq::<RegisterWrite>::empty());
    r
}

fn entering_decision(
    state: &mut TimedExportState,
    message: &str,
    writes: Vec<RegisterWrite>,
) -> (r: TimedExportDecision)
    ensures
        r@ == (ExportStep {
            phase: ExportPhase::Entering { polls_waiting: 0, retries: 0 },
            writes: writes@,
            log: Some(message@),
            exit: false,
        }),
        final(state)@ == r@.phase,
{
    *state = TimedExportState::Entering { polls_waiting: 0, retries: 0 };
    TimedExportDecision {
        new_state: state.copy(),
        writes,
        log_message: Some(message.to_owned()),
        is_exit_transition: false,
    }
}

fn exiting_decision(
    state: &mut TimedExportState,
    message: &str,
    writes: Vec<RegisterWrite>,
) -> (r: TimedExportDecision)
    ensures
        r@ == (ExportStep {
            phase: ExportPhase::Exiting { polls_waiting: 0, retries: 0 },
            writes: writes@,
            log: Some(message@),
            exit: true,
        }),
        final(state)@ == r@.phase,
{
    *state = TimedExportState::Exiting { polls_waiting: 0, retries: 0 };
    TimedExportDecision {
        new_state: state.copy(),
        writes,
        log_message: Some(message.to_owned()),
        is_exit_transition: true,
    }
}

fn error_decision(state: &mut TimedExportState, reason: &str) -> (r: TimedExportDecision)
    ensures
        r@ == give_up(reason@),
        final(state)@ == r@.phase,
{
    let message: String = joined("Timed Export error: ", reason);
    move_decision(
        state,
        TimedExportState::Error { reason: reason.to_owned() },
        message.as_str(),
    )
}

/// The message of a retry.
fn retry_text(what: &str, retries: u32) -> (r: String)
    requires
        retries <= TIMED_EXPORT_MAX_WRITE_RETRIES,
    ensures
        r@ == retry_message(what@, retries),
{
    let number: String = decimal_text(retries as u16);
    let head: String = joined(what, number.as_str());
    joined(head.as_str(), " of 3")
}

/// One more poll of an unconfirmed entry.
fn entering_retry_decision(
    state: &mut TimedExportState,
    device_type: DeviceType,
    config: &TimedExportConfig,
    last_write_outcome: TimedExportWriteOutcome,
) -> (r: TimedExportDecision)
    requires
        old(state)@ is Entering,
        old(state)@.can_retry(),
    ensures
        r@ == retry_entry(
            last_write_outcome,
            entry_writes(device_type, *config),
            old(state)@->Entering_polls_waiting,
            old(state)@->Entering_retries,
        ),
        final(state)@ == r@.phase,
{
    let (mut polls, mut tries): (u32, u32) = match *state {
        TimedExportState::Entering { polls_waiting, retries } => (polls_waiting, retries),
        _ => (0, 0),
    };
    let failed: bool = last_write_outcome == TimedExportWriteOutcome::Failed;
    if failed {
        tries += 1;
    } else {
        let _ = bump(&mut polls, &mut tries);
    }
    if tries > TIMED_EXPORT_MAX_WRITE_RETRIES {
        return error_decision(state, "entry writes failed after retries");
    }
    *state = TimedExportState::Entering { polls_waiting: polls, retries: tries };
    if failed || polls == 0 {
        TimedExportDecision {
            new_state: state.copy(),
            writes: build_timed_export_entry_writes(device_type, config),
            log_message: Some(retry_text("Timed Export entry retry ", tries)),
            is_exit_transition: false,
        }
    } else {
        quiet_decision(state)
    }
}

/// One more poll of an unconfirmed exit.
fn exiting_retry_decision(
    state: &mut TimedExportState,
    device_type: DeviceType,
    config: &TimedExportConfig,
    last_write_outcome: TimedExportWriteOutcome,
) -> (r: TimedExportDecision)
    requires
        old(state)@ is Exiting,
        old(state)@.can_retry(),
    ensures
        r@ == retry_exit(
            last_write_outcome,
            exit_writes(device_type, *config),
            old(state)@->Exiting_polls_waiting,
            old(state)@->Exiting_retries,
        ),
        final(state)@ == r@.phase,
{
    let (mut polls, mut tries): (u32, u32) = match *state {
        TimedExportState::Exiting { polls_waiting, retries } => (polls_waiting, retries),
        _ => (0, 0),
    };
    let failed: bool = last_write_outcome == TimedExportWriteOutcome::Failed;
    if failed {
        tries += 1;
    } else {
        let _ = bump(&mut polls, &mut tries);
    }
    if tries > TIMED_EXPORT_MAX_WRITE_RETRIES {
        return error_decision(state, "exit writes failed after retries");
    }
    *state = TimedExportState::Exiting { polls_waiting: polls, retries: tries };
    if failed || polls == 0 {
        TimedExportDecision {
            new_state: state.copy(),
            writes: build_timed_export_exit_writes(device_type, config),
            log_message: Some(retry_text("Timed Export exit retry ", tries)),
            is_exit_transition: true,
        }
    } else {
        quiet_decision(state)
    }
}

/// Evaluates the Timed Export schedule.
///
/// `minute_of_day` is the inverter's local time, `device_type` selects the
/// registers, `last_write_outcome` tells how the previous poll's writes went.
/// While `rearm_observation_in_progress`, nothing is disarmed again outside a
/// window, so that a re-arm by the firmware can be told from the machine's own
/// writes.
pub fn check_timed_export(
    snapshot: &InverterSnapshot,
    config: &TimedExportConfig,
    state: &mut TimedExportState,
    minute_of_day: u16,
    device_type: DeviceType,
    last_write_outcome: TimedExportWriteOutcome,
    rearm_observation_in_progress: bool,
) -> (r: TimedExportDecision)
    requires
        old(state)@.can_retry(),
    ensures
        r@ == export_step(
            export_inputs(
                *snapshot,
                *config,
                minute_of_day as int,
                device_type,
                last_write_outcome,
                rearm_observation_in_progress,
            ),
            old(state)@,
        ),
        final(state)@ == r@.phase,
{
    let in_window: bool = is_in_export_window(config.slots.as_slice(), minute_of_day);
    let scheduled: bool = config.schedule_enabled && any_configured(config.slots.as_slice());
    let paused: bool = hr318_blocks_discharge(snapshot, minute_of_day);
    let exporting: bool = snapshot.battery_power_mode == 0 && snapshot.enable_discharge;
    let eco: bool = snapshot.battery_power_mode == 1 && !snapshot.enable_discharge;
    let slots_populated: bool = any_configured(snapshot.discharge_slots.as_slice());
    let observing: bool = rearm_observation_in_progress;
    let untried: bool = last_write_outcome == TimedExportWriteOutcome::NoneIssued;

    if !scheduled {
        if let TimedExportState::Exiting { polls_waiting, retries } = *state {
            if eco {
                return move_decision(
                    state,
                    TimedExportState::Off,
                    "Timed Export exited, Eco restored",
                );
            }
            if polls_waiting == 0 && retries == 0 && untried {
                return exiting_decision(
                    state,
                    "Timed Export: repairing the stop that failed to disarm",
                    build_timed_export_exit_writes(device_type, config),
                );
            }
            return exiting_retry_decision(state, device_type, config, last_write_outcome);
        }
        if config.stop_pending && !eco && !observing {
            if untried {
                return exiting_decision(
                    state,
                    "Timed Export: repairing the stop/exit left pending (stop-pending marker)",
                    build_timed_export_exit_writes(device_type, config),
                );
            }
            *state = TimedExportState::Exiting { polls_waiting: 0, retries: 0 };
            return exiting_retry_decision(state, device_type, config, last_write_outcome);
        }
        if slots_populated {
            *state = TimedExportState::Off;
            return quiet_decision(state);
        }
        if matches!(state, TimedExportState::Off) {
            if !eco && !observing {
                return exiting_decision(
                    state,
                    "Timed Export: repairing export-armed registers outside a window",
                    build_timed_export_exit_writes(device_type, config),
                );
            }
            return quiet_decision(state);
        }
        return move_decision(state, TimedExportState::Off, "Timed Export schedule disabled");
    }
    match *state {
        TimedExportState::Off => {
            if in_window && !paused {
                entering_decision(
                    state,
                    "Timed Export entering",
                    build_timed_export_entry_writes(device_type, config),
                )
            } else if in_window {
                move_decision(
                    state,
                    TimedExportState::BlockedByPause,
                    "Timed Export blocked by Pause Discharge",
                )
            } else if !eco && !observing {
                exiting_decision(
                    state,
                    "Timed Export: startup repair — export-armed outside window",
                    build_timed_export_exit_writes(device_type, config),
                )
            } else {
                move_decision(
                    state,
                    TimedExportState::Configured,
                    "Timed Export configured for future window",
                )
            }
        },
        TimedExportState::Configured => {
            if in_window && paused {
                move_decision(
                    state,
                    TimedExportState::BlockedByPause,
                    "Timed Export window entered but blocked by pause",
                )
            } else if in_window {
                entering_decision(
                    state,
                    "Timed Export entering",
                    build_timed_export_entry_writes(device_type, config),
                )
            } else if !eco && !observing {
                exiting_decision(
                    state,
                    "Timed Export: repair — export-armed outside window",
                    build_timed_export_exit_writes(device_type, config),
                )
            } else {
                quiet_decision(state)
            }
        },
        TimedExportState::Entering { .. } => {
            if exporting {
                move_decision(
                    state,
                    TimedExportState::Active,
                    "Timed Export active (entry confirmed)",
                )
            } else if !in_window {
                exiting_decision(
                    state,
                    "Timed Export exiting (window ended during entry)",
                    build_timed_export_exit_writes(device_type, config),
                )
            } else if paused {
                move_decision(
                    state,
                    TimedExportState::BlockedByPause,
                    "Timed Export blocked by pause during entry",
                )
            } else {
                entering_retry_decision(state, device_type, config, last_write_outcome)
            }
        },
        TimedExportState::Active => {
            if !in_window {
                exiting_decision(
                    state,
                    "Timed Export exiting",
                    build_timed_export_exit_writes(device_type, config),
                )
            } else if paused {
                move_decision(
                    state,
                    TimedExportState::BlockedByPause,
                    "Timed Export blocked by pause",
                )
            } else if !exporting {
                entering_decision(
                    state,
                    "Timed Export re-entering (registers changed externally)",
                    build_timed_export_entry_writes(device_type, config),
                )
            } else {
                quiet_decision(state)
            }
        },
        TimedExportState::Exiting { .. } => {
            if eco {
                move_decision(
                    state,
                    TimedExportState::Configured,
                    "Timed Export exited, Eco restored",
                )
            } else if in_window && paused {
                move_decision(
                    state,
                    TimedExportState::BlockedByPause,
                    "Timed Export blocked by pause",
                )
            } else if in_window {
                entering_decision(
                    state,
                    "Timed Export re-entering window",
                    build_timed_export_entry_writes(device_type, config),
                )
            } else {
                exiting_retry_decision(state, device_type, config, last_write_outcome)
            }
        },
        TimedExportState::BlockedByPause => {
            if in_window && paused {
                quiet_decision(state)
            } else if in_window {
                entering_decision(
                    state,
                    "Timed Export unblocked, entering export",
                    build_timed_export_entry_writes(device_type, config),
                )
            } else if paused {
                exiting_decision(
                    state,
                    "Timed Export exiting while blocked",
                    build_timed_export_exit_writes(device_type, config),
                )
            } else if eco {
                move_decision(
                    state,
                    TimedExportState::Configured,
                    "Timed Export unblocked, awaiting window",
                )
            } else {
                exiting_decision(
                    state,
                    "Timed Export unblocked after window end, restoring Eco",
                    build_timed_export_exit_writes(device_type, config),
                )
            }
        },
        TimedExportState::Error { .. } => quiet_decision(state),
    }
}

} // verus!
