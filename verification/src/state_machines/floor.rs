//! The discharge floor guard: a higher reserve while a discharge window is
//! open.
use crate::model::{
    any_covers, some_covers, three_phase_family, DeviceType, InverterSnapshot, ScheduleSlot,
};
use crate::registers::{setting, RegisterWrite, HR_3PH_BATTERY_SOC_RESERVE, HR_BATTERY_SOC_RESERVE};
use crate::state_machines::winter::writes_view;
use vstd::prelude::*;

verus! {

/// Configuration of the guard.
#[derive(Clone, Copy, Debug, PartialEq, Eq, Structural)]
pub struct DischargeFloorConfig {
    pub enabled: bool,
    /// The reserve (%) to hold while a discharge window is open.
    pub floor_soc: u8,
}

impl Default for DischargeFloorConfig {
    fn default() -> (r: DischargeFloorConfig)
        ensures
            r == (DischargeFloorConfig { enabled: false, floor_soc: 50 }),
    {
        DischargeFloorConfig { enabled: false, floor_soc: 50 }
    }
}

/// State of the guard.
#[derive(Clone, Copy, Debug, PartialEq, Eq, Structural)]
pub enum DischargeFloorState {
    /// No floor is held.
    Idle,
    /// The floor is held; `saved_reserve` was in force before.
    FloorHeld { saved_reserve: u16 },
    /// The floor was held when the process last ran.
    HeldFromRestart { saved_reserve: u16 },
}

impl Default for DischargeFloorState {
    fn default() -> (r: DischargeFloorState)
        ensures
            r == DischargeFloorState::Idle,
    {
        DischargeFloorState::Idle
    }
}

/// The write that sets the reserve on the register that the model has.
pub open spec fn reserve_write(device_type: DeviceType, reserve: u16) -> RegisterWrite {
    setting(
        if three_phase_family(device_type) {
            HR_3PH_BATTERY_SOC_RESERVE
        } else {
            HR_BATTERY_SOC_RESERVE
        },
        reserve,
    )
}

/// One poll of the guard: the next state and the reserve to write, if any.
pub open spec fn floor_step(
    snap: InverterSnapshot,
    config: DischargeFloorConfig,
    state: DischargeFloorState,
    now: int,
) -> (DischargeFloorState, Option<u16>) {
    let open = config.enabled && some_covers(snap.discharge_slots@, now);
    let below = snap.battery_reserve < config.floor_soc;
    let raise = if below {
        Some(config.floor_soc as u16)
    } else {
        None
    };
    match state {
        DischargeFloorState::Idle => if open && below {
            (
                DischargeFloorState::FloorHeld { saved_reserve: snap.battery_reserve as u16 },
                raise,
            )
        } else {
            (state, None)
        },
        DischargeFloorState::FloorHeld { saved_reserve }
        | DischargeFloorState::HeldFromRestart { saved_reserve } => if open {
            (DischargeFloorState::FloorHeld { saved_reserve }, raise)
        } else {
            (DischargeFloorState::Idle, Some(saved_reserve))
        },
    }
}

/// Whether the window of a configured discharge slot is open at the minute.
pub fn discharge_window_active(slots: &[ScheduleSlot], now_minutes: u16) -> (r: bool)
    ensures
        r == some_covers(slots@, now_minutes as int),
{
    any_covers(slots, now_minutes)
}

/// Sets the reserve on the register that the model has.
pub fn soc_reserve_write(device_type: DeviceType, reserve: u16) -> (r: RegisterWrite)
    ensures
        r == reserve_write(device_type, reserve),
{
    RegisterWrite {
        address: if device_type.uses_three_phase_schedule_slots() {
            HR_3PH_BATTERY_SOC_RESERVE
        } else {
            HR_BATTERY_SOC_RESERVE
        },
        value: reserve,
    }
}

fn one_write(device_type: DeviceType, reserve: u16) -> (r: Option<Vec<RegisterWrite>>)
    ensures
        writes_view(r) == Some(seq![reserve_write(device_type, reserve)]),
{
    let writes: Vec<RegisterWrite> = vec![soc_reserve_write(device_type, reserve)];
    assert(writes@ =~= seq![reserve_write(device_type, reserve)]);
    Some(writes)
}

/// Evaluates the guard. Returns the writes to issue, if any.
///
/// While a discharge window is open the reserve is held at the floor, unless it
/// was higher anyway; when the last window closes, or the guard is disabled,
/// the reserve from before is written back.
pub fn check_discharge_floor(
    snap: &InverterSnapshot,
    config: &DischargeFloorConfig,
    state: &mut DischargeFloorState,
    now_minutes: u16,
) -> (r: Option<Vec<RegisterWrite>>)
    ensures
        ({
            let (next, reserve) = floor_step(*snap, *config, *old(state), now_minutes as int);
            &&& *final(state) == next
            &&& writes_view(r) == match reserve {
                Some(value) => Some(seq![reserve_write(snap.device_type, value)]),
                None => None,
            }
        }),
{
    let open: bool = config.enabled && discharge_window_active(
        snap.discharge_slots.as_slice(),
        now_minutes,
    );
    let below: bool = snap.battery_reserve < config.floor_soc;
    match *state {
        DischargeFloorState::Idle => {
            if open && below {
                *state = DischargeFloorState::FloorHeld {
                    saved_reserve: snap.battery_reserve as u16,
                };
                one_write(snap.device_type, config.floor_soc as u16)
            } else {
                None
            }
        },
        DischargeFloorState::FloorHeld { saved_reserve }
        | DischargeFloorState::HeldFromRestart { saved_reserve } => {
            if open {
                *state = DischargeFloorState::FloorHeld { saved_reserve };
                if below {
                    one_write(snap.device_type, config.floor_soc as u16)
                } else {
                    None
                }
            } else {
                *state = DischargeFloorState::Idle;
                one_write(snap.device_type, saved_reserve)
            }
        },
    }
}

} // verus!
