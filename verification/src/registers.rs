//! Holding registers and the writes that program them.
use vstd::prelude::*;

verus! {

pub const HR_ENABLE_CHARGE_TARGET: u16 = 20;

/// 0 exports at maximum power, 1 follows the house.
pub const HR_BATTERY_POWER_MODE: u16 = 27;

pub const HR_DISCHARGE_SLOT_2_START: u16 = 44;

pub const HR_DISCHARGE_SLOT_1_START: u16 = 56;

pub const HR_DISCHARGE_SLOT_1_END: u16 = 57;

pub const HR_ENABLE_DISCHARGE: u16 = 59;

pub const HR_CHARGE_SLOT_1_START: u16 = 94;

pub const HR_CHARGE_SLOT_1_END: u16 = 95;

pub const HR_ENABLE_CHARGE: u16 = 96;

pub const HR_BATTERY_SOC_RESERVE: u16 = 110;

pub const HR_BATTERY_CHARGE_LIMIT: u16 = 111;

pub const HR_CHARGE_TARGET_SOC: u16 = 116;

/// Target of charge slot 1 in the extended block.
pub const HR_CHARGE_TARGET_SOC_1: u16 = 242;

/// Target of discharge slot 1 in the extended block; each further slot is three
/// registers on.
pub const HR_DISCHARGE_TARGET_SOC_1: u16 = 272;

/// Start of discharge slot 3 in the extended block; its end follows, and each
/// further slot is three registers on.
pub const HR_DISCHARGE_SLOT_3_START: u16 = 276;

pub const HR_AC_BATTERY_CHARGE_LIMIT: u16 = 313;

pub const HR_3PH_BATTERY_SOC_RESERVE: u16 = 1109;

pub const HR_3PH_BATTERY_CHARGE_LIMIT: u16 = 1110;

pub const HR_3PH_CHARGE_SLOT_1_START: u16 = 1113;

pub const HR_3PH_CHARGE_SLOT_1_END: u16 = 1114;

pub const HR_3PH_DISCHARGE_SLOT_1_START: u16 = 1118;

pub const HR_3PH_DISCHARGE_SLOT_2_START: u16 = 1120;

pub const HR_3PH_FORCE_DISCHARGE_ENABLE: u16 = 1122;

/// One register to be set.
#[derive(Clone, Copy, Debug, PartialEq, Eq, Structural)]
pub struct RegisterWrite {
    pub address: u16,
    pub value: u16,
}

/// A write of `value` to `address`.
pub open spec fn setting(address: u16, value: u16) -> RegisterWrite {
    RegisterWrite { address, value }
}

/// A clock time packed as hours times 100 plus minutes, if it is one.
pub open spec fn hhmm(hour: u8, minute: u8) -> Option<u16> {
    if hour < 24 && minute < 60 {
        Some((hour * 100 + minute) as u16)
    } else {
        None
    }
}

/// Packs a clock time as hours times 100 plus minutes; `None` if it is not a
/// time of day.
pub fn encode_hhmm(hour: u8, minute: u8) -> (r: Option<u16>)
    ensures
        r == hhmm(hour, minute),
{
    if hour < 24 && minute < 60 {
        Some(hour as u16 * 100 + minute as u16)
    } else {
        None
    }
}

/// Whether `packed` is a clock time packed as hours times 100 plus minutes.
pub open spec fn packed_time(packed: u16) -> bool {
    packed / 100 < 24 && packed % 100 < 60
}

/// A command to the inverter that takes one or more register writes.
#[derive(Clone, Copy, Debug, PartialEq, Eq, Structural)]
pub enum ControlCommand {
    SetDischargeSlot1 { start: u16, end: u16 },
    SetDischargeSlot2 { start: u16, end: u16 },
    SetThreePhaseDischargeSlot1 { start: u16, end: u16 },
    SetThreePhaseDischargeSlot2 { start: u16, end: u16 },
    /// A slot of the extended block, 3 to 10.
    SetDischargeSlotN { slot: u8, start: u16, end: u16 },
    /// The target of a slot in the extended block, 1 to 10.
    SetDischargeTargetSocSlot { slot: u8, soc: u16 },
}

/// The two writes of a slot's times.
pub open spec fn slot_writes(address: u16, start: u16, end: u16) -> Seq<RegisterWrite> {
    seq![setting(address, start), setting((address + 1) as u16, end)]
}

/// The writes of a command; `None` where its values are not ones the registers
/// take.
pub open spec fn encoded(command: ControlCommand) -> Option<Seq<RegisterWrite>> {
    match command {
        ControlCommand::SetDischargeSlot1 { start, end } => if packed_time(start) && packed_time(
            end,
        ) {
            Some(slot_writes(HR_DISCHARGE_SLOT_1_START, start, end))
        } else {
            None
        },
        ControlCommand::SetDischargeSlot2 { start, end } => if packed_time(start) && packed_time(
            end,
        ) {
            Some(slot_writes(HR_DISCHARGE_SLOT_2_START, start, end))
        } else {
            None
        },
        ControlCommand::SetThreePhaseDischargeSlot1 { start, end } => if packed_time(start)
            && packed_time(end) {
            Some(slot_writes(HR_3PH_DISCHARGE_SLOT_1_START, start, end))
        } else {
            None
        },
        ControlCommand::SetThreePhaseDischargeSlot2 { start, end } => if packed_time(start)
            && packed_time(end) {
            Some(slot_writes(HR_3PH_DISCHARGE_SLOT_2_START, start, end))
        } else {
            None
        },
        ControlCommand::SetDischargeSlotN { slot, start, end } => if 3 <= slot <= 10
            && packed_time(start) && packed_time(end) {
            Some(
                slot_writes(
                    (HR_DISCHARGE_SLOT_3_START + 3 * (slot - 3)) as u16,
                    start,
                    end,
                ),
            )
        } else {
            None
        },
        ControlCommand::SetDischargeTargetSocSlot { slot, soc } => if 1 <= slot <= 10 && 4 <= soc
            <= 100 {
            Some(seq![setting((HR_DISCHARGE_TARGET_SOC_1 + 3 * (slot - 1)) as u16, soc)])
        } else {
            None
        },
    }
}

fn encode_slot(address: u16, start: u16, end: u16) -> (r: Result<Vec<RegisterWrite>, String>)
    requires
        address < 2000,
    ensures
        match r {
            Ok(w) => packed_time(start) && packed_time(end) && w@ == slot_writes(
                address,
                start,
                end,
            ),
            Err(e) => !(packed_time(start) && packed_time(end)) && e@
                == "Slot time is not a time of day"@,
        },
{
    if start / 100 < 24 && start % 100 < 60 && end / 100 < 24 && end % 100 < 60 {
        let w: Vec<RegisterWrite> = vec![
            RegisterWrite { address, value: start },
            RegisterWrite { address: address + 1, value: end },
        ];
        assert(w@ =~= slot_writes(address, start, end));
        Ok(w)
    } else {
        Err("Slot time is not a time of day".to_owned())
    }
}

impl ControlCommand {
    /// The writes that carry out the command, or why its values are refused.
    pub fn encode(&self) -> (r: Result<Vec<RegisterWrite>, String>)
        ensures
            match r {
                Ok(w) => encoded(*self) == Some(w@),
                Err(_) => encoded(*self) is None,
            },
    {
        match *self {
            ControlCommand::SetDischargeSlot1 { start, end } => encode_slot(
                HR_DISCHARGE_SLOT_1_START,
                start,
                end,
            ),
            ControlCommand::SetDischargeSlot2 { start, end } => encode_slot(
                HR_DISCHARGE_SLOT_2_START,
                start,
                end,
            ),
            ControlCommand::SetThreePhaseDischargeSlot1 { start, end } => encode_slot(
                HR_3PH_DISCHARGE_SLOT_1_START,
                start,
                end,
            ),
            ControlCommand::SetThreePhaseDischargeSlot2 { start, end } => encode_slot(
                HR_3PH_DISCHARGE_SLOT_2_START,
                start,
                end,
            ),
            ControlCommand::SetDischargeSlotN { slot, start, end } => {
                if slot < 3 || slot > 10 {
                    return Err("Discharge slot is not in the extended block".to_owned());
                }
                encode_slot(HR_DISCHARGE_SLOT_3_START + 3 * (slot as u16 - 3), start, end)
            },
            ControlCommand::SetDischargeTargetSocSlot { slot, soc } => {
                if slot < 1 || slot > 10 || soc < 4 || soc > 100 {
                    return Err("Discharge slot target is out of range".to_owned());
                }
                let w: Vec<RegisterWrite> = vec![
                    RegisterWrite {
                        address: HR_DISCHARGE_TARGET_SOC_1 + 3 * (slot as u16 - 1),
                        value: soc,
                    },
                ];
                assert(encoded(*self)->0 =~= w@);
                Ok(w)
            },
        }
    }
}

} // verus!
