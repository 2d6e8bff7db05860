//! The four power readings judged together.
use crate::model::InverterSnapshot;
use crate::sanitizer::power::magnitude;
use vstd::prelude::*;

verus! {

/// Largest disagreement (W) of the four power readings that is put down to
/// register precision.
pub const POWER_BALANCE_RESIDUAL_W: i64 = 2_000;

/// Smallest change (W) since the previous poll that makes a reading a suspect.
pub const POWER_BALANCE_CANDIDATE_MIN_DELTA_W: i64 = 1_000;

/// A power reading as it was decoded, and whether the speed-of-change check
/// put the previous reading in its place.
#[derive(Clone, Copy, Debug, PartialEq, Eq, Structural)]
pub struct PowerFieldState {
    pub raw: i32,
    pub rate_rejected: bool,
}

/// One of the four power readings.
#[derive(Clone, Copy, Debug, PartialEq, Eq, Structural)]
pub enum PowerField {
    Solar,
    Battery,
    Grid,
    Home,
}

/// The four power readings of one poll.
pub struct PowerStates {
    pub battery: PowerFieldState,
    pub grid: PowerFieldState,
    pub solar: PowerFieldState,
    pub home: PowerFieldState,
}

/// How far the readings are from `home = solar + battery - grid`.
pub open spec fn imbalance(battery: i32, grid: i32, solar: i32, home: i32) -> int {
    magnitude(solar + battery - grid - home)
}

impl PowerFieldState {
    /// The value that would undo this poll's verdict on the reading: what was
    /// read if it was rejected, the previous reading if it was let through.
    pub open spec fn undone(self, prev: i32) -> i32 {
        if self.rate_rejected {
            self.raw
        } else {
            prev
        }
    }

    /// Whether the reading moved enough to be a suspect.
    pub open spec fn moved(self, prev: i32) -> bool {
        magnitude(self.raw - prev) >= POWER_BALANCE_CANDIDATE_MIN_DELTA_W
    }
}

/// Whether undoing the verdict on `field` alone, with the other readings as they
/// stand, reconciles the readings.
pub open spec fn reconciles(
    field: PowerField,
    snap: InverterSnapshot,
    prev: InverterSnapshot,
    states: PowerStates,
) -> bool {
    let (battery, grid) = (snap.battery_power, snap.grid_power);
    let (solar, home) = (snap.solar_power, snap.home_power);
    match field {
        PowerField::Solar => states.solar.moved(prev.solar_power) && imbalance(
            battery,
            grid,
            states.solar.undone(prev.solar_power),
            home,
        ) < POWER_BALANCE_RESIDUAL_W,
        PowerField::Battery => states.battery.moved(prev.battery_power) && imbalance(
            states.battery.undone(prev.battery_power),
            grid,
            solar,
            home,
        ) < POWER_BALANCE_RESIDUAL_W,
        PowerField::Grid => states.grid.moved(prev.grid_power) && imbalance(
            battery,
            states.grid.undone(prev.grid_power),
            solar,
            home,
        ) < POWER_BALANCE_RESIDUAL_W,
        PowerField::Home => states.home.rate_rejected && states.home.moved(prev.home_power)
            && imbalance(
            battery,
            grid,
            solar,
            states.home.raw,
        ) < POWER_BALANCE_RESIDUAL_W,
    }
}

/// Whether the readings disagree and `field` is the only one that reconciles
/// them.
pub open spec fn sole_culprit(
    field: PowerField,
    snap: InverterSnapshot,
    prev: InverterSnapshot,
    states: PowerStates,
) -> bool {
    &&& imbalance(snap.battery_power, snap.grid_power, snap.solar_power, snap.home_power)
        > POWER_BALANCE_RESIDUAL_W
    &&& forall|f: PowerField| #[trigger] reconciles(f, snap, prev, states) <==> f == field
}

/// The snapshot after the cross-check.
#[verifier::opaque]
pub open spec fn rebalanced(
    snap: InverterSnapshot,
    prev: InverterSnapshot,
    states: PowerStates,
) -> InverterSnapshot {
    if sole_culprit(PowerField::Solar, snap, prev, states) {
        InverterSnapshot { solar_power: states.solar.undone(prev.solar_power), ..snap }
    } else if sole_culprit(PowerField::Battery, snap, prev, states) {
        InverterSnapshot { battery_power: states.battery.undone(prev.battery_power), ..snap }
    } else if sole_culprit(PowerField::Grid, snap, prev, states) {
        InverterSnapshot { grid_power: states.grid.undone(prev.grid_power), ..snap }
    } else if sole_culprit(PowerField::Home, snap, prev, states) {
        InverterSnapshot { home_power: states.home.raw, ..snap }
    } else {
        snap
    }
}

/// Whether the cross-check finds exactly one reading to blame.
#[verifier::opaque]
pub open spec fn has_culprit(
    snap: InverterSnapshot,
    prev: InverterSnapshot,
    states: PowerStates,
) -> bool {
    exists|field: PowerField| #[trigger] sole_culprit(field, snap, prev, states)
}

/// `snap` with the four power readings taken from `from`.
pub open spec fn with_powers_of(snap: InverterSnapshot, from: InverterSnapshot) -> InverterSnapshot {
    InverterSnapshot {
        battery_power: from.battery_power,
        grid_power: from.grid_power,
        solar_power: from.solar_power,
        home_power: from.home_power,
        ..snap
    }
}

fn residual(battery: i32, grid: i32, solar: i32, home: i32) -> (r: i64)
    ensures
        r == imbalance(battery, grid, solar, home),
{
    let sum: i64 = solar as i64 + battery as i64 - grid as i64 - home as i64;
    if sum < 0 {
        -sum
    } else {
        sum
    }
}

impl PowerFieldState {
    fn undo(&self, prev: i32) -> (r: i32)
        ensures
            r == self.undone(prev),
    {
        if self.rate_rejected {
            self.raw
        } else {
            prev
        }
    }

    fn has_moved(&self, prev: i32) -> (r: bool)
        ensures
            r == self.moved(prev),
    {
        let diff: i64 = self.raw as i64 - prev as i64;
        let delta: i64 = if diff < 0 { -diff } else { diff };
        delta >= POWER_BALANCE_CANDIDATE_MIN_DELTA_W
    }
}

/// Cross-checks the four power readings by `home = solar + battery - grid`.
///
/// Where they disagree and undoing this poll's verdict on exactly one of them
/// reconciles them, that one is undone: a rejected reading is put back, and one
/// that was let through gives way to the previous reading. Returns whether that
/// happened.
pub fn cross_validate_power_balance(
    snap: &mut InverterSnapshot,
    prev: &InverterSnapshot,
    battery: PowerFieldState,
    grid: PowerFieldState,
    solar: PowerFieldState,
    home: PowerFieldState,
) -> (r: bool)
    ensures
        *final(snap) == rebalanced(
            *old(snap),
            *prev,
            (PowerStates { battery, grid, solar, home }),
        ),
        r == has_culprit(*old(snap), *prev, (PowerStates { battery, grid, solar, home })),
{
    reveal(rebalanced);
    reveal(has_culprit);
    let ghost states = PowerStates { battery, grid, solar, home };
    let ghost before = *snap;
    if residual(snap.battery_power, snap.grid_power, snap.solar_power, snap.home_power)
        <= POWER_BALANCE_RESIDUAL_W {
        return false;
    }
    let (b, g): (i32, i32) = (snap.battery_power, snap.grid_power);
    let (s, h): (i32, i32) = (snap.solar_power, snap.home_power);
    let new_solar: i32 = solar.undo(prev.solar_power);
    let new_battery: i32 = battery.undo(prev.battery_power);
    let new_grid: i32 = grid.undo(prev.grid_power);
    let by_solar: bool = solar.has_moved(prev.solar_power) && residual(b, g, new_solar, h)
        < POWER_BALANCE_RESIDUAL_W;
    let by_battery: bool = battery.has_moved(prev.battery_power) && residual(
        new_battery,
        g,
        s,
        h,
    ) < POWER_BALANCE_RESIDUAL_W;
    let by_grid: bool = grid.has_moved(prev.grid_power) && residual(b, new_grid, s, h)
        < POWER_BALANCE_RESIDUAL_W;
    let by_home: bool = home.rate_rejected && home.has_moved(prev.home_power) && residual(
        b,
        g,
        s,
        home.raw,
    ) < POWER_BALANCE_RESIDUAL_W;
    assert(by_solar == reconciles(PowerField::Solar, before, *prev, states));
    assert(by_battery == reconciles(PowerField::Battery, before, *prev, states));
    assert(by_grid == reconciles(PowerField::Grid, before, *prev, states));
    assert(by_home == reconciles(PowerField::Home, before, *prev, states));

    match (by_solar, by_battery, by_grid, by_home) {
        (true, false, false, false) => {
            assert(sole_culprit(PowerField::Solar, before, *prev, states));
            snap.solar_power = new_solar;
            true
        },
        (false, true, false, false) => {
            assert(sole_culprit(PowerField::Battery, before, *prev, states));
            snap.battery_power = new_battery;
            true
        },
        (false, false, true, false) => {
            assert(sole_culprit(PowerField::Grid, before, *prev, states));
            snap.grid_power = new_grid;
            true
        },
        (false, false, false, true) => {
            assert(sole_culprit(PowerField::Home, before, *prev, states));
            snap.home_power = home.raw;
            true
        },
        _ => false,
    }
}

} // verus!
