//! The power meters of a snapshot, from raw readings to trusted ones.
use crate::counts::counted;
use crate::model::{plant_controller, DeviceType, InverterSnapshot};
use crate::quantity::Quantity;
use crate::sanitizer::balance::{
    cross_validate_power_balance, has_culprit, rebalanced, with_powers_of, PowerFieldState,
    PowerStates,
};
use crate::sanitizer::power::{
    check_power_field, check_power_rate, field_verdict, rate_verdict, recount,
    ConsecutiveSuspectCounts, FieldRateRules, RateReleaseCounts, Verdict,
};
use vstd::prelude::*;

verus! {

/// The power readings that are checked one by one.
#[derive(Clone, Copy, Debug, PartialEq, Eq, Structural)]
pub enum Meter {
    Battery,
    Grid,
    Solar,
    Home,
    Eps,
}

/// A power register as a signed reading.
pub open spec fn signed_watts(watts: u32) -> i32 {
    if watts <= i32::MAX {
        watts as i32
    } else {
        (watts - 0x1_0000_0000) as i32
    }
}

/// Power between two polls may move by half, or by 2 kW.
pub open spec fn power_rate_rules() -> FieldRateRules {
    FieldRateRules { rate_fraction: Quantity::Nano(500_000_000), abs_delta_w: 2_000 }
}

impl Meter {
    /// The label of the meter.
    pub open spec fn name(self) -> Seq<char> {
        match self {
            Meter::Battery => "battery_power"@,
            Meter::Grid => "grid_power"@,
            Meter::Solar => "solar_power"@,
            Meter::Home => "home_power"@,
            Meter::Eps => "eps_power_w"@,
        }
    }

    /// The reading of the meter in a snapshot.
    pub open spec fn reading(self, snap: InverterSnapshot) -> i32 {
        match self {
            Meter::Battery => snap.battery_power,
            Meter::Grid => snap.grid_power,
            Meter::Solar => snap.solar_power,
            Meter::Home => snap.home_power,
            Meter::Eps => signed_watts(snap.eps_power_w),
        }
    }

    /// The reading of the meter in the previous snapshot.
    pub open spec fn before(self, prev: Option<&InverterSnapshot>) -> Option<i32> {
        match prev {
            Some(p) => Some(self.reading(*p)),
            None => None,
        }
    }

    /// The highest power (W) that needs no persistence to be believed; a plant
    /// adds up several inverters.
    pub open spec fn limit(self, device_type: DeviceType) -> i32 {
        if plant_controller(device_type) {
            if self is Battery {
                20_000
            } else {
                25_000
            }
        } else if self is Battery || self is Solar {
            10_000
        } else {
            15_000
        }
    }
}

/// Seconds between the snapshots; none if the clock went back.
pub open spec fn elapsed(snap: InverterSnapshot, prev: Option<&InverterSnapshot>) -> u64 {
    match prev {
        Some(p) => if snap.timestamp > p.timestamp {
            (snap.timestamp - p.timestamp) as u64
        } else {
            0
        },
        None => 0,
    }
}

/// The absolute-limit verdict on a meter.
pub open spec fn limited(
    meter: Meter,
    snap: InverterSnapshot,
    prev: Option<&InverterSnapshot>,
    suspects: Map<Seq<char>, u8>,
) -> Verdict<i32> {
    field_verdict(
        meter.reading(snap),
        meter.before(prev),
        meter.limit(snap.device_type),
        counted(suspects, meter.name()),
    )
}

/// The speed-of-change verdict on a meter, given what the limit let through.
pub open spec fn smoothed(
    meter: Meter,
    snap: InverterSnapshot,
    prev: Option<&InverterSnapshot>,
    suspects: Map<Seq<char>, u8>,
    rates: Map<Seq<char>, u8>,
) -> Verdict<i32> {
    rate_verdict(
        limited(meter, snap, prev, suspects).value,
        meter.before(prev),
        elapsed(snap, prev),
        power_rate_rules(),
        counted(rates, meter.name()),
    )
}

/// The snapshot with its four balance meters checked one by one.
pub open spec fn smoothed_snapshot(
    snap: InverterSnapshot,
    prev: Option<&InverterSnapshot>,
    suspects: Map<Seq<char>, u8>,
    rates: Map<Seq<char>, u8>,
) -> InverterSnapshot {
    with_powers(
        snap,
        smoothed(Meter::Battery, snap, prev, suspects, rates).value,
        smoothed(Meter::Grid, snap, prev, suspects, rates).value,
        smoothed(Meter::Solar, snap, prev, suspects, rates).value,
        smoothed(Meter::Home, snap, prev, suspects, rates).value,
    )
}

/// What was read on a meter and whether its speed of change was rejected.
pub open spec fn meter_state(
    meter: Meter,
    snap: InverterSnapshot,
    prev: Option<&InverterSnapshot>,
    suspects: Map<Seq<char>, u8>,
    rates: Map<Seq<char>, u8>,
) -> PowerFieldState {
    PowerFieldState {
        raw: meter.reading(snap),
        rate_rejected: smoothed(meter, snap, prev, suspects, rates).replaced,
    }
}

/// The states of the four balance meters.
pub open spec fn meter_states(
    snap: InverterSnapshot,
    prev: Option<&InverterSnapshot>,
    suspects: Map<Seq<char>, u8>,
    rates: Map<Seq<char>, u8>,
) -> PowerStates {
    PowerStates {
        battery: meter_state(Meter::Battery, snap, prev, suspects, rates),
        grid: meter_state(Meter::Grid, snap, prev, suspects, rates),
        solar: meter_state(Meter::Solar, snap, prev, suspects, rates),
        home: meter_state(Meter::Home, snap, prev, suspects, rates),
    }
}

/// Whether the meters are also checked against each other: not without a
/// baseline, nor on a plant, whose grid power is computed from the others.
pub open spec fn cross_checked(
    snap: InverterSnapshot,
    prev: Option<&InverterSnapshot>,
    skip_delta: bool,
) -> bool {
    !skip_delta && !plant_controller(snap.device_type) && prev is Some
}

/// The snapshot with its four balance meters fully checked.
pub open spec fn powered_snapshot(
    snap: InverterSnapshot,
    prev: Option<&InverterSnapshot>,
    skip_delta: bool,
    suspects: Map<Seq<char>, u8>,
    rates: Map<Seq<char>, u8>,
) -> InverterSnapshot {
    let checked = smoothed_snapshot(snap, prev, suspects, rates);
    if cross_checked(snap, prev, skip_delta) {
        rebalanced(checked, *prev->0, meter_states(snap, prev, suspects, rates))
    } else {
        checked
    }
}

/// The backup-output power after its checks; it has no direction.
pub open spec fn eps_kept(
    snap: InverterSnapshot,
    prev: Option<&InverterSnapshot>,
    suspects: Map<Seq<char>, u8>,
    rates: Map<Seq<char>, u8>,
) -> u32 {
    undirected(smoothed(Meter::Eps, snap, prev, suspects, rates).value)
}

/// Whether a check of the meter replaced its reading.
pub open spec fn meter_replaced(
    meter: Meter,
    snap: InverterSnapshot,
    prev: Option<&InverterSnapshot>,
    suspects: Map<Seq<char>, u8>,
    rates: Map<Seq<char>, u8>,
) -> bool {
    limited(meter, snap, prev, suspects).replaced || smoothed(
        meter,
        snap,
        prev,
        suspects,
        rates,
    ).replaced
}

/// Whether any power check replaced a reading.
pub open spec fn power_flagged(
    snap: InverterSnapshot,
    prev: Option<&InverterSnapshot>,
    skip_delta: bool,
    suspects: Map<Seq<char>, u8>,
    rates: Map<Seq<char>, u8>,
) -> bool {
    ||| exists|m: Meter| #[trigger] meter_replaced(m, snap, prev, suspects, rates)
    ||| (cross_checked(snap, prev, skip_delta) && has_culprit(
        smoothed_snapshot(snap, prev, suspects, rates),
        *prev->0,
        meter_states(snap, prev, suspects, rates),
    ))
    ||| eps_kept(snap, prev, suspects, rates) != snap.eps_power_w
}

/// No two meters share a label.
pub proof fn lemma_meter_names_distinct(a: Meter, b: Meter)
    ensures
        a.name() == b.name() ==> a == b,
{
    reveal_strlit("battery_power");
    reveal_strlit("grid_power");
    reveal_strlit("solar_power");
    reveal_strlit("home_power");
    reveal_strlit("eps_power_w");
    assert("battery_power"@[0] == 'b');
    assert("grid_power"@[0] == 'g');
    assert("solar_power"@[0] == 's');
    assert("home_power"@[0] == 'h');
    assert("eps_power_w"@[0] == 'e');
    if a.name() == b.name() {
        assert(a.name()[0] == b.name()[0]);
    }
}

/// A power register as a signed reading.
fn to_signed(watts: u32) -> (r: i32)
    ensures
        r == signed_watts(watts),
{
    if watts <= 0x7fff_ffff {
        watts as i32
    } else {
        (watts as i64 - 0x1_0000_0000) as i32
    }
}

/// Seconds between the snapshots; none if the clock went back.
pub fn elapsed_secs(snap: &InverterSnapshot, prev: Option<&InverterSnapshot>) -> (r: u64)
    ensures
        r == elapsed(*snap, prev),
{
    match prev {
        Some(p) => if snap.timestamp > p.timestamp {
            (snap.timestamp as i128 - p.timestamp as i128) as u64
        } else {
            0
        },
        None => 0,
    }
}

impl Meter {
    fn label(self) -> (r: &'static str)
        ensures
            r@ == self.name(),
    {
        match self {
            Meter::Battery => "battery_power",
            Meter::Grid => "grid_power",
            Meter::Solar => "solar_power",
            Meter::Home => "home_power",
            Meter::Eps => "eps_power_w",
        }
    }

    fn get(self, snap: &InverterSnapshot) -> (r: i32)
        ensures
            r == self.reading(*snap),
    {
        match self {
            Meter::Battery => snap.battery_power,
            Meter::Grid => snap.grid_power,
            Meter::Solar => snap.solar_power,
            Meter::Home => snap.home_power,
            Meter::Eps => to_signed(snap.eps_power_w),
        }
    }

    fn max_watts(self, device_type: DeviceType) -> (r: i32)
        ensures
            r == self.limit(device_type),
    {
        let battery: bool = matches!(self, Meter::Battery);
        if device_type.needs_gateway_input_blocks() {
            if battery {
                20_000
            } else {
                25_000
            }
        } else if battery || matches!(self, Meter::Solar) {
            10_000
        } else {
            15_000
        }
    }

    /// Checks one meter on its own. Returns the value to use, whether a check
    /// replaced the reading, and whether it was the speed-of-change check.
    fn check(
        self,
        snap: &InverterSnapshot,
        prev: Option<&InverterSnapshot>,
        suspects: &mut ConsecutiveSuspectCounts,
        rates: &mut RateReleaseCounts,
    ) -> (r: (i32, bool, bool))
        ensures
            r.0 == smoothed(self, *snap, prev, old(suspects).0@, old(rates).0@).value,
            r.1 == meter_replaced(self, *snap, prev, old(suspects).0@, old(rates).0@),
            r.2 == smoothed(self, *snap, prev, old(suspects).0@, old(rates).0@).replaced,
            final(suspects).0@ == recount(
                old(suspects).0@,
                self.name(),
                limited(self, *snap, prev, old(suspects).0@).count,
            ),
            final(rates).0@ == recount(
                old(rates).0@,
                self.name(),
                smoothed(self, *snap, prev, old(suspects).0@, old(rates).0@).count,
            ),
    {
        let rules = FieldRateRules {
            rate_fraction: Quantity::Nano(500_000_000),
            abs_delta_w: 2_000,
        };
        let last: Option<i32> = match prev {
            Some(p) => Some(self.get(p)),
            None => None,
        };
        let label: &'static str = self.label();
        let (limited_value, over) = check_power_field(
            self.get(snap),
            last,
            self.max_watts(snap.device_type),
            label,
            suspects,
        );
        let (value, rejected) = check_power_rate(
            limited_value,
            last,
            elapsed_secs(snap, prev),
            &rules,
            label,
            rates,
        );
        (value, over || rejected, rejected)
    }
}

/// What the counters of the five meters become.
#[verifier::opaque]
pub open spec fn meters_counted(
    snap: InverterSnapshot,
    prev: Option<&InverterSnapshot>,
    suspects: Map<Seq<char>, u8>,
    rates: Map<Seq<char>, u8>,
    new_suspects: Map<Seq<char>, u8>,
    new_rates: Map<Seq<char>, u8>,
) -> bool {
    &&& forall|m: Meter|
        counted(new_suspects, #[trigger] m.name()) == limited(m, snap, prev, suspects).count
            && counted(new_rates, m.name()) == smoothed(m, snap, prev, suspects, rates).count
    &&& forall|label: Seq<char>|
        (forall|m: Meter| #[trigger] m.name() != label) ==> #[trigger] counted(new_suspects, label)
            == counted(suspects, label) && counted(new_rates, label) == counted(rates, label)
}

/// The meters of one snapshot after their separate checks.
struct MeterReport {
    battery: (i32, bool),
    grid: (i32, bool),
    solar: (i32, bool),
    home: (i32, bool),
    eps: i32,
    flagged: bool,
}

/// Checks the five meters one by one: the values to use, whether the speed of
/// change was rejected, and whether any reading was replaced.
fn check_each_meter(
    snap: &InverterSnapshot,
    prev: Option<&InverterSnapshot>,
    suspects: &mut ConsecutiveSuspectCounts,
    rates: &mut RateReleaseCounts,
) -> (r: MeterReport)
    ensures
        ({
            let s = old(suspects).0@;
            let t = old(rates).0@;
            let battery = smoothed(Meter::Battery, *snap, prev, s, t);
            let grid = smoothed(Meter::Grid, *snap, prev, s, t);
            let solar = smoothed(Meter::Solar, *snap, prev, s, t);
            let home = smoothed(Meter::Home, *snap, prev, s, t);
            &&& r.battery == (battery.value, battery.replaced)
            &&& r.grid == (grid.value, grid.replaced)
            &&& r.solar == (solar.value, solar.replaced)
            &&& r.home == (home.value, home.replaced)
            &&& r.eps == smoothed(Meter::Eps, *snap, prev, s, t).value
            &&& r.flagged == exists|m: Meter| #[trigger] meter_replaced(m, *snap, prev, s, t)
            &&& meters_counted(*snap, prev, s, t, final(suspects).0@, final(rates).0@)
        }),
{
    let ghost s0 = suspects.0@;
    let ghost r0 = rates.0@;
    proof {
        assert forall|a: Meter, b: Meter| #[trigger] a.name() == #[trigger] b.name() implies a
            == b by {
            lemma_meter_names_distinct(a, b);
        }
    }
    let (battery, battery_replaced, battery_rejected) = Meter::Battery.check(
        snap,
        prev,
        suspects,
        rates,
    );
    let (grid, grid_replaced, grid_rejected) = Meter::Grid.check(snap, prev, suspects, rates);
    let (solar, solar_replaced, solar_rejected) = Meter::Solar.check(snap, prev, suspects, rates);
    let (home, home_replaced, home_rejected) = Meter::Home.check(snap, prev, suspects, rates);
    let (eps, eps_replaced, _) = Meter::Eps.check(snap, prev, suspects, rates);
    let flagged: bool = battery_replaced || grid_replaced || solar_replaced || home_replaced
        || eps_replaced;
    reveal(meters_counted);
    proof {
        assert(battery_replaced == meter_replaced(Meter::Battery, *snap, prev, s0, r0));
        assert(grid_replaced == meter_replaced(Meter::Grid, *snap, prev, s0, r0));
        assert(solar_replaced == meter_replaced(Meter::Solar, *snap, prev, s0, r0));
        assert(home_replaced == meter_replaced(Meter::Home, *snap, prev, s0, r0));
        assert(eps_replaced == meter_replaced(Meter::Eps, *snap, prev, s0, r0));
        assert forall|m: Meter| #[trigger] meter_replaced(m, *snap, prev, s0, r0) implies flagged by {
            match m {
                Meter::Battery => {},
                Meter::Grid => {},
                Meter::Solar => {},
                Meter::Home => {},
                Meter::Eps => {},
            }
        }
        assert forall|m: Meter|
            counted(suspects.0@, #[trigger] m.name()) == limited(m, *snap, prev, s0).count
                && counted(rates.0@, m.name()) == smoothed(m, *snap, prev, s0, r0).count by {
            match m {
                Meter::Battery => {},
                Meter::Grid => {},
                Meter::Solar => {},
                Meter::Home => {},
                Meter::Eps => {},
            }
        }
        assert forall|label: Seq<char>|
            (forall|m: Meter| #[trigger] m.name() != label) implies #[trigger] counted(
            suspects.0@,
            label,
        ) == counted(s0, label) && counted(rates.0@, label) == counted(r0, label) by {
            assert(Meter::Battery.name() != label);
            assert(Meter::Grid.name() != label);
            assert(Meter::Solar.name() != label);
            assert(Meter::Home.name() != label);
            assert(Meter::Eps.name() != label);
        }
    }
    MeterReport {
        battery: (battery, battery_rejected),
        grid: (grid, grid_rejected),
        solar: (solar, solar_rejected),
        home: (home, home_rejected),
        eps,
        flagged,
    }
}

/// `snap` with the four balance meters set.
pub open spec fn with_powers(
    snap: InverterSnapshot,
    battery: i32,
    grid: i32,
    solar: i32,
    home: i32,
) -> InverterSnapshot {
    InverterSnapshot {
        battery_power: battery,
        grid_power: grid,
        solar_power: solar,
        home_power: home,
        ..snap
    }
}

/// The power checks touch nothing but the four balance meters.
pub proof fn lemma_powered_frame(
    snap: InverterSnapshot,
    prev: Option<&InverterSnapshot>,
    skip_delta: bool,
    suspects: Map<Seq<char>, u8>,
    rates: Map<Seq<char>, u8>,
)
    ensures
        ({
            let p = powered_snapshot(snap, prev, skip_delta, suspects, rates);
            p == with_powers_of(snap, p)
        }),
{
    reveal(rebalanced);
}

fn put_powers(snap: &mut InverterSnapshot, battery: i32, grid: i32, solar: i32, home: i32)
    ensures
        *final(snap) == with_powers(*old(snap), battery, grid, solar, home),
{
    snap.battery_power = battery;
    snap.grid_power = grid;
    snap.solar_power = solar;
    snap.home_power = home;
}

/// A backup-output power has no direction.
pub open spec fn undirected(watts: i32) -> u32 {
    if watts < 0 {
        0
    } else {
        watts as u32
    }
}

impl MeterReport {
    /// The states of the balance meters, given what was read.
    spec fn states(self, snap: InverterSnapshot) -> PowerStates {
        PowerStates {
            battery: PowerFieldState { raw: snap.battery_power, rate_rejected: self.battery.1 },
            grid: PowerFieldState { raw: snap.grid_power, rate_rejected: self.grid.1 },
            solar: PowerFieldState { raw: snap.solar_power, rate_rejected: self.solar.1 },
            home: PowerFieldState { raw: snap.home_power, rate_rejected: self.home.1 },
        }
    }

    /// The snapshot with the balance meters of the report.
    spec fn placed(self, snap: InverterSnapshot) -> InverterSnapshot {
        with_powers(snap, self.battery.0, self.grid.0, self.solar.0, self.home.0)
    }
}

/// Puts the checked balance meters into `snap` and checks them against each
/// other where that applies. Returns whether one was changed by that.
fn place_meters(
    snap: &mut InverterSnapshot,
    prev: Option<&InverterSnapshot>,
    skip_delta: bool,
    report: &MeterReport,
) -> (r: bool)
    ensures
        *final(snap) == if cross_checked(*old(snap), prev, skip_delta) {
            rebalanced(report.placed(*old(snap)), *prev->0, report.states(*old(snap)))
        } else {
            report.placed(*old(snap))
        },
        r == (cross_checked(*old(snap), prev, skip_delta) && has_culprit(
            report.placed(*old(snap)),
            *prev->0,
            report.states(*old(snap)),
        )),
{
    let battery = PowerFieldState { raw: snap.battery_power, rate_rejected: report.battery.1 };
    let grid = PowerFieldState { raw: snap.grid_power, rate_rejected: report.grid.1 };
    let solar = PowerFieldState { raw: snap.solar_power, rate_rejected: report.solar.1 };
    let home = PowerFieldState { raw: snap.home_power, rate_rejected: report.home.1 };
    let plant: bool = snap.device_type.needs_gateway_input_blocks();
    put_powers(snap, report.battery.0, report.grid.0, report.solar.0, report.home.0);
    if skip_delta || plant {
        return false;
    }
    match prev {
        Some(p) => cross_validate_power_balance(snap, p, battery, grid, solar, home),
        None => false,
    }
}

/// Checks the power meters of `snap`: each against its limit and its speed of
/// change, then the four of the energy balance against each other. Returns
/// whether a reading was replaced.
pub fn check_meters(
    snap: &mut InverterSnapshot,
    prev: Option<&InverterSnapshot>,
    skip_delta: bool,
    suspects: &mut ConsecutiveSuspectCounts,
    rates: &mut RateReleaseCounts,
) -> (r: bool)
    ensures
        *final(snap) == (InverterSnapshot {
            eps_power_w: eps_kept(*old(snap), prev, old(suspects).0@, old(rates).0@),
            ..powered_snapshot(*old(snap), prev, skip_delta, old(suspects).0@, old(rates).0@)
        }),
        r == power_flagged(*old(snap), prev, skip_delta, old(suspects).0@, old(rates).0@),
        meters_counted(
            *old(snap),
            prev,
            old(suspects).0@,
            old(rates).0@,
            final(suspects).0@,
            final(rates).0@,
        ),
{
    let report: MeterReport = check_each_meter(snap, prev, suspects, rates);
    let eps_watts: u32 = if report.eps < 0 { 0 } else { report.eps as u32 };
    let eps_changed: bool = eps_watts != snap.eps_power_w;
    proof {
        let (s, t) = (old(suspects).0@, old(rates).0@);
        assert(report.placed(*snap) == smoothed_snapshot(*snap, prev, s, t));
        assert(report.states(*snap) == meter_states(*snap, prev, s, t));
        assert(eps_watts == eps_kept(*snap, prev, s, t));
    }
    let rebalanced_one: bool = place_meters(snap, prev, skip_delta, &report);
    snap.eps_power_w = eps_watts;
    report.flagged || eps_changed || rebalanced_one
}

} // verus!
