//! Cumulative energy counters: plausible range and plausible growth.
use crate::counts::{counted, LabelCounts};
use crate::model::{plant_controller, InverterSnapshot};
use crate::quantity::{whole, Quantity};
use crate::sanitizer::power::{bumped, recount, Verdict};
use vstd::prelude::*;

verus! {

/// Consecutive implausible readings of a counter after which the reading is
/// believed and the previous value was the wrong one.
pub const DELTA_CORRECTION_RELEASE_THRESHOLD: u8 = 10;

/// Consecutive implausible readings per energy counter.
#[derive(Clone, Debug)]
pub struct DeltaCorrectionCounts(pub LabelCounts);

impl Default for DeltaCorrectionCounts {
    fn default() -> (r: DeltaCorrectionCounts)
        ensures
            r.0@ == Map::<Seq<char>, u8>::empty(),
    {
        DeltaCorrectionCounts(LabelCounts::default())
    }
}

/// The counters that are checked.
#[derive(Clone, Copy, Debug, PartialEq, Eq, Structural)]
pub enum EnergyField {
    TodaySolar,
    TodayPv1,
    TodayPv2,
    TodayImport,
    TodayExport,
    TodayCharge,
    TodayDischarge,
    TodayConsumption,
    TodayAcCharge,
    TotalImport,
    TotalExport,
    TotalCharge,
    TotalDischarge,
}

impl EnergyField {
    /// Lifetime counters never reset.
    pub open spec fn lifetime(self) -> bool {
        self is TotalImport || self is TotalExport || self is TotalCharge || self is TotalDischarge
    }

    /// The label of the counter.
    pub open spec fn name(self) -> Seq<char> {
        match self {
            EnergyField::TodaySolar => "today_solar_kwh"@,
            EnergyField::TodayPv1 => "today_pv1_kwh"@,
            EnergyField::TodayPv2 => "today_pv2_kwh"@,
            EnergyField::TodayImport => "today_import_kwh"@,
            EnergyField::TodayExport => "today_export_kwh"@,
            EnergyField::TodayCharge => "today_charge_kwh"@,
            EnergyField::TodayDischarge => "today_discharge_kwh"@,
            EnergyField::TodayConsumption => "today_consumption_kwh"@,
            EnergyField::TodayAcCharge => "today_ac_charge_kwh"@,
            EnergyField::TotalImport => "total_import_kwh"@,
            EnergyField::TotalExport => "total_export_kwh"@,
            EnergyField::TotalCharge => "total_charge_kwh"@,
            EnergyField::TotalDischarge => "total_discharge_kwh"@,
        }
    }

    /// The value of the counter in a snapshot.
    pub open spec fn of(self, snap: InverterSnapshot) -> Quantity {
        match self {
            EnergyField::TodaySolar => snap.today_solar_kwh,
            EnergyField::TodayPv1 => snap.today_pv1_kwh,
            EnergyField::TodayPv2 => snap.today_pv2_kwh,
            EnergyField::TodayImport => snap.today_import_kwh,
            EnergyField::TodayExport => snap.today_export_kwh,
            EnergyField::TodayCharge => snap.today_charge_kwh,
            EnergyField::TodayDischarge => snap.today_discharge_kwh,
            EnergyField::TodayConsumption => snap.today_consumption_kwh,
            EnergyField::TodayAcCharge => snap.today_ac_charge_kwh,
            EnergyField::TotalImport => snap.total_import_kwh,
            EnergyField::TotalExport => snap.total_export_kwh,
            EnergyField::TotalCharge => snap.total_charge_kwh,
            EnergyField::TotalDischarge => snap.total_discharge_kwh,
        }
    }

    /// `snap` with the counter set to `value`.
    pub open spec fn put(self, snap: InverterSnapshot, value: Quantity) -> InverterSnapshot {
        match self {
            EnergyField::TodaySolar => InverterSnapshot { today_solar_kwh: value, ..snap },
            EnergyField::TodayPv1 => InverterSnapshot { today_pv1_kwh: value, ..snap },
            EnergyField::TodayPv2 => InverterSnapshot { today_pv2_kwh: value, ..snap },
            EnergyField::TodayImport => InverterSnapshot { today_import_kwh: value, ..snap },
            EnergyField::TodayExport => InverterSnapshot { today_export_kwh: value, ..snap },
            EnergyField::TodayCharge => InverterSnapshot { today_charge_kwh: value, ..snap },
            EnergyField::TodayDischarge => InverterSnapshot { today_discharge_kwh: value, ..snap },
            EnergyField::TodayConsumption => InverterSnapshot { today_consumption_kwh: value, ..snap },
            EnergyField::TodayAcCharge => InverterSnapshot { today_ac_charge_kwh: value, ..snap },
            EnergyField::TotalImport => InverterSnapshot { total_import_kwh: value, ..snap },
            EnergyField::TotalExport => InverterSnapshot { total_export_kwh: value, ..snap },
            EnergyField::TotalCharge => InverterSnapshot { total_charge_kwh: value, ..snap },
            EnergyField::TotalDischarge => InverterSnapshot { total_discharge_kwh: value, ..snap },
        }
    }

    /// Position of the counter in the order of checking.
    pub open spec fn position(self) -> int {
        match self {
            EnergyField::TodaySolar => 0,
            EnergyField::TodayPv1 => 1,
            EnergyField::TodayPv2 => 2,
            EnergyField::TodayImport => 3,
            EnergyField::TodayExport => 4,
            EnergyField::TodayCharge => 5,
            EnergyField::TodayDischarge => 6,
            EnergyField::TodayConsumption => 7,
            EnergyField::TodayAcCharge => 8,
            EnergyField::TotalImport => 9,
            EnergyField::TotalExport => 10,
            EnergyField::TotalCharge => 11,
            EnergyField::TotalDischarge => 12,
        }
    }

    /// The largest plausible value (kWh): a day's energy, more for a plant of
    /// several inverters, or a lifetime's.
    pub open spec fn ceiling(self, snap: InverterSnapshot) -> Quantity {
        if self.lifetime() {
            whole(100_000)
        } else if plant_controller(snap.device_type) {
            whole(500)
        } else {
            whole(200)
        }
    }

    /// A decrease up to this much (billionths of a kWh) is reading noise; the
    /// derived consumption counter wobbles more than the others.
    pub open spec fn noise(self) -> int {
        if self is TodayConsumption {
            500_000_000
        } else {
            250_000_000
        }
    }

    /// The power (kW) at which the counter may grow.
    pub open spec fn growth_kw(self) -> int {
        if self.lifetime() {
            15
        } else {
            10
        }
    }
}

/// `snap` with every checked counter taken from `from`.
pub open spec fn with_energy_of(snap: InverterSnapshot, from: InverterSnapshot) -> InverterSnapshot {
    InverterSnapshot {
        today_solar_kwh: from.today_solar_kwh,
        today_pv1_kwh: from.today_pv1_kwh,
        today_pv2_kwh: from.today_pv2_kwh,
        today_import_kwh: from.today_import_kwh,
        today_export_kwh: from.today_export_kwh,
        today_charge_kwh: from.today_charge_kwh,
        today_discharge_kwh: from.today_discharge_kwh,
        today_consumption_kwh: from.today_consumption_kwh,
        today_ac_charge_kwh: from.today_ac_charge_kwh,
        total_import_kwh: from.total_import_kwh,
        total_export_kwh: from.total_export_kwh,
        total_charge_kwh: from.total_charge_kwh,
        total_discharge_kwh: from.total_discharge_kwh,
        ..snap
    }
}

/// Whether a counter reading lies outside zero to its ceiling.
pub open spec fn out_of_range(value: Quantity, ceiling: Quantity) -> bool {
    value.lt(whole(0)) || ceiling.lt(value)
}

/// A counter reading after the range check: an implausible one gives way to
/// the previous value, or to zero.
pub open spec fn ranged(value: Quantity, prev: Option<Quantity>, ceiling: Quantity) -> Quantity {
    if out_of_range(value, ceiling) {
        match prev {
            Some(p) => p,
            None => whole(0),
        }
    } else {
        value
    }
}

/// Whether `raw` exceeds `prev` by more than `growth_kw` can add in the elapsed
/// time, plus one kWh of margin.
pub open spec fn outgrows(raw: Quantity, prev: Quantity, elapsed_secs: u64, growth_kw: int) -> bool {
    raw is Nano && prev is Nano && (raw->Nano_0 - prev->Nano_0 - 1_000_000_000) * 3600
        > elapsed_secs * growth_kw * 1_000_000_000
}

/// Whether `raw` is below `prev` by no more than the noise.
pub open spec fn wobbles(raw: Quantity, prev: Quantity, noise: int) -> bool {
    raw.lt(prev) && raw->Nano_0 + noise >= prev->Nano_0
}

/// Whether a drop from `prev` to `raw` looks like the midnight reset.
pub open spec fn resets(raw: Quantity, prev: Quantity) -> bool {
    raw.lt(prev) && raw.lt(whole(5)) && whole(5).lt(prev)
}

/// The growth check of one counter reading.
pub open spec fn delta_verdict(
    raw: Quantity,
    prev: Quantity,
    elapsed_secs: u64,
    growth_kw: int,
    noise: int,
    may_reset: bool,
    count: Option<u8>,
) -> Verdict<Quantity> {
    if prev.lt(whole(1)) {
        Verdict { value: raw, replaced: false, count: None }
    } else if may_reset && resets(raw, prev) {
        Verdict { value: raw, replaced: false, count: None }
    } else if wobbles(raw, prev, noise) {
        Verdict { value: prev, replaced: false, count }
    } else if raw.lt(prev) || outgrows(raw, prev, elapsed_secs, growth_kw) {
        if bumped(count) >= DELTA_CORRECTION_RELEASE_THRESHOLD {
            Verdict { value: raw, replaced: false, count: None }
        } else {
            Verdict { value: prev, replaced: true, count: Some(bumped(count) as u8) }
        }
    } else {
        Verdict { value: raw, replaced: false, count: None }
    }
}

/// The growth check of the counter `field` of `snap`.
pub open spec fn field_delta(
    field: EnergyField,
    snap: InverterSnapshot,
    prev: InverterSnapshot,
    elapsed_secs: u64,
    reset_window: bool,
    counts: Map<Seq<char>, u8>,
) -> Verdict<Quantity> {
    delta_verdict(
        field.of(snap),
        field.of(prev),
        elapsed_secs,
        field.growth_kw(),
        field.noise(),
        reset_window && !field.lifetime(),
        counted(counts, field.name()),
    )
}

/// Characters that tell the labels apart.
spec fn tag(name: Seq<char>) -> (char, char, char, char) {
    (name[2], name[6], name[7], name[8])
}

/// No two counters share a label.
pub proof fn lemma_names_distinct(a: EnergyField, b: EnergyField)
    ensures
        a.name() == b.name() ==> a == b,
{
    reveal_strlit("today_solar_kwh");
    reveal_strlit("today_pv1_kwh");
    reveal_strlit("today_pv2_kwh");
    reveal_strlit("today_import_kwh");
    reveal_strlit("today_export_kwh");
    reveal_strlit("today_charge_kwh");
    reveal_strlit("today_discharge_kwh");
    reveal_strlit("today_consumption_kwh");
    reveal_strlit("today_ac_charge_kwh");
    reveal_strlit("total_import_kwh");
    reveal_strlit("total_export_kwh");
    reveal_strlit("total_charge_kwh");
    reveal_strlit("total_discharge_kwh");
    assert(tag("today_solar_kwh"@) == ('d', 's', 'o', 'l'));
    assert(tag("today_pv1_kwh"@) == ('d', 'p', 'v', '1'));
    assert(tag("today_pv2_kwh"@) == ('d', 'p', 'v', '2'));
    assert(tag("today_import_kwh"@) == ('d', 'i', 'm', 'p'));
    assert(tag("today_export_kwh"@) == ('d', 'e', 'x', 'p'));
    assert(tag("today_charge_kwh"@) == ('d', 'c', 'h', 'a'));
    assert(tag("today_discharge_kwh"@) == ('d', 'd', 'i', 's'));
    assert(tag("today_consumption_kwh"@) == ('d', 'c', 'o', 'n'));
    assert(tag("today_ac_charge_kwh"@) == ('d', 'a', 'c', '_'));
    assert(tag("total_import_kwh"@) == ('t', 'i', 'm', 'p'));
    assert(tag("total_export_kwh"@) == ('t', 'e', 'x', 'p'));
    assert(tag("total_charge_kwh"@) == ('t', 'c', 'h', 'a'));
    assert(tag("total_discharge_kwh"@) == ('t', 'd', 'i', 's'));
    if a.name() == b.name() {
        assert(tag(a.name()) == tag(b.name()));
    }
}

/// Checks one counter reading against its range.
fn check_range(value: Quantity, prev: Option<Quantity>, ceiling: Quantity) -> (r: (Quantity, bool))
    ensures
        r == (ranged(value, prev, ceiling), out_of_range(value, ceiling)),
{
    if value.outside(Quantity::Nano(0), ceiling) {
        match prev {
            Some(p) => (p, true),
            None => (Quantity::Nano(0), true),
        }
    } else {
        (value, false)
    }
}

/// Whether `raw` exceeds `prev` by more than the elapsed time allows.
fn grows_too_fast(raw: Quantity, prev: Quantity, elapsed_secs: u64, growth_kw: u64) -> (r: bool)
    requires
        growth_kw <= 15,
    ensures
        r == outgrows(raw, prev, elapsed_secs, growth_kw as int),
{
    match (raw, prev) {
        (Quantity::Nano(a), Quantity::Nano(b)) => {
            assert(0 <= elapsed_secs * growth_kw <= 0xffff_ffff_ffff_ffff * 15) by (nonlinear_arith)
                requires
                    0 <= elapsed_secs <= 0xffff_ffff_ffff_ffff,
                    0 <= growth_kw <= 15,
            ;
            (a as i128 - b as i128 - 1_000_000_000) * 3600 > elapsed_secs as i128
                * growth_kw as i128 * 1_000_000_000
        },
        _ => false,
    }
}

/// Whether `raw` is below `prev` by no more than the noise.
fn is_noise(raw: Quantity, prev: Quantity, noise: i64) -> (r: bool)
    requires
        0 <= noise <= 1_000_000_000,
    ensures
        r == wobbles(raw, prev, noise as int),
{
    match (raw, prev) {
        (Quantity::Nano(a), Quantity::Nano(b)) => a < b && a as i128 + noise as i128 >= b as i128,
        _ => false,
    }
}

/// Checks the growth of one counter since the previous snapshot. Returns the
/// value to use and whether it replaces the reading.
pub fn check_delta(
    label: &'static str,
    raw: Quantity,
    prev: Quantity,
    elapsed_secs: u64,
    growth_kw: u64,
    noise: i64,
    may_reset: bool,
    counts: &mut DeltaCorrectionCounts,
) -> (r: (Quantity, bool))
    requires
        growth_kw <= 15,
        0 <= noise <= 1_000_000_000,
    ensures
        ({
            let v = delta_verdict(
                raw,
                prev,
                elapsed_secs,
                growth_kw as int,
                noise as int,
                may_reset,
                counted(old(counts).0@, label@),
            );
            &&& r == (v.value, v.replaced)
            &&& final(counts).0@ =~= recount(old(counts).0@, label@, v.count)
        }),
{
    if prev.below(Quantity::units(1)) {
        counts.0.remove(label);
        return (raw, false);
    }
    if may_reset && raw.below(prev) && raw.below(Quantity::units(5)) && Quantity::units(5).below(
        prev,
    ) {
        counts.0.remove(label);
        return (raw, false);
    }
    if is_noise(raw, prev, noise) {
        return (prev, false);
    }
    if raw.below(prev) || grows_too_fast(raw, prev, elapsed_secs, growth_kw) {
        let count: u16 = match counts.0.get(label) {
            Some(c) => c as u16 + 1,
            None => 1,
        };
        if count >= DELTA_CORRECTION_RELEASE_THRESHOLD as u16 {
            counts.0.remove(label);
            (raw, false)
        } else {
            counts.0.insert(label, count as u8);
            (prev, true)
        }
    } else {
        counts.0.remove(label);
        (raw, false)
    }
}

/// How many counters are checked.
const FIELD_COUNT: usize = 13;

impl EnergyField {
    /// The counter at a position in the order of checking.
    fn at(i: usize) -> (r: EnergyField)
        requires
            i < FIELD_COUNT,
        ensures
            r.position() == i,
    {
        match i {
            0 => EnergyField::TodaySolar,
            1 => EnergyField::TodayPv1,
            2 => EnergyField::TodayPv2,
            3 => EnergyField::TodayImport,
            4 => EnergyField::TodayExport,
            5 => EnergyField::TodayCharge,
            6 => EnergyField::TodayDischarge,
            7 => EnergyField::TodayConsumption,
            8 => EnergyField::TodayAcCharge,
            9 => EnergyField::TotalImport,
            10 => EnergyField::TotalExport,
            11 => EnergyField::TotalCharge,
            _ => EnergyField::TotalDischarge,
        }
    }

    fn label(self) -> (r: &'static str)
        ensures
            r@ == self.name(),
    {
        match self {
            EnergyField::TodaySolar => "today_solar_kwh",
            EnergyField::TodayPv1 => "today_pv1_kwh",
            EnergyField::TodayPv2 => "today_pv2_kwh",
            EnergyField::TodayImport => "today_import_kwh",
            EnergyField::TodayExport => "today_export_kwh",
            EnergyField::TodayCharge => "today_charge_kwh",
            EnergyField::TodayDischarge => "today_discharge_kwh",
            EnergyField::TodayConsumption => "today_consumption_kwh",
            EnergyField::TodayAcCharge => "today_ac_charge_kwh",
            EnergyField::TotalImport => "total_import_kwh",
            EnergyField::TotalExport => "total_export_kwh",
            EnergyField::TotalCharge => "total_charge_kwh",
            EnergyField::TotalDischarge => "total_discharge_kwh",
        }
    }

    fn get(self, snap: &InverterSnapshot) -> (r: Quantity)
        ensures
            r == self.of(*snap),
    {
        match self {
            EnergyField::TodaySolar => snap.today_solar_kwh,
            EnergyField::TodayPv1 => snap.today_pv1_kwh,
            EnergyField::TodayPv2 => snap.today_pv2_kwh,
            EnergyField::TodayImport => snap.today_import_kwh,
            EnergyField::TodayExport => snap.today_export_kwh,
            EnergyField::TodayCharge => snap.today_charge_kwh,
            EnergyField::TodayDischarge => snap.today_discharge_kwh,
            EnergyField::TodayConsumption => snap.today_consumption_kwh,
            EnergyField::TodayAcCharge => snap.today_ac_charge_kwh,
            EnergyField::TotalImport => snap.total_import_kwh,
            EnergyField::TotalExport => snap.total_export_kwh,
            EnergyField::TotalCharge => snap.total_charge_kwh,
            EnergyField::TotalDischarge => snap.total_discharge_kwh,
        }
    }

    fn set(self, snap: &mut InverterSnapshot, value: Quantity)
        ensures
            *final(snap) == self.put(*old(snap), value),
    {
        match self {
            EnergyField::TodaySolar => snap.today_solar_kwh = value,
            EnergyField::TodayPv1 => snap.today_pv1_kwh = value,
            EnergyField::TodayPv2 => snap.today_pv2_kwh = value,
            EnergyField::TodayImport => snap.today_import_kwh = value,
            EnergyField::TodayExport => snap.today_export_kwh = value,
            EnergyField::TodayCharge => snap.today_charge_kwh = value,
            EnergyField::TodayDischarge => snap.today_discharge_kwh = value,
            EnergyField::TodayConsumption => snap.today_consumption_kwh = value,
            EnergyField::TodayAcCharge => snap.today_ac_charge_kwh = value,
            EnergyField::TotalImport => snap.total_import_kwh = value,
            EnergyField::TotalExport => snap.total_export_kwh = value,
            EnergyField::TotalCharge => snap.total_charge_kwh = value,
            EnergyField::TotalDischarge => snap.total_discharge_kwh = value,
        }
    }

    fn is_lifetime(self) -> (r: bool)
        ensures
            r == self.lifetime(),
    {
        match self {
            EnergyField::TotalImport
            | EnergyField::TotalExport
            | EnergyField::TotalCharge
            | EnergyField::TotalDischarge => true,
            _ => false,
        }
    }
}

/// Setting one counter leaves the others, and everything else, alone.
proof fn lemma_put(snap: InverterSnapshot, field: EnergyField, value: Quantity)
    ensures
        forall|f: EnergyField| #[trigger]
            f.of(field.put(snap, value)) == if f == field {
                value
            } else {
                f.of(snap)
            },
        forall|base: InverterSnapshot|
            snap == #[trigger] with_energy_of(base, snap) ==> field.put(snap, value)
                == with_energy_of(base, field.put(snap, value)),
{
}

/// Equal positions mean equal counters.
proof fn lemma_position(a: EnergyField, b: EnergyField)
    ensures
        a.position() == b.position() ==> a == b,
        0 <= a.position() < FIELD_COUNT,
{
}

/// The counter `field` of the previous snapshot, if there is one.
pub open spec fn previous(field: EnergyField, prev: Option<&InverterSnapshot>) -> Option<Quantity> {
    match prev {
        Some(p) => Some(field.of(*p)),
        None => None,
    }
}

/// Holds every counter of `snap` to its plausible range. Returns whether any
/// was replaced.
pub fn check_energy_ranges(snap: &mut InverterSnapshot, prev: Option<&InverterSnapshot>) -> (r:
    bool)
    ensures
        *final(snap) == with_energy_of(*old(snap), *final(snap)),
        forall|f: EnergyField| #[trigger]
            f.of(*final(snap)) == ranged(
                f.of(*old(snap)),
                previous(f, prev),
                f.ceiling(*old(snap)),
            ),
        r == exists|f: EnergyField|
            out_of_range(#[trigger] f.of(*old(snap)), f.ceiling(*old(snap))),
{
    let daily: Quantity = if snap.device_type.needs_gateway_input_blocks() {
        Quantity::units(500)
    } else {
        Quantity::units(200)
    };
    let lifetime: Quantity = Quantity::units(100_000);
    let ghost before = *snap;
    let mut flagged: bool = false;
    let mut i: usize = 0;
    while i < FIELD_COUNT
        invariant
            i <= FIELD_COUNT,
            *snap == with_energy_of(before, *snap),
            forall|f: EnergyField| #[trigger] f.ceiling(before) == if f.lifetime() {
                lifetime
            } else {
                daily
            },
            forall|f: EnergyField| #[trigger]
                f.of(*snap) == if f.position() < i {
                    ranged(f.of(before), previous(f, prev), f.ceiling(before))
                } else {
                    f.of(before)
                },
            flagged == exists|f: EnergyField|
                f.position() < i && out_of_range(#[trigger] f.of(before), f.ceiling(before)),
        decreases FIELD_COUNT - i,
    {
        let field = EnergyField::at(i);
        let ghost so_far = *snap;
        let last: Option<Quantity> = match prev {
            Some(p) => Some(field.get(p)),
            None => None,
        };
        let raw: Quantity = field.get(snap);
        let ceiling: Quantity = if field.is_lifetime() { lifetime } else { daily };
        let (value, replaced) = check_range(raw, last, ceiling);
        field.set(snap, value);
        proof {
            lemma_put(so_far, field, value);
            assert(field.of(so_far) == field.of(before));
            assert(field.ceiling(before) == ceiling);
            assert forall|f: EnergyField| #[trigger]
                f.of(*snap) == if f.position() < i + 1 {
                    ranged(f.of(before), previous(f, prev), f.ceiling(before))
                } else {
                    f.of(before)
                } by {
                lemma_position(f, field);
                assert(f.of(so_far) == if f.position() < i {
                    ranged(f.of(before), previous(f, prev), f.ceiling(before))
                } else {
                    f.of(before)
                });
            }
            assert forall|f: EnergyField|
                f.position() < i + 1 && out_of_range(
                    #[trigger] f.of(before),
                    f.ceiling(before),
                ) implies flagged || replaced by {
                lemma_position(f, field);
            }
        }
        if replaced {
            flagged = true;
        }
        i += 1;
    }
    proof {
        assert forall|f: EnergyField| #[trigger]
            f.of(*snap) == ranged(f.of(before), previous(f, prev), f.ceiling(before)) by {
            lemma_position(f, f);
        }
        assert forall|f: EnergyField|
            out_of_range(#[trigger] f.of(before), f.ceiling(before)) implies flagged by {
            lemma_position(f, f);
        }
    }
    flagged
}

/// Holds the growth of every counter of `snap` since `prev` to what the elapsed
/// time allows. Returns whether any was replaced.
pub fn check_energy_deltas(
    snap: &mut InverterSnapshot,
    prev: &InverterSnapshot,
    elapsed_secs: u64,
    reset_window: bool,
    counts: &mut DeltaCorrectionCounts,
) -> (r: bool)
    ensures
        *final(snap) == with_energy_of(*old(snap), *final(snap)),
        forall|f: EnergyField| #[trigger]
            f.of(*final(snap)) == field_delta(
                f,
                *old(snap),
                *prev,
                elapsed_secs,
                reset_window,
                old(counts).0@,
            ).value,
        forall|f: EnergyField|
            counted(final(counts).0@, #[trigger] f.name()) == field_delta(
                f,
                *old(snap),
                *prev,
                elapsed_secs,
                reset_window,
                old(counts).0@,
            ).count,
        forall|label: Seq<char>|
            (forall|f: EnergyField| #[trigger] f.name() != label) ==> #[trigger] counted(
                final(counts).0@,
                label,
            ) == counted(old(counts).0@, label),
        r == exists|f: EnergyField| #[trigger]
            field_delta(
                f,
                *old(snap),
                *prev,
                elapsed_secs,
                reset_window,
                old(counts).0@,
            ).replaced,
{
    let ghost before = *snap;
    let ghost counts0 = counts.0@;
    let ghost verdict = |f: EnergyField|
        field_delta(f, before, *prev, elapsed_secs, reset_window, counts0);
    let mut flagged: bool = false;
    let mut i: usize = 0;
    while i < FIELD_COUNT
        invariant
            i <= FIELD_COUNT,
            verdict == (|f: EnergyField|
                field_delta(f, before, *prev, elapsed_secs, reset_window, counts0)),
            *snap == with_energy_of(before, *snap),
            forall|f: EnergyField| #[trigger]
                f.of(*snap) == if f.position() < i {
                    verdict(f).value
                } else {
                    f.of(before)
                },
            forall|f: EnergyField|
                counted(counts.0@, #[trigger] f.name()) == if f.position() < i {
                    verdict(f).count
                } else {
                    counted(counts0, f.name())
                },
            forall|label: Seq<char>|
                (forall|f: EnergyField| #[trigger] f.name() != label) ==> #[trigger] counted(
                    counts.0@,
                    label,
                ) == counted(counts0, label),
            flagged == exists|f: EnergyField| f.position() < i && (#[trigger] verdict(f)).replaced,
        decreases FIELD_COUNT - i,
    {
        let field = EnergyField::at(i);
        let ghost so_far = *snap;
        let ghost counts_so_far = counts.0@;
        let noise: i64 = match field {
            EnergyField::TodayConsumption => 500_000_000,
            _ => 250_000_000,
        };
        let lifetime: bool = field.is_lifetime();
        let growth_kw: u64 = if lifetime { 15 } else { 10 };
        let (value, replaced) = check_delta(
            field.label(),
            field.get(snap),
            field.get(prev),
            elapsed_secs,
            growth_kw,
            noise,
            reset_window && !lifetime,
            counts,
        );
        field.set(snap, value);
        proof {
            lemma_put(so_far, field, value);
            assert(field.of(so_far) == field.of(before));
            assert(counted(counts_so_far, field.name()) == counted(counts0, field.name()));
            assert(value == verdict(field).value);
            assert(replaced == verdict(field).replaced);
            assert(counts.0@ == recount(counts_so_far, field.name(), verdict(field).count));
            assert forall|f: EnergyField| #[trigger]
                f.of(*snap) == if f.position() < i + 1 {
                    verdict(f).value
                } else {
                    f.of(before)
                } by {
                lemma_position(f, field);
                assert(f.of(so_far) == if f.position() < i {
                    verdict(f).value
                } else {
                    f.of(before)
                });
            }
            assert forall|f: EnergyField|
                counted(counts.0@, #[trigger] f.name()) == if f.position() < i + 1 {
                    verdict(f).count
                } else {
                    counted(counts0, f.name())
                } by {
                lemma_position(f, field);
                lemma_names_distinct(f, field);
                assert(counted(counts_so_far, f.name()) == if f.position() < i {
                    verdict(f).count
                } else {
                    counted(counts0, f.name())
                });
            }
            assert forall|label: Seq<char>|
                (forall|f: EnergyField| #[trigger] f.name() != label) implies #[trigger] counted(
                counts.0@,
                label,
            ) == counted(counts0, label) by {
                assert(field.name() != label);
                assert(counted(counts_so_far, label) == counted(counts0, label));
            }
            assert forall|f: EnergyField|
                f.position() < i + 1 && (#[trigger] verdict(f)).replaced implies flagged
                || replaced by {
                lemma_position(f, field);
            }
        }
        if replaced {
            flagged = true;
        }
        i += 1;
    }
    proof {
        assert forall|f: EnergyField| f.position() < FIELD_COUNT by {
            lemma_position(f, f);
        }
        if flagged {
            let f = choose|f: EnergyField| f.position() < i && (#[trigger] verdict(f)).replaced;
            assert(field_delta(f, before, *prev, elapsed_secs, reset_window, counts0).replaced);
        }
        assert forall|f: EnergyField| #[trigger]
            field_delta(
                f,
                before,
                *prev,
                elapsed_secs,
                reset_window,
                counts0,
            ).replaced implies flagged by {
            lemma_position(f, f);
            assert(verdict(f).replaced);
        }
    }
    flagged
}

} // verus!
