//! The counters of the readings right after a connect.
//!
//! The first readings after a connect are the most corrupted ones. A single bad
//! counter among them would become the baseline that every later reading is
//! judged against, so the baseline is the median of several readings.
use crate::model::InverterSnapshot;
use crate::quantity::Quantity;
use vstd::prelude::*;
use vstd::seq_lib::lemma_sorted_unique;

verus! {

/// The cumulative counters of one snapshot, or of several combined; `None`
/// where no number was read.
#[derive(Clone, Copy, Debug, PartialEq, Eq, Structural)]
pub struct GraceCumulativeSamples {
    pub today_solar_kwh: Option<Quantity>,
    pub today_pv1_kwh: Option<Quantity>,
    pub today_pv2_kwh: Option<Quantity>,
    pub today_import_kwh: Option<Quantity>,
    pub today_export_kwh: Option<Quantity>,
    pub today_charge_kwh: Option<Quantity>,
    pub today_discharge_kwh: Option<Quantity>,
    pub today_consumption_kwh: Option<Quantity>,
    pub today_ac_charge_kwh: Option<Quantity>,
    pub total_import_kwh: Option<Quantity>,
    pub total_export_kwh: Option<Quantity>,
    pub total_solar_kwh: Option<Quantity>,
    pub total_charge_kwh: Option<Quantity>,
    pub total_discharge_kwh: Option<Quantity>,
    pub total_throughput_kwh: Option<Quantity>,
}

impl Default for GraceCumulativeSamples {
    fn default() -> (r: GraceCumulativeSamples)
        ensures
            forall|f: GraceField| #[trigger] f.of(r) is None,
    {
        GraceCumulativeSamples {
            today_solar_kwh: None,
            today_pv1_kwh: None,
            today_pv2_kwh: None,
            today_import_kwh: None,
            today_export_kwh: None,
            today_charge_kwh: None,
            today_discharge_kwh: None,
            today_consumption_kwh: None,
            today_ac_charge_kwh: None,
            total_import_kwh: None,
            total_export_kwh: None,
            total_solar_kwh: None,
            total_charge_kwh: None,
            total_discharge_kwh: None,
            total_throughput_kwh: None,
        }
    }
}

/// One of the cumulative counters.
#[derive(Clone, Copy, Debug, PartialEq, Eq, Structural)]
pub enum GraceField {
    TodaySolar,
    TodayPv1,
    TodayPv2,
    TodayImport,
    TodayExport,
    TodayCharge,
    TodayDischarge,
    TodayConsumption,
    TodayAcCharge,
    TotalImport,
    TotalExport,
    TotalSolar,
    TotalCharge,
    TotalDischarge,
    TotalThroughput,
}

impl GraceField {
    /// The counter in a set of samples.
    pub open spec fn of(self, samples: GraceCumulativeSamples) -> Option<Quantity> {
        match self {
            GraceField::TodaySolar => samples.today_solar_kwh,
            GraceField::TodayPv1 => samples.today_pv1_kwh,
            GraceField::TodayPv2 => samples.today_pv2_kwh,
            GraceField::TodayImport => samples.today_import_kwh,
            GraceField::TodayExport => samples.today_export_kwh,
            GraceField::TodayCharge => samples.today_charge_kwh,
            GraceField::TodayDischarge => samples.today_discharge_kwh,
            GraceField::TodayConsumption => samples.today_consumption_kwh,
            GraceField::TodayAcCharge => samples.today_ac_charge_kwh,
            GraceField::TotalImport => samples.total_import_kwh,
            GraceField::TotalExport => samples.total_export_kwh,
            GraceField::TotalSolar => samples.total_solar_kwh,
            GraceField::TotalCharge => samples.total_charge_kwh,
            GraceField::TotalDischarge => samples.total_discharge_kwh,
            GraceField::TotalThroughput => samples.total_throughput_kwh,
        }
    }

    /// The counter in a snapshot.
    pub open spec fn reading(self, snap: InverterSnapshot) -> Quantity {
        match self {
            GraceField::TodaySolar => snap.today_solar_kwh,
            GraceField::TodayPv1 => snap.today_pv1_kwh,
            GraceField::TodayPv2 => snap.today_pv2_kwh,
            GraceField::TodayImport => snap.today_import_kwh,
            GraceField::TodayExport => snap.today_export_kwh,
            GraceField::TodayCharge => snap.today_charge_kwh,
            GraceField::TodayDischarge => snap.today_discharge_kwh,
            GraceField::TodayConsumption => snap.today_consumption_kwh,
            GraceField::TodayAcCharge => snap.today_ac_charge_kwh,
            GraceField::TotalImport => snap.total_import_kwh,
            GraceField::TotalExport => snap.total_export_kwh,
            GraceField::TotalSolar => snap.total_solar_kwh,
            GraceField::TotalCharge => snap.total_charge_kwh,
            GraceField::TotalDischarge => snap.total_discharge_kwh,
            GraceField::TotalThroughput => snap.total_throughput_kwh,
        }
    }

    fn get(self, samples: &GraceCumulativeSamples) -> (r: Option<Quantity>)
        ensures
            r == self.of(*samples),
    {
        match self {
            GraceField::TodaySolar => samples.today_solar_kwh,
            GraceField::TodayPv1 => samples.today_pv1_kwh,
            GraceField::TodayPv2 => samples.today_pv2_kwh,
            GraceField::TodayImport => samples.today_import_kwh,
            GraceField::TodayExport => samples.today_export_kwh,
            GraceField::TodayCharge => samples.today_charge_kwh,
            GraceField::TodayDischarge => samples.today_discharge_kwh,
            GraceField::TodayConsumption => samples.today_consumption_kwh,
            GraceField::TodayAcCharge => samples.today_ac_charge_kwh,
            GraceField::TotalImport => samples.total_import_kwh,
            GraceField::TotalExport => samples.total_export_kwh,
            GraceField::TotalSolar => samples.total_solar_kwh,
            GraceField::TotalCharge => samples.total_charge_kwh,
            GraceField::TotalDischarge => samples.total_discharge_kwh,
            GraceField::TotalThroughput => samples.total_throughput_kwh,
        }
    }
}

/// The numbers among `samples`, in order.
pub open spec fn numbers(samples: Seq<Option<Quantity>>) -> Seq<int>
    decreases samples.len(),
{
    if samples.len() == 0 {
        Seq::empty()
    } else {
        let before = numbers(samples.drop_last());
        match samples.last() {
            Some(Quantity::Nano(n)) => before.push(n as int),
            _ => before,
        }
    }
}

/// The usual order.
pub open spec fn ascending() -> spec_fn(int, int) -> bool {
    |x: int, y: int| x <= y
}

/// The middle one of the numbers among `samples`, the upper one of two; `None`
/// where there is no number.
pub open spec fn median_of(samples: Seq<Option<Quantity>>) -> Option<Quantity> {
    let sorted = numbers(samples).sort_by(ascending());
    if sorted.len() == 0 {
        None
    } else {
        Some(Quantity::Nano(sorted[sorted.len() as int / 2] as i64))
    }
}

/// The counter `field` of every set of samples.
pub open spec fn column(samples: Seq<GraceCumulativeSamples>, field: GraceField) -> Seq<
    Option<Quantity>,
> {
    samples.map_values(|s: GraceCumulativeSamples| field.of(s))
}

/// The integers behind a sequence of machine numbers.
spec fn ints(v: Seq<i64>) -> Seq<int> {
    v.map_values(|x: i64| x as int)
}

/// Inserts `value` into `sorted`, keeping it sorted.
fn insert_sorted(sorted: &mut Vec<i64>, value: i64)
    requires
        forall|i: int, j: int| 0 <= i <= j < old(sorted).len() ==> old(sorted)[i] <= old(sorted)[j],
    ensures
        forall|i: int, j: int|
            0 <= i <= j < final(sorted).len() ==> final(sorted)[i] <= final(sorted)[j],
        ints(final(sorted)@).to_multiset() == ints(old(sorted)@).to_multiset().insert(
            value as int,
        ),
        final(sorted).len() == old(sorted).len() + 1,
{
    let mut at: usize = 0;
    while at < sorted.len() && sorted[at] <= value
        invariant
            at <= sorted.len(),
            sorted@ == old(sorted)@,
            forall|i: int| 0 <= i < at ==> #[trigger] sorted[i] <= value,
        decreases sorted.len() - at,
    {
        at += 1;
    }
    proof {
        assert forall|i: int| at <= i < sorted.len() implies value <= #[trigger] sorted[i] by {
            assert(sorted[at as int] <= sorted[i]);
        }
    }
    let ghost before = sorted@;
    sorted.insert(at, value);
    proof {
        assert(ints(sorted@) =~= ints(before).insert(at as int, value as int));
        vstd::seq_lib::to_multiset_insert(ints(before), at as int, value as int);
    }
}

/// The median of one counter over several sets of samples.
fn field_median(samples: &[GraceCumulativeSamples], field: GraceField) -> (r: Option<Quantity>)
    ensures
        r == median_of(column(samples@, field)),
{
    let ghost all = column(samples@, field);
    let mut sorted: Vec<i64> = Vec::new();
    let mut i: usize = 0;
    assert(ints(sorted@) =~= Seq::<int>::empty());
    assert(all.take(0) =~= Seq::<Option<Quantity>>::empty());
    while i < samples.len()
        invariant
            i <= samples.len(),
            all == column(samples@, field),
            forall|a: int, b: int| 0 <= a <= b < sorted.len() ==> sorted[a] <= sorted[b],
            ints(sorted@).to_multiset() == numbers(all.take(i as int)).to_multiset(),
        decreases samples.len() - i,
    {
        let value: Option<Quantity> = field.get(&samples[i]);
        proof {
            let next = all.take(i + 1);
            assert(next.drop_last() =~= all.take(i as int));
            assert(next.last() == value);
        }
        if let Some(Quantity::Nano(n)) = value {
            insert_sorted(&mut sorted, n);
            proof {
                let before = numbers(all.take(i as int));
                assert(numbers(all.take(i + 1)) =~= before.push(n as int));
                vstd::seq_lib::to_multiset_build(before, n as int);
            }
        }
        i += 1;
    }
    proof {
        assert(all.take(i as int) =~= all);
        let le = ascending();
        let expected = numbers(all);
        expected.lemma_sort_by_ensures(le);
        assert(vstd::relations::sorted_by(ints(sorted@), le));
        lemma_sorted_unique(ints(sorted@), expected.sort_by(le), le);
    }
    if sorted.len() == 0 {
        None
    } else {
        let middle: usize = sorted.len() / 2;
        assert(ints(sorted@)[middle as int] == sorted[middle as int] as int);
        Some(Quantity::Nano(sorted[middle]))
    }
}

/// A combined sample where there is one, else the reading.
pub open spec fn sample_or(sample: Option<Quantity>, reading: Quantity) -> Quantity {
    match sample {
        Some(v) => v,
        None => reading,
    }
}

fn pick(sample: Option<Quantity>, reading: Quantity) -> (r: Quantity)
    ensures
        r == sample_or(sample, reading),
{
    match sample {
        Some(v) => v,
        None => reading,
    }
}

/// `snap` with every counter that `samples` holds.
pub open spec fn with_samples(
    snap: InverterSnapshot,
    samples: GraceCumulativeSamples,
) -> InverterSnapshot {
    InverterSnapshot {
        today_solar_kwh: sample_or(samples.today_solar_kwh, snap.today_solar_kwh),
        today_pv1_kwh: sample_or(samples.today_pv1_kwh, snap.today_pv1_kwh),
        today_pv2_kwh: sample_or(samples.today_pv2_kwh, snap.today_pv2_kwh),
        today_import_kwh: sample_or(samples.today_import_kwh, snap.today_import_kwh),
        today_export_kwh: sample_or(samples.today_export_kwh, snap.today_export_kwh),
        today_charge_kwh: sample_or(samples.today_charge_kwh, snap.today_charge_kwh),
        today_discharge_kwh: sample_or(samples.today_discharge_kwh, snap.today_discharge_kwh),
        today_consumption_kwh: sample_or(samples.today_consumption_kwh, snap.today_consumption_kwh),
        today_ac_charge_kwh: sample_or(samples.today_ac_charge_kwh, snap.today_ac_charge_kwh),
        total_import_kwh: sample_or(samples.total_import_kwh, snap.total_import_kwh),
        total_export_kwh: sample_or(samples.total_export_kwh, snap.total_export_kwh),
        total_solar_kwh: sample_or(samples.total_solar_kwh, snap.total_solar_kwh),
        total_charge_kwh: sample_or(samples.total_charge_kwh, snap.total_charge_kwh),
        total_discharge_kwh: sample_or(samples.total_discharge_kwh, snap.total_discharge_kwh),
        total_throughput_kwh: sample_or(samples.total_throughput_kwh, snap.total_throughput_kwh),
        ..snap
    }
}

impl GraceCumulativeSamples {
    /// The counters of a snapshot.
    pub fn from_snapshot(s: &InverterSnapshot) -> (r: GraceCumulativeSamples)
        ensures
            forall|f: GraceField| #[trigger] f.of(r) == Some(f.reading(*s)),
    {
        GraceCumulativeSamples {
            today_solar_kwh: Some(s.today_solar_kwh),
            today_pv1_kwh: Some(s.today_pv1_kwh),
            today_pv2_kwh: Some(s.today_pv2_kwh),
            today_import_kwh: Some(s.today_import_kwh),
            today_export_kwh: Some(s.today_export_kwh),
            today_charge_kwh: Some(s.today_charge_kwh),
            today_discharge_kwh: Some(s.today_discharge_kwh),
            today_consumption_kwh: Some(s.today_consumption_kwh),
            today_ac_charge_kwh: Some(s.today_ac_charge_kwh),
            total_import_kwh: Some(s.total_import_kwh),
            total_export_kwh: Some(s.total_export_kwh),
            total_solar_kwh: Some(s.total_solar_kwh),
            total_charge_kwh: Some(s.total_charge_kwh),
            total_discharge_kwh: Some(s.total_discharge_kwh),
            total_throughput_kwh: Some(s.total_throughput_kwh),
        }
    }

    /// Puts the counters into a snapshot; one without a number leaves the
    /// snapshot's own reading.
    pub fn apply_to(&self, s: &mut InverterSnapshot)
        ensures
            *final(s) == with_samples(*old(s), *self),
    {
        s.today_solar_kwh = pick(self.today_solar_kwh, s.today_solar_kwh);
        s.today_pv1_kwh = pick(self.today_pv1_kwh, s.today_pv1_kwh);
        s.today_pv2_kwh = pick(self.today_pv2_kwh, s.today_pv2_kwh);
        s.today_import_kwh = pick(self.today_import_kwh, s.today_import_kwh);
        s.today_export_kwh = pick(self.today_export_kwh, s.today_export_kwh);
        s.today_charge_kwh = pick(self.today_charge_kwh, s.today_charge_kwh);
        s.today_discharge_kwh = pick(self.today_discharge_kwh, s.today_discharge_kwh);
        s.today_consumption_kwh = pick(self.today_consumption_kwh, s.today_consumption_kwh);
        s.today_ac_charge_kwh = pick(self.today_ac_charge_kwh, s.today_ac_charge_kwh);
        s.total_import_kwh = pick(self.total_import_kwh, s.total_import_kwh);
        s.total_export_kwh = pick(self.total_export_kwh, s.total_export_kwh);
        s.total_solar_kwh = pick(self.total_solar_kwh, s.total_solar_kwh);
        s.total_charge_kwh = pick(self.total_charge_kwh, s.total_charge_kwh);
        s.total_discharge_kwh = pick(self.total_discharge_kwh, s.total_discharge_kwh);
        s.total_throughput_kwh = pick(self.total_throughput_kwh, s.total_throughput_kwh);
    }

    /// The median of every counter over several readings, numbers only.
    pub fn median(samples: &[GraceCumulativeSamples]) -> (r: GraceCumulativeSamples)
        requires
            samples@.len() > 0,
        ensures
            forall|f: GraceField| #[trigger] f.of(r) == median_of(column(samples@, f)),
    {
        GraceCumulativeSamples {
            today_solar_kwh: field_median(samples, GraceField::TodaySolar),
            today_pv1_kwh: field_median(samples, GraceField::TodayPv1),
            today_pv2_kwh: field_median(samples, GraceField::TodayPv2),
            today_import_kwh: field_median(samples, GraceField::TodayImport),
            today_export_kwh: field_median(samples, GraceField::TodayExport),
            today_charge_kwh: field_median(samples, GraceField::TodayCharge),
            today_discharge_kwh: field_median(samples, GraceField::TodayDischarge),
            today_consumption_kwh: field_median(samples, GraceField::TodayConsumption),
            today_ac_charge_kwh: field_median(samples, GraceField::TodayAcCharge),
            total_import_kwh: field_median(samples, GraceField::TotalImport),
            total_export_kwh: field_median(samples, GraceField::TotalExport),
            total_solar_kwh: field_median(samples, GraceField::TotalSolar),
            total_charge_kwh: field_median(samples, GraceField::TotalCharge),
            total_discharge_kwh: field_median(samples, GraceField::TotalDischarge),
            total_throughput_kwh: field_median(samples, GraceField::TotalThroughput),
        }
    }
}

proof fn lemma_number_is_a_sample(samples: Seq<Option<Quantity>>, n: int)
    requires
        numbers(samples).contains(n),
    ensures
        i64::MIN <= n <= i64::MAX,
        samples.contains(Some(Quantity::Nano(n as i64))),
    decreases samples.len(),
{
    let rest = samples.drop_last();
    let k = choose|k: int| 0 <= k < numbers(samples).len() && numbers(samples)[k] == n;
    if k < numbers(rest).len() {
        assert(numbers(rest)[k] == n);
        lemma_number_is_a_sample(rest, n);
        let j = choose|j: int| 0 <= j < rest.len() && rest[j] == Some(Quantity::Nano(n as i64));
        assert(samples[j] == Some(Quantity::Nano(n as i64)));
    } else {
        assert(samples[samples.len() - 1] == Some(Quantity::Nano(n as i64)));
    }
}

/// The median is one of the readings, and a number; there is none only where no
/// reading is a number.
pub proof fn law_median_is_a_reading(samples: Seq<Option<Quantity>>)
    ensures
        match median_of(samples) {
            Some(m) => m is Nano && samples.contains(Some(m)),
            None => numbers(samples).len() == 0,
        },
{
    let all = numbers(samples);
    let sorted = all.sort_by(ascending());
    all.lemma_sort_by_ensures(ascending());
    vstd::seq_lib::to_multiset_len(all);
    vstd::seq_lib::to_multiset_len(sorted);
    if sorted.len() > 0 {
        let m = sorted[sorted.len() as int / 2];
        assert(sorted.contains(m));
        assert(all.contains(m));
        lemma_number_is_a_sample(samples, m);
    }
}

proof fn lemma_middle_of_three(a: int, b: int, c: int, x: int, y: int, z: int, lo: int, hi: int)
    requires
        seq![a, b, c].to_multiset() == seq![x, y, z].to_multiset(),
        x <= y <= z,
        lo <= a <= hi && lo <= b <= hi || lo <= a <= hi && lo <= c <= hi || lo <= b <= hi && lo <= c
            <= hi,
    ensures
        lo <= y <= hi,
{
    broadcast use vstd::multiset::group_multiset_axioms;

    let empty = Seq::<int>::empty();
    vstd::seq_lib::to_multiset_build(empty, a);
    vstd::seq_lib::to_multiset_build(empty.push(a), b);
    vstd::seq_lib::to_multiset_build(empty.push(a).push(b), c);
    vstd::seq_lib::to_multiset_build(empty, x);
    vstd::seq_lib::to_multiset_build(empty.push(x), y);
    vstd::seq_lib::to_multiset_build(empty.push(x).push(y), z);
    assert(seq![a, b, c] =~= empty.push(a).push(b).push(c));
    assert(seq![x, y, z] =~= empty.push(x).push(y).push(z));
    let left = seq![a, b, c].to_multiset();
    let right = seq![x, y, z].to_multiset();
    let none = empty.to_multiset();
    assert(none.count(x) == 0 && none.count(y) == 0 && none.count(z) == 0) by {
        vstd::seq_lib::to_multiset_contains(empty, x);
        vstd::seq_lib::to_multiset_contains(empty, y);
        vstd::seq_lib::to_multiset_contains(empty, z);
    }
    assert(left == none.insert(a).insert(b).insert(c));
    assert(right == none.insert(x).insert(y).insert(z));
    assert(left.count(x) == right.count(x));
    assert(left.count(y) == right.count(y));
    assert(left.count(z) == right.count(z));
}

/// A single bad reading among three does not get through: where two of the
/// three lie between two bounds, so does the median.
pub proof fn law_median_of_three_ignores_a_spike(a: i64, b: i64, c: i64, lo: i64, hi: i64)
    requires
        lo <= a <= hi && lo <= b <= hi || lo <= a <= hi && lo <= c <= hi || lo <= b <= hi && lo <= c
            <= hi,
    ensures
        ({
            let samples = seq![
                Some(Quantity::Nano(a)),
                Some(Quantity::Nano(b)),
                Some(Quantity::Nano(c)),
            ];
            median_of(samples) matches Some(Quantity::Nano(m)) && lo <= m <= hi
        }),
{
    let samples = seq![
        Some(Quantity::Nano(a)),
        Some(Quantity::Nano(b)),
        Some(Quantity::Nano(c)),
    ];
    let all = numbers(samples);
    reveal_with_fuel(numbers, 4);
    assert(samples.drop_last() =~= seq![Some(Quantity::Nano(a)), Some(Quantity::Nano(b))]);
    assert(samples.drop_last().drop_last() =~= seq![Some(Quantity::Nano(a))]);
    assert(samples.drop_last().drop_last().drop_last() =~= Seq::<Option<Quantity>>::empty());
    assert(all =~= seq![a as int, b as int, c as int]);
    let sorted = all.sort_by(ascending());
    all.lemma_sort_by_ensures(ascending());
    vstd::seq_lib::to_multiset_len(all);
    vstd::seq_lib::to_multiset_len(sorted);
    assert(sorted.len() == 3);
    assert(sorted =~= seq![sorted[0], sorted[1], sorted[2]]);
    let le = ascending();
    assert(le(sorted[0], sorted[1]));
    assert(le(sorted[1], sorted[2]));
    lemma_middle_of_three(
        a as int,
        b as int,
        c as int,
        sorted[0],
        sorted[1],
        sorted[2],
        lo as int,
        hi as int,
    );
    assert(sorted[1] as i64 == sorted[1]);
}

/// Readings that are no number have no say in the median.
pub proof fn law_median_ignores_missing_numbers(
    samples: Seq<Option<Quantity>>,
    missing: Option<Quantity>,
)
    requires
        missing is None || missing == Some(Quantity::Nan),
    ensures
        median_of(samples.push(missing)) == median_of(samples),
{
    assert(samples.push(missing).drop_last() =~= samples);
}

/// How many of the readings are numbers of billionths that satisfy `wanted`.
pub open spec fn how_many(samples: Seq<Option<Quantity>>, wanted: spec_fn(int) -> bool) -> nat
    decreases samples.len(),
{
    if samples.len() == 0 {
        0
    } else {
        how_many(samples.drop_last(), wanted) + match samples.last() {
            Some(Quantity::Nano(n)) => if wanted(n as int) {
                1nat
            } else {
                0
            },
            _ => 0,
        }
    }
}

proof fn lemma_how_many(samples: Seq<Option<Quantity>>, wanted: spec_fn(int) -> bool)
    ensures
        how_many(samples, wanted) == numbers(samples).filter(wanted).len(),
    decreases samples.len(),
{
    reveal(Seq::filter);
    if samples.len() > 0 {
        lemma_how_many(samples.drop_last(), wanted);
        if let Some(Quantity::Nano(n)) = samples.last() {
            numbers(samples.drop_last()).lemma_filter_push(n as int, wanted);
        }
    }
}

#[verifier::rlimit(60)]
proof fn lemma_filter_of_multiset(s: Seq<int>, wanted: spec_fn(int) -> bool)
    ensures
        s.filter(wanted).len() == s.to_multiset().filter(wanted).len(),
    decreases s.len(),
{
    broadcast use vstd::multiset::group_multiset_axioms;

    reveal(Seq::filter);
    if s.len() == 0 {
        assert(s =~= Seq::<int>::empty());
        vstd::seq_lib::to_multiset_len(s);
        assert(s.to_multiset().filter(wanted) =~= vstd::multiset::Multiset::<int>::empty()) by {
            assert forall|v: int| s.to_multiset().filter(wanted).count(v) == 0 by {
                vstd::seq_lib::to_multiset_contains(s, v);
            }
        }
    } else {
        let rest = s.drop_last();
        let x = s.last();
        lemma_filter_of_multiset(rest, wanted);
        assert(rest.push(x) =~= s);
        vstd::seq_lib::to_multiset_build(rest, x);
        rest.lemma_filter_push(x, wanted);
        let m = rest.to_multiset();
        if wanted(x) {
            assert(m.insert(x).filter(wanted) =~= m.filter(wanted).insert(x));
        } else {
            assert(m.insert(x).filter(wanted) =~= m.filter(wanted));
        }
    }
}

/// At most half of the numbers are below the median and more than half are not
/// above it: it is the middle one, and the upper of two.
#[verifier::rlimit(60)]
pub proof fn law_median_is_in_the_middle(samples: Seq<Option<Quantity>>)
    ensures
        median_of(samples) matches Some(Quantity::Nano(m)) ==> {
            let all = how_many(samples, |n: int| true);
            &&& 2 * how_many(samples, |n: int| n < m) <= all
            &&& 2 * how_many(samples, |n: int| n <= m) > all
        },
        median_of(samples) is None <==> how_many(samples, |n: int| true) == 0,
{
    let all = numbers(samples);
    let sorted = all.sort_by(ascending());
    all.lemma_sort_by_ensures(ascending());
    vstd::seq_lib::to_multiset_len(all);
    vstd::seq_lib::to_multiset_len(sorted);
    let any = |n: int| true;
    lemma_how_many(samples, any);
    assert(all.filter(any) =~= all) by {
        lemma_filter_all(all);
    }
    law_median_is_a_reading(samples);
    if sorted.len() > 0 {
        let k = sorted.len() as int / 2;
        let m = sorted[k];
        let below = |n: int| n < m;
        let up_to = |n: int| n <= m;
        lemma_how_many(samples, below);
        lemma_how_many(samples, up_to);
        lemma_filter_of_multiset(all, below);
        lemma_filter_of_multiset(sorted, below);
        lemma_filter_of_multiset(all, up_to);
        lemma_filter_of_multiset(sorted, up_to);
        let le = ascending();
        let head = sorted.take(k);
        let tail = sorted.skip(k);
        assert(head + tail =~= sorted);
        Seq::filter_distributes_over_add(head, tail, below);
        assert forall|i: int| 0 <= i < tail.len() implies !below(#[trigger] tail[i]) by {
            assert(le(sorted[k], sorted[k + i]));
        }
        tail.lemma_all_neg_filter_empty(below);
        head.lemma_filter_len(below);
        let front = sorted.take(k + 1);
        let back = sorted.skip(k + 1);
        assert(front + back =~= sorted);
        Seq::filter_distributes_over_add(front, back, up_to);
        assert forall|i: int| 0 <= i < front.len() implies up_to(#[trigger] front[i]) by {
            assert(le(sorted[i], sorted[k]));
        }
        lemma_filter_keeps(front, up_to);
        assert(sorted.contains(m));
        assert(all.contains(m));
        lemma_number_is_a_sample(samples, m);
    }
}

proof fn lemma_filter_keeps(s: Seq<int>, wanted: spec_fn(int) -> bool)
    requires
        forall|i: int| 0 <= i < s.len() ==> wanted(#[trigger] s[i]),
    ensures
        s.filter(wanted) == s,
    decreases s.len(),
{
    reveal(Seq::filter);
    if s.len() > 0 {
        let rest = s.drop_last();
        assert forall|i: int| 0 <= i < rest.len() implies wanted(#[trigger] rest[i]) by {
            assert(rest[i] == s[i]);
        }
        lemma_filter_keeps(rest, wanted);
        assert(wanted(s[s.len() - 1]));
        assert(rest.push(s.last()) =~= s);
    }
}

proof fn lemma_filter_all(s: Seq<int>)
    ensures
        s.filter(|n: int| true) == s,
{
    lemma_filter_keeps(s, |n: int| true);
}

} // verus!
