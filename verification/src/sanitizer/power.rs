//! Power readings: absolute limits and the speed of change.
use crate::counts::{counted, LabelCounts};
use crate::quantity::Quantity;
use vstd::prelude::*;

verus! {

/// Readings at or above this magnitude (W) are register saturation, never a
/// measurement.
pub const HARD_CORRUPTION_CEILING: i32 = 32_000;

/// Consecutive over-limit readings after which the reading is believed.
pub const SUSPECT_RELEASE_THRESHOLD: u8 = 10;

/// Consecutive too-fast readings after which the reading is believed.
pub const RATE_RELEASE_THRESHOLD: u8 = 3;

/// Longest gap (s) between readings over which the speed of change is judged.
pub const RATE_SMOOTH_MAX_WINDOW_SECS: u64 = 60;

/// Below this magnitude (W) the previous reading counts as idle, against which
/// a relative change says nothing.
pub const RATE_PREV_FLOOR_W: i64 = 500;

/// How far a power reading may move between two polls. A reading is rejected
/// only where it exceeds both bounds.
#[derive(Clone, Copy, Debug, PartialEq, Eq, Structural)]
pub struct FieldRateRules {
    /// Largest plausible change as a fraction of the previous reading.
    pub rate_fraction: Quantity,
    /// Changes up to this many watts are always plausible.
    pub abs_delta_w: i32,
}

/// Consecutive over-limit readings per power field.
#[derive(Clone, Debug)]
pub struct ConsecutiveSuspectCounts(pub LabelCounts);

/// Consecutive too-fast readings per power field.
#[derive(Clone, Debug)]
pub struct RateReleaseCounts(pub LabelCounts);

impl Default for ConsecutiveSuspectCounts {
    fn default() -> (r: ConsecutiveSuspectCounts)
        ensures
            r.0@ == Map::<Seq<char>, u8>::empty(),
    {
        ConsecutiveSuspectCounts(LabelCounts::default())
    }
}

impl Default for RateReleaseCounts {
    fn default() -> (r: RateReleaseCounts)
        ensures
            r.0@ == Map::<Seq<char>, u8>::empty(),
    {
        RateReleaseCounts(LabelCounts::default())
    }
}

/// The absolute value.
pub open spec fn magnitude(x: int) -> int {
    if x < 0 {
        -x
    } else {
        x
    }
}

/// `counts` with the counter of `label` set or forgotten.
pub open spec fn recount(counts: Map<Seq<char>, u8>, label: Seq<char>, count: Option<u8>) -> Map<
    Seq<char>,
    u8,
> {
    match count {
        Some(c) => counts.insert(label, c),
        None => counts.remove(label),
    }
}

/// One more than a counter; an absent counter stands at zero.
pub open spec fn bumped(count: Option<u8>) -> int {
    match count {
        Some(c) => c + 1,
        None => 1,
    }
}

/// What a check makes of one reading: the value to use, whether it replaces
/// what was read, and the counter it leaves behind.
pub struct Verdict<T> {
    pub value: T,
    pub replaced: bool,
    pub count: Option<u8>,
}

/// The absolute-limit check of one power reading.
#[verifier::opaque]
pub open spec fn field_verdict(
    raw: i32,
    prev: Option<i32>,
    limit: i32,
    count: Option<u8>,
) -> Verdict<i32> {
    if magnitude(raw as int) >= HARD_CORRUPTION_CEILING {
        let value = match prev {
            Some(p) => p,
            None => if raw > 0 {
                limit
            } else {
                (-limit) as i32
            },
        };
        Verdict { value, replaced: true, count: Some(0) }
    } else if magnitude(raw as int) <= limit || prev == Some(raw) {
        Verdict { value: raw, replaced: false, count: None }
    } else if bumped(count) >= SUSPECT_RELEASE_THRESHOLD {
        Verdict { value: raw, replaced: false, count: None }
    } else {
        match prev {
            Some(p) => Verdict { value: p, replaced: true, count: Some(bumped(count) as u8) },
            None => Verdict { value: raw, replaced: false, count: Some(bumped(count) as u8) },
        }
    }
}

/// Whether moving from `prev` to `raw` within one poll is implausible.
pub open spec fn too_fast(raw: i32, prev: i32, rules: FieldRateRules) -> bool {
    &&& magnitude(raw - prev) > rules.abs_delta_w
    &&& magnitude(prev as int) >= RATE_PREV_FLOOR_W
    &&& rules.rate_fraction is Nano
    &&& magnitude(raw - prev) * 1_000_000_000 > rules.rate_fraction->Nano_0 * magnitude(prev as int)
}

/// The speed-of-change check of one power reading.
#[verifier::opaque]
pub open spec fn rate_verdict(
    raw: i32,
    prev: Option<i32>,
    elapsed_secs: u64,
    rules: FieldRateRules,
    count: Option<u8>,
) -> Verdict<i32> {
    match prev {
        None => Verdict { value: raw, replaced: false, count: None },
        Some(p) => if elapsed_secs > RATE_SMOOTH_MAX_WINDOW_SECS || !too_fast(raw, p, rules) {
            Verdict { value: raw, replaced: false, count: None }
        } else if bumped(count) >= RATE_RELEASE_THRESHOLD {
            Verdict { value: raw, replaced: false, count: None }
        } else {
            Verdict { value: p, replaced: true, count: Some(bumped(count) as u8) }
        },
    }
}

/// The absolute value of a reading.
fn abs_watts(x: i32) -> (r: i64)
    ensures
        r == magnitude(x as int),
        0 <= r <= 0x8000_0000,
{
    if x < 0 {
        -(x as i64)
    } else {
        x as i64
    }
}

/// One more than the counter of `label`.
fn next_count(counts: &LabelCounts, label: &str) -> (r: u16)
    ensures
        r == bumped(counted(counts@, label@)),
{
    match counts.get(label) {
        Some(c) => c as u16 + 1,
        None => 1,
    }
}

/// Checks a power reading against its absolute limit. Returns the value to use
/// and whether it replaces the reading.
///
/// A reading over the limit is replaced by the previous one until it has
/// persisted for [`SUSPECT_RELEASE_THRESHOLD`] polls. Readings from
/// [`HARD_CORRUPTION_CEILING`] up are never believed.
pub fn check_power_field(
    raw_value: i32,
    prev_value: Option<i32>,
    limit: i32,
    label: &'static str,
    suspect_counts: &mut ConsecutiveSuspectCounts,
) -> (r: (i32, bool))
    requires
        limit > i32::MIN,
    ensures
        ({
            let v = field_verdict(
                raw_value,
                prev_value,
                limit,
                counted(old(suspect_counts).0@, label@),
            );
            &&& r == (v.value, v.replaced)
            &&& final(suspect_counts).0@ == recount(old(suspect_counts).0@, label@, v.count)
        }),
{
    reveal(field_verdict);
    if abs_watts(raw_value) >= HARD_CORRUPTION_CEILING as i64 {
        suspect_counts.0.insert(label, 0);
        return match prev_value {
            Some(pv) => (pv, true),
            None => (if raw_value > 0 { limit } else { -limit }, true),
        };
    }
    if abs_watts(raw_value) <= limit as i64 {
        suspect_counts.0.remove(label);
        return (raw_value, false);
    }
    if let Some(pv) = prev_value {
        if pv == raw_value {
            suspect_counts.0.remove(label);
            return (raw_value, false);
        }
    }
    let count: u16 = next_count(&suspect_counts.0, label);
    if count >= SUSPECT_RELEASE_THRESHOLD as u16 {
        suspect_counts.0.remove(label);
        return (raw_value, false);
    }
    suspect_counts.0.insert(label, count as u8);
    match prev_value {
        Some(pv) => (pv, true),
        None => (raw_value, false),
    }
}

/// Whether moving from `prev` to `raw` within one poll is implausible.
fn jumps_too_far(raw: i32, prev: i32, rules: &FieldRateRules) -> (r: bool)
    ensures
        r == too_fast(raw, prev, *rules),
{
    let diff: i64 = raw as i64 - prev as i64;
    let delta: i64 = if diff < 0 { -diff } else { diff };
    if delta <= rules.abs_delta_w as i64 {
        return false;
    }
    let base: i64 = abs_watts(prev);
    if base < RATE_PREV_FLOOR_W {
        return false;
    }
    match rules.rate_fraction {
        Quantity::Nan => false,
        Quantity::Nano(fraction) => {
            assert(-0x8000_0000_0000_0000 * 0x8000_0000 <= fraction * base
                <= 0x8000_0000_0000_0000 * 0x8000_0000) by (nonlinear_arith)
                requires
                    -0x8000_0000_0000_0000 <= fraction <= 0x8000_0000_0000_0000,
                    0 <= base <= 0x8000_0000,
            ;
            delta as i128 * 1_000_000_000 > fraction as i128 * base as i128
        },
    }
}

/// Checks how fast a power reading moved since the previous poll. Returns the
/// value to use and whether it replaces the reading.
///
/// A reading that moved too far is replaced by the previous one, for
/// [`RATE_RELEASE_THRESHOLD`] consecutive polls at most; one that passes ends the
/// count.
pub fn check_power_rate(
    raw: i32,
    prev: Option<i32>,
    elapsed_secs: u64,
    rules: &FieldRateRules,
    label: &'static str,
    release_counts: &mut RateReleaseCounts,
) -> (r: (i32, bool))
    ensures
        ({
            let v = rate_verdict(
                raw,
                prev,
                elapsed_secs,
                *rules,
                counted(old(release_counts).0@, label@),
            );
            &&& r == (v.value, v.replaced)
            &&& final(release_counts).0@ =~= recount(old(release_counts).0@, label@, v.count)
        }),
{
    reveal(rate_verdict);
    match prev {
        None => {
            release_counts.0.remove(label);
            (raw, false)
        },
        Some(p) => {
            if elapsed_secs > RATE_SMOOTH_MAX_WINDOW_SECS || !jumps_too_far(raw, p, rules) {
                release_counts.0.remove(label);
                return (raw, false);
            }
            let count: u16 = next_count(&release_counts.0, label);
            if count >= RATE_RELEASE_THRESHOLD as u16 {
                release_counts.0.remove(label);
                (raw, false)
            } else {
                release_counts.0.insert(label, count as u8);
                (p, true)
            }
        },
    }
}

} // verus!
