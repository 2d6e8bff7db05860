//! What holds of the sanitizer as a whole.
use crate::model::{plant_controller, BatteryMode, InverterSnapshot};
use crate::quantity::{whole, Quantity};
use crate::sanitizer::balance::{
    has_culprit, imbalance, rebalanced, reconciles, sole_culprit, PowerField, PowerStates,
    POWER_BALANCE_RESIDUAL_W,
};
use crate::sanitizer::energy::{
    delta_verdict, outgrows, resets, wobbles, DELTA_CORRECTION_RELEASE_THRESHOLD,
};
use crate::sanitizer::meters::{
    cross_checked, eps_kept, meter_states, powered_snapshot, smoothed, smoothed_snapshot, Meter,
};
use crate::sanitizer::power::{
    field_verdict, magnitude, rate_verdict, too_fast, FieldRateRules, Verdict,
    HARD_CORRUPTION_CEILING, RATE_RELEASE_THRESHOLD, RATE_SMOOTH_MAX_WINDOW_SECS,
    SUSPECT_RELEASE_THRESHOLD,
};
use crate::sanitizer::readings::debounced;
use vstd::prelude::*;

verus! {

/// A saturated reading is never believed, however often it comes: the previous
/// reading stands, or without one the limit, and the count of over-limit
/// readings starts again.
pub proof fn law_saturation_is_never_released(
    raw: i32,
    prev: Option<i32>,
    limit: i32,
    count: Option<u8>,
)
    requires
        0 <= limit,
        magnitude(raw as int) >= HARD_CORRUPTION_CEILING,
    ensures
        ({
            let v = field_verdict(raw, prev, limit, count);
            &&& v.replaced
            &&& v.count == Some(0u8)
            &&& match prev {
                Some(p) => v.value == p,
                None => magnitude(v.value as int) == limit && (v.value >= 0 <==> raw > 0 || limit
                    == 0),
            }
        }),
{
    reveal(field_verdict);
}

/// A reading within the limit and short of saturation is used as it is and ends
/// the count.
pub proof fn law_reading_within_limit_is_used(
    raw: i32,
    prev: Option<i32>,
    limit: i32,
    count: Option<u8>,
)
    requires
        magnitude(raw as int) <= limit,
        unsaturated(raw),
    ensures
        field_verdict(raw, prev, limit, count) == (Verdict {
            value: raw,
            replaced: false,
            count: None::<u8>,
        }),
{
    reveal(field_verdict);
}

/// The counter after a row of over-limit readings.
pub open spec fn suspect_count(raws: Seq<i32>, prev: i32, limit: i32) -> Option<u8>
    decreases raws.len(),
{
    if raws.len() == 0 {
        None
    } else {
        field_verdict(
            raws.last(),
            Some(prev),
            limit,
            suspect_count(raws.drop_last(), prev, limit),
        ).count
    }
}

/// Readings over the limit but short of saturation are replaced nine times in a
/// row; the tenth is believed and ends the count.
pub proof fn law_tenth_over_limit_reading_is_released(raws: Seq<i32>, prev: i32, limit: i32)
    requires
        0 < raws.len() <= SUSPECT_RELEASE_THRESHOLD,
        forall|i: int|
            0 <= i < raws.len() ==> limit < magnitude(#[trigger] raws[i] as int)
                < HARD_CORRUPTION_CEILING && raws[i] != prev,
    ensures
        field_verdict(
            raws.last(),
            Some(prev),
            limit,
            suspect_count(raws.drop_last(), prev, limit),
        ) == if raws.len() < SUSPECT_RELEASE_THRESHOLD {
            Verdict { value: prev, replaced: true, count: Some(raws.len() as u8) }
        } else {
            Verdict { value: raws.last(), replaced: false, count: None }
        },
    decreases raws.len(),
{
    reveal(field_verdict);
    assert(raws.last() == raws[raws.len() - 1]);
    let rest = raws.drop_last();
    if rest.len() > 0 {
        assert forall|i: int| 0 <= i < rest.len() implies limit < magnitude(
            #[trigger] rest[i] as int,
        ) < HARD_CORRUPTION_CEILING && rest[i] != prev by {
            assert(rest[i] == raws[i]);
        }
        law_tenth_over_limit_reading_is_released(rest, prev, limit);
    }
}

/// The counter after a row of readings that moved too far.
pub open spec fn rate_count(
    raws: Seq<i32>,
    prev: i32,
    elapsed_secs: u64,
    rules: FieldRateRules,
) -> Option<u8>
    decreases raws.len(),
{
    if raws.len() == 0 {
        None
    } else {
        rate_verdict(
            raws.last(),
            Some(prev),
            elapsed_secs,
            rules,
            rate_count(raws.drop_last(), prev, elapsed_secs, rules),
        ).count
    }
}

/// Readings that moved too far are replaced twice in a row; the third is
/// believed and ends the count.
pub proof fn law_third_fast_reading_is_released(
    raws: Seq<i32>,
    prev: i32,
    elapsed_secs: u64,
    rules: FieldRateRules,
)
    requires
        0 < raws.len() <= RATE_RELEASE_THRESHOLD,
        elapsed_secs <= RATE_SMOOTH_MAX_WINDOW_SECS,
        forall|i: int| 0 <= i < raws.len() ==> too_fast(#[trigger] raws[i], prev, rules),
    ensures
        rate_verdict(
            raws.last(),
            Some(prev),
            elapsed_secs,
            rules,
            rate_count(raws.drop_last(), prev, elapsed_secs, rules),
        ) == if raws.len() < RATE_RELEASE_THRESHOLD {
            Verdict { value: prev, replaced: true, count: Some(raws.len() as u8) }
        } else {
            Verdict { value: raws.last(), replaced: false, count: None }
        },
    decreases raws.len(),
{
    reveal(rate_verdict);
    assert(raws.last() == raws[raws.len() - 1]);
    let rest = raws.drop_last();
    if rest.len() > 0 {
        assert forall|i: int| 0 <= i < rest.len() implies too_fast(
            #[trigger] rest[i],
            prev,
            rules,
        ) by {
            assert(rest[i] == raws[i]);
        }
        law_third_fast_reading_is_released(rest, prev, elapsed_secs, rules);
    }
}

/// A reading is rejected for its speed only where it exceeds both bounds, and
/// never over a long gap or without a previous reading.
pub proof fn law_rejection_needs_both_bounds(
    raw: i32,
    prev: Option<i32>,
    elapsed_secs: u64,
    rules: FieldRateRules,
    count: Option<u8>,
)
    ensures
        rate_verdict(raw, prev, elapsed_secs, rules, count).replaced ==> {
            &&& prev is Some
            &&& elapsed_secs <= RATE_SMOOTH_MAX_WINDOW_SECS
            &&& magnitude(raw - prev->0) > rules.abs_delta_w
            &&& rules.rate_fraction is Nano
            &&& magnitude(raw - prev->0) * 1_000_000_000 > rules.rate_fraction->Nano_0
                * magnitude(prev->0 as int)
        },
{
    reveal(rate_verdict);
}

/// The cross-check touches at most one of the four power readings. It puts back
/// what was read where that had been rejected, and else the previous reading.
pub proof fn law_cross_check_touches_one_reading(
    snap: InverterSnapshot,
    prev: InverterSnapshot,
    states: PowerStates,
)
    ensures
        ({
            let out = rebalanced(snap, prev, states);
            &&& out.solar_power != snap.solar_power ==> out.solar_power == states.solar.undone(
                prev.solar_power,
            ) && out == (InverterSnapshot { solar_power: out.solar_power, ..snap })
            &&& out.battery_power != snap.battery_power ==> out.battery_power
                == states.battery.undone(prev.battery_power) && out == (InverterSnapshot {
                battery_power: out.battery_power,
                ..snap
            })
            &&& out.grid_power != snap.grid_power ==> out.grid_power == states.grid.undone(
                prev.grid_power,
            ) && out == (InverterSnapshot { grid_power: out.grid_power, ..snap })
            &&& out.home_power != snap.home_power ==> states.home.rate_rejected && out.home_power
                == states.home.raw && out == (InverterSnapshot {
                home_power: out.home_power,
                ..snap
            })
        }),
{
    reveal(rebalanced);
    if sole_culprit(PowerField::Home, snap, prev, states) {
        assert(reconciles(PowerField::Home, snap, prev, states));
    }
}

/// Readings that agree are left alone, and so are those where no single reading
/// is to blame.
pub proof fn law_cross_check_needs_one_culprit(
    snap: InverterSnapshot,
    prev: InverterSnapshot,
    states: PowerStates,
)
    ensures
        imbalance(snap.battery_power, snap.grid_power, snap.solar_power, snap.home_power)
            <= POWER_BALANCE_RESIDUAL_W ==> rebalanced(snap, prev, states) == snap
            && !has_culprit(snap, prev, states),
        !has_culprit(snap, prev, states) ==> rebalanced(snap, prev, states) == snap,
        forall|f: PowerField, g: PowerField|
            f != g && #[trigger] reconciles(f, snap, prev, states) && #[trigger] reconciles(
                g,
                snap,
                prev,
                states,
            ) ==> rebalanced(snap, prev, states) == snap,
{
    reveal(rebalanced);
    reveal(has_culprit);
    assert forall|f: PowerField, g: PowerField|
        f != g && #[trigger] reconciles(f, snap, prev, states) && #[trigger] reconciles(
            g,
            snap,
            prev,
            states,
        ) implies rebalanced(snap, prev, states) == snap by {
        assert forall|x: PowerField| !#[trigger] sole_culprit(x, snap, prev, states) by {
            if sole_culprit(x, snap, prev, states) {
                assert(f == x);
                assert(g == x);
            }
        }
    }
}

/// The cross-check never makes the readings less consistent: whatever it changes
/// brings them into agreement.
pub proof fn law_cross_check_never_worsens(
    snap: InverterSnapshot,
    prev: InverterSnapshot,
    states: PowerStates,
)
    ensures
        ({
            let out = rebalanced(snap, prev, states);
            let after = imbalance(
                out.battery_power,
                out.grid_power,
                out.solar_power,
                out.home_power,
            );
            &&& after <= imbalance(
                snap.battery_power,
                snap.grid_power,
                snap.solar_power,
                snap.home_power,
            )
            &&& has_culprit(snap, prev, states) ==> after < POWER_BALANCE_RESIDUAL_W
        }),
{
    reveal(rebalanced);
    reveal(has_culprit);
    assert forall|f: PowerField| #[trigger] sole_culprit(f, snap, prev, states) implies reconciles(
        f,
        snap,
        prev,
        states,
    ) by {}
    if has_culprit(snap, prev, states) {
        let f = choose|f: PowerField| #[trigger] sole_culprit(f, snap, prev, states);
        assert(reconciles(f, snap, prev, states));
        assert forall|g: PowerField| g != f implies !#[trigger] sole_culprit(
            g,
            snap,
            prev,
            states,
        ) by {
            if sole_culprit(g, snap, prev, states) {
                assert(reconciles(f, snap, prev, states) <==> f == g);
            }
        }
        match f {
            PowerField::Solar => {},
            PowerField::Battery => {},
            PowerField::Grid => {},
            PowerField::Home => {},
        }
    }
}

/// A power reading short of saturation.
pub open spec fn unsaturated(watts: i32) -> bool {
    magnitude(watts as int) < HARD_CORRUPTION_CEILING
}

/// Every meter of a snapshot is short of saturation.
pub open spec fn meters_unsaturated(snap: InverterSnapshot) -> bool {
    forall|m: Meter| unsaturated(#[trigger] m.reading(snap))
}

proof fn lemma_meter_unsaturated(
    meter: Meter,
    snap: InverterSnapshot,
    prev: Option<&InverterSnapshot>,
    suspects: Map<Seq<char>, u8>,
    rates: Map<Seq<char>, u8>,
)
    requires
        prev is Some ==> unsaturated(meter.reading(*prev->0)),
    ensures
        unsaturated(smoothed(meter, snap, prev, suspects, rates).value),
        smoothed(meter, snap, prev, suspects, rates).replaced ==> unsaturated(meter.reading(snap)),
{
    reveal(field_verdict);
    reveal(rate_verdict);
}

/// The four power readings that balance are short of saturation.
pub open spec fn powers_unsaturated(snap: InverterSnapshot) -> bool {
    &&& unsaturated(snap.battery_power)
    &&& unsaturated(snap.grid_power)
    &&& unsaturated(snap.solar_power)
    &&& unsaturated(snap.home_power)
}

/// Saturated power never gets through: with previous power readings that are
/// free of it, or none, no power reading comes out saturated, and the same holds
/// of the backup supply by itself.
pub proof fn law_no_meter_comes_out_saturated(
    snap: InverterSnapshot,
    prev: Option<&InverterSnapshot>,
    skip_delta: bool,
    suspects: Map<Seq<char>, u8>,
    rates: Map<Seq<char>, u8>,
)
    ensures
        (prev is Some ==> powers_unsaturated(*prev->0)) ==> powers_unsaturated(
            powered_snapshot(snap, prev, skip_delta, suspects, rates),
        ),
        (prev is Some ==> unsaturated(Meter::Eps.reading(*prev->0))) ==> eps_kept(
            snap,
            prev,
            suspects,
            rates,
        ) < HARD_CORRUPTION_CEILING,
{
    if prev is Some ==> unsaturated(Meter::Eps.reading(*prev->0)) {
        lemma_meter_unsaturated(Meter::Eps, snap, prev, suspects, rates);
    }
    if prev is Some ==> powers_unsaturated(*prev->0) {
        lemma_powers_unsaturated(snap, prev, skip_delta, suspects, rates);
    }
}

proof fn lemma_powers_unsaturated(
    snap: InverterSnapshot,
    prev: Option<&InverterSnapshot>,
    skip_delta: bool,
    suspects: Map<Seq<char>, u8>,
    rates: Map<Seq<char>, u8>,
)
    requires
        prev is Some ==> powers_unsaturated(*prev->0),
    ensures
        powers_unsaturated(powered_snapshot(snap, prev, skip_delta, suspects, rates)),
{
    lemma_meter_unsaturated(Meter::Battery, snap, prev, suspects, rates);
    lemma_meter_unsaturated(Meter::Grid, snap, prev, suspects, rates);
    lemma_meter_unsaturated(Meter::Solar, snap, prev, suspects, rates);
    lemma_meter_unsaturated(Meter::Home, snap, prev, suspects, rates);
    if cross_checked(snap, prev, skip_delta) {
        let checked = smoothed_snapshot(snap, prev, suspects, rates);
        let states = meter_states(snap, prev, suspects, rates);
        let before = *prev->0;
        law_cross_check_touches_one_reading(checked, before, states);
    }
}

/// Right after a connect, on a plant and without a previous snapshot the meters
/// are not checked against each other.
pub proof fn law_cross_check_is_skipped(
    snap: InverterSnapshot,
    prev: Option<&InverterSnapshot>,
    skip_delta: bool,
    suspects: Map<Seq<char>, u8>,
    rates: Map<Seq<char>, u8>,
)
    requires
        skip_delta || plant_controller(snap.device_type) || prev is None,
    ensures
        powered_snapshot(snap, prev, skip_delta, suspects, rates) == smoothed_snapshot(
            snap,
            prev,
            suspects,
            rates,
        ),
{
}

/// An increase that the elapsed time allows is used as it is.
pub proof fn law_plausible_increase_is_used(
    raw: Quantity,
    prev: Quantity,
    elapsed_secs: u64,
    growth_kw: int,
    noise: int,
    may_reset: bool,
    count: Option<u8>,
)
    requires
        prev.le(raw),
        !outgrows(raw, prev, elapsed_secs, growth_kw),
    ensures
        ({
            let v = delta_verdict(
                raw,
                prev,
                elapsed_secs,
                growth_kw,
                noise,
                may_reset,
                count,
            );
            v.value == raw && !v.replaced
        }),
{
}

/// An increase beyond what the elapsed time allows is held at the previous
/// value, up to the ninth time in a row.
pub proof fn law_implausible_increase_is_held(
    raw: Quantity,
    prev: Quantity,
    elapsed_secs: u64,
    growth_kw: int,
    noise: int,
    may_reset: bool,
    count: Option<u8>,
)
    requires
        whole(1).le(prev),
        growth_kw >= 0,
        outgrows(raw, prev, elapsed_secs, growth_kw),
        count is None || count->0 + 1 < DELTA_CORRECTION_RELEASE_THRESHOLD,
    ensures
        ({
            let v = delta_verdict(
                raw,
                prev,
                elapsed_secs,
                growth_kw,
                noise,
                may_reset,
                count,
            );
            v.value == prev && v.replaced
        }),
{
    assert(elapsed_secs * growth_kw >= 0) by (nonlinear_arith)
        requires
            elapsed_secs >= 0,
            growth_kw >= 0,
    ;
}

/// The boundary between noise and corruption is exact: a decrease up to the
/// noise keeps the previous value silently, a larger one keeps it and is
/// reported, as long as it is neither a reset nor the tenth in a row.
pub proof fn law_noise_boundary_is_exact(
    raw: Quantity,
    prev: Quantity,
    elapsed_secs: u64,
    growth_kw: int,
    noise: int,
    may_reset: bool,
    count: Option<u8>,
)
    requires
        whole(1).le(prev),
        raw.lt(prev),
        !(may_reset && resets(raw, prev)),
        count is None || count->0 + 1 < DELTA_CORRECTION_RELEASE_THRESHOLD,
    ensures
        ({
            let v = delta_verdict(
                raw,
                prev,
                elapsed_secs,
                growth_kw,
                noise,
                may_reset,
                count,
            );
            v.value == prev && (v.replaced <==> prev->Nano_0 - raw->Nano_0 > noise)
        }),
{
}

/// Against a previous value below one kWh every reading is used as it is.
pub proof fn law_near_zero_baseline_accepts(
    raw: Quantity,
    prev: Quantity,
    elapsed_secs: u64,
    growth_kw: int,
    noise: int,
    may_reset: bool,
    count: Option<u8>,
)
    requires
        prev.lt(whole(1)),
    ensures
        ({
            let v = delta_verdict(
                raw,
                prev,
                elapsed_secs,
                growth_kw,
                noise,
                may_reset,
                count,
            );
            v.value == raw && !v.replaced
        }),
{
}

/// An unchanged reading is used and not reported.
pub proof fn law_unchanged_counter_is_used(
    value: Quantity,
    elapsed_secs: u64,
    growth_kw: int,
    noise: int,
    may_reset: bool,
    count: Option<u8>,
)
    requires
        growth_kw >= 0,
    ensures
        ({
            let v = delta_verdict(
                value,
                value,
                elapsed_secs,
                growth_kw,
                noise,
                may_reset,
                count,
            );
            v.value == value && !v.replaced
        }),
{
    assert(elapsed_secs * growth_kw >= 0) by (nonlinear_arith)
        requires
            elapsed_secs >= 0,
            growth_kw >= 0,
    ;
}

/// A counter of at least one kWh goes down only by a reset, or when a lower
/// reading comes for the tenth time in a row.
pub proof fn law_counter_goes_down_only_by_reset_or_release(
    raw: Quantity,
    prev: Quantity,
    elapsed_secs: u64,
    growth_kw: int,
    noise: int,
    may_reset: bool,
    count: Option<u8>,
)
    requires
        whole(1).le(prev),
    ensures
        delta_verdict(
            raw,
            prev,
            elapsed_secs,
            growth_kw,
            noise,
            may_reset,
            count,
        ).value.lt(prev) ==> (may_reset && resets(raw, prev)) || (count is Some && count->0 + 1
            >= DELTA_CORRECTION_RELEASE_THRESHOLD),
{
}

/// The counter after a row of implausible readings.
pub open spec fn correction_count(
    raws: Seq<Quantity>,
    prev: Quantity,
    elapsed_secs: u64,
    growth_kw: int,
    noise: int,
) -> Option<u8>
    decreases raws.len(),
{
    if raws.len() == 0 {
        None
    } else {
        delta_verdict(
            raws.last(),
            prev,
            elapsed_secs,
            growth_kw,
            noise,
            false,
            correction_count(raws.drop_last(), prev, elapsed_secs, growth_kw, noise),
        ).count
    }
}

/// Implausible readings, too low or too high, are replaced nine times in a row;
/// the tenth is believed and ends the count.
pub proof fn law_tenth_correction_is_released(
    raws: Seq<Quantity>,
    prev: Quantity,
    elapsed_secs: u64,
    growth_kw: int,
    noise: int,
)
    requires
        0 < raws.len() <= DELTA_CORRECTION_RELEASE_THRESHOLD,
        whole(1).le(prev),
        forall|i: int|
            0 <= i < raws.len() ==> !wobbles(#[trigger] raws[i], prev, noise) && (raws[i].lt(prev)
                || outgrows(raws[i], prev, elapsed_secs, growth_kw)),
    ensures
        delta_verdict(
            raws.last(),
            prev,
            elapsed_secs,
            growth_kw,
            noise,
            false,
            correction_count(raws.drop_last(), prev, elapsed_secs, growth_kw, noise),
        ) == if raws.len() < DELTA_CORRECTION_RELEASE_THRESHOLD {
            Verdict { value: prev, replaced: true, count: Some(raws.len() as u8) }
        } else {
            Verdict { value: raws.last(), replaced: false, count: None }
        },
    decreases raws.len(),
{
    assert(raws.last() == raws[raws.len() - 1]);
    let rest = raws.drop_last();
    if rest.len() > 0 {
        assert forall|i: int| 0 <= i < rest.len() implies !wobbles(
            #[trigger] rest[i],
            prev,
            noise,
        ) && (rest[i].lt(prev) || outgrows(rest[i], prev, elapsed_secs, growth_kw)) by {
            assert(rest[i] == raws[i]);
        }
        law_tenth_correction_is_released(rest, prev, elapsed_secs, growth_kw, noise);
    }
}

/// A battery mode that is read once does not show, whatever other mode was read
/// before it; read a second time in a row it does. Going back to the reported
/// mode in between forgets it.
pub proof fn law_mode_needs_two_readings(
    mode: BatteryMode,
    reported: BatteryMode,
    pending: Option<BatteryMode>,
)
    requires
        mode != reported,
    ensures
        pending != Some(mode) ==> debounced(mode, Some(reported), pending) == (
            reported,
            Some(mode),
            true,
        ),
        debounced(mode, Some(reported), Some(mode)) == (mode, None::<BatteryMode>, false),
        debounced(reported, Some(reported), pending) == (
            reported,
            None::<BatteryMode>,
            false,
        ),
{
}

/// Of two readings in a row of which the first is not reported, the second is
/// reported as a change only if it repeats the first.
pub proof fn law_mode_change_repeats_a_reading(
    first: BatteryMode,
    second: BatteryMode,
    reported: BatteryMode,
    pending: Option<BatteryMode>,
)
    requires
        debounced(first, Some(reported), pending).0 == reported,
    ensures
        ({
            let held = debounced(first, Some(reported), pending);
            let shown = debounced(second, Some(reported), held.1).0;
            shown == if second == first {
                second
            } else {
                reported
            }
        }),
{
}

} // verus!
