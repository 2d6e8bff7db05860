//! What the tariff automations are for, and the registers they write.
use crate::model::DeviceType;
use crate::plain::{no_more, put, ten_slots, three_phase_block};
use crate::quantity::Quantity;
use crate::registers::{encoded, hhmm, ControlCommand, RegisterWrite};
use crate::settings::{AgileScope, CosySlot};
use crate::state_machines::agile::{
    action_written, agile_choice, carries_out, continues, current_slot, law_run_is_maximal, run_end, run_window,
    shows, slot_covers, AgileChoice, AgileSlotAction, PriceBand, PriceSlot, SlotClock,
};
use crate::state_machines::cosy::{charge_times, cosy_clear_writes, cosy_writes};
use vstd::prelude::*;

verus! {

/// Whether a price is cheap, at or below the threshold, or else expensive, at or
/// above it.
pub open spec fn beyond_threshold(cheap: bool, threshold: Quantity, pence: Quantity) -> bool {
    if cheap {
        no_more(pence, threshold)
    } else {
        no_more(threshold, pence)
    }
}

/// Whether the slot at `index` is the first of the list that is under way.
pub open spec fn first_under_way(prices: Seq<PriceSlot>, now: i64, index: int) -> bool {
    &&& 0 <= index < prices.len()
    &&& prices[index].valid_from <= now && now < prices[index].valid_to
    &&& forall|i: int|
        0 <= i < index ==> !((#[trigger] prices[i]).valid_from <= now && now < prices[i].valid_to)
}

/// Whether no slot of the list is under way.
pub open spec fn none_under_way(prices: Seq<PriceSlot>, now: i64) -> bool {
    forall|i: int|
        0 <= i < prices.len() ==> !((#[trigger] prices[i]).valid_from <= now && now
            < prices[i].valid_to)
}

/// Whether the slots from `last` to `index` of the list, which are given newest
/// first, are one run: all cheap, or all expensive, each starting as the one
/// behind it in the list ends, and none that could follow on.
pub open spec fn one_run(
    prices: Seq<PriceSlot>,
    last: int,
    index: int,
    cheap: bool,
    threshold: Quantity,
) -> bool {
    &&& 0 <= last <= index < prices.len()
    &&& forall|j: int|
        last <= j <= index ==> beyond_threshold(cheap, threshold, (#[trigger] prices[j]).pence)
    &&& forall|j: int|
        last <= j < index ==> (#[trigger] prices[j]).valid_from == prices[j + 1].valid_to
    &&& last == 0 || prices[last - 1].valid_from != prices[last].valid_to || !beyond_threshold(
        cheap,
        threshold,
        prices[last - 1].pence,
    )
}

proof fn lemma_current_slot(prices: Seq<PriceSlot>, now: i64, from: int)
    requires
        0 <= from <= prices.len(),
        forall|i: int| 0 <= i < from ==> !slot_covers(#[trigger] prices[i], now),
    ensures
        match current_slot(prices, now, from) {
            Some(index) => first_under_way(prices, now, index),
            None => none_under_way(prices, now),
        },
    decreases prices.len() - from,
{
    if from < prices.len() && !slot_covers(prices[from], now) {
        lemma_current_slot(prices, now, from + 1);
    } else if from < prices.len() {
        assert forall|i: int| 0 <= i < from implies !((#[trigger] prices[i]).valid_from <= now
            && now < prices[i].valid_to) by {
            assert(!slot_covers(prices[i], now));
        }
    } else {
        assert forall|i: int| 0 <= i < prices.len() implies !((#[trigger] prices[i]).valid_from
            <= now && now < prices[i].valid_to) by {
            assert(!slot_covers(prices[i], now));
        }
    }
}

/// The band of cheap or of expensive prices.
pub open spec fn band_of(cheap: bool, threshold: Quantity) -> PriceBand {
    if cheap {
        PriceBand::UpTo(threshold)
    } else {
        PriceBand::From(threshold)
    }
}

/// Whether a window is that of the run under way: it starts with the slot under
/// way and ends with the last slot of the run.
#[verifier::opaque]
pub open spec fn run_under_way(
    prices: Seq<PriceSlot>,
    now: i64,
    cheap: bool,
    threshold: Quantity,
    from: i64,
    to: i64,
) -> bool {
    exists|index: int, last: int|
        {
            &&& #[trigger] first_under_way(prices, now, index)
            &&& #[trigger] one_run(prices, last, index, cheap, threshold)
            &&& from == prices[index].valid_from
            &&& to == prices[last].valid_to
        }
}

/// A run is found exactly where the slot under way is cheap, or expensive, and
/// is then the run under way.
#[verifier::rlimit(60)]
pub proof fn law_run_under_way_is_found(
    prices: Seq<PriceSlot>,
    now: i64,
    cheap: bool,
    threshold: Quantity,
    index: int,
)
    ensures
        match run_window(prices, now, band_of(cheap, threshold)) {
            Some((from, to)) => run_under_way(prices, now, cheap, threshold, from, to),
            None => none_under_way(prices, now) || exists|i: int| #[trigger]
                first_under_way(prices, now, i) && !beyond_threshold(
                    cheap,
                    threshold,
                    prices[i].pence,
                ),
        },
        first_under_way(prices, now, index) && beyond_threshold(
            cheap,
            threshold,
            prices[index].pence,
        ) ==> run_window(prices, now, band_of(cheap, threshold)) is Some,
        none_under_way(prices, now) ==> run_window(prices, now, band_of(cheap, threshold)) is None,
{
    reveal(run_under_way);
    let band = band_of(cheap, threshold);
    lemma_current_slot(prices, now, 0);
    assert forall|p: Quantity| #[trigger] band.admits(p) == beyond_threshold(
        cheap,
        threshold,
        p,
    ) by {}
    match current_slot(prices, now, 0) {
        None => {},
        Some(i) => {
            if first_under_way(prices, now, index) {
                if index < i {
                    assert(!(prices[index].valid_from <= now && now < prices[index].valid_to));
                }
                if i < index {
                    assert(!(prices[i].valid_from <= now && now < prices[i].valid_to));
                }
                assert(i == index);
            }
            if none_under_way(prices, now) {
                assert(!(prices[i].valid_from <= now && now < prices[i].valid_to));
            }
            if band.admits(prices[i].pence) {
                let end = prices[i].valid_to;
                law_run_is_maximal(prices, i, end, band);
                let to = run_end(prices, i, end, band);
                let k = choose|k: int|
                    {
                        &&& 0 <= k <= i
                        &&& #[trigger] continues(prices, k, i, end, band)
                        &&& to == if k == i {
                            end
                        } else {
                            prices[k].valid_to
                        }
                        &&& k == 0 || prices[k - 1].valid_from != to || !band.admits(
                            prices[k - 1].pence,
                        )
                    };
                assert forall|j: int| k <= j <= i implies beyond_threshold(
                    cheap,
                    threshold,
                    (#[trigger] prices[j]).pence,
                ) by {
                    if j < i {
                        assert(band.admits(prices[j].pence));
                    }
                }
                assert(one_run(prices, k, i, cheap, threshold));
                assert(run_under_way(prices, now, cheap, threshold, prices[i].valid_from, to));
            }
        },
    }
}

/// Within its scope the automation charges on a price at or below the charge
/// threshold, through the run of such prices under way, and has nothing to do
/// where the slot under way does not bear the price out. It defers to Cosy and
/// auto-winter where one of them is active.
pub proof fn law_cheap_prices_charge(
    scope: AgileScope,
    price: Quantity,
    charge_threshold: Quantity,
    discharge_threshold: Quantity,
    prices: Seq<PriceSlot>,
    now: i64,
    cosy_active: bool,
    auto_winter_active: bool,
    index: int,
)
    requires
        scope == AgileScope::Full || scope == AgileScope::ChargeOnly,
        no_more(price, charge_threshold),
    ensures
        ({
            let choice = agile_choice(
                scope,
                Some(price),
                charge_threshold,
                discharge_threshold,
                prices,
                now,
                cosy_active,
                auto_winter_active,
            );
            let borne_out = first_under_way(prices, now, index) && beyond_threshold(
                true,
                charge_threshold,
                prices[index].pence,
            );
            &&& cosy_active || auto_winter_active ==> choice is Defer
            &&& !cosy_active && !auto_winter_active ==> {
                &&& borne_out ==> choice is Charge
                &&& none_under_way(prices, now) || first_under_way(prices, now, index)
                    && !borne_out ==> choice is Idle
                &&& choice is Charge || choice is Idle
                &&& choice matches AgileChoice::Charge { from, to } ==> run_under_way(
                    prices,
                    now,
                    true,
                    charge_threshold,
                    from,
                    to,
                )
            }
        }),
{
    let cheap = true;
    law_run_under_way_is_found(prices, now, cheap, charge_threshold, index);
    lemma_one_under_way(prices, now, index);
    if first_under_way(prices, now, index) {
        assert(band_of(cheap, charge_threshold).admits(prices[index].pence) == beyond_threshold(
            cheap,
            charge_threshold,
            prices[index].pence,
        ));
    }
}

/// Within its scope the automation discharges on a price at or above the
/// discharge threshold, through the run of such prices under way, and has
/// nothing to do where the slot under way does not bear the price out. A price
/// that would also charge is left to charging.
pub proof fn law_expensive_prices_discharge(
    scope: AgileScope,
    price: Quantity,
    charge_threshold: Quantity,
    discharge_threshold: Quantity,
    prices: Seq<PriceSlot>,
    now: i64,
    cosy_active: bool,
    auto_winter_active: bool,
    index: int,
)
    requires
        scope == AgileScope::Full || scope == AgileScope::DischargeOnly,
        no_more(discharge_threshold, price),
        scope == AgileScope::Full ==> !no_more(price, charge_threshold),
    ensures
        ({
            let choice = agile_choice(
                scope,
                Some(price),
                charge_threshold,
                discharge_threshold,
                prices,
                now,
                cosy_active,
                auto_winter_active,
            );
            let borne_out = first_under_way(prices, now, index) && beyond_threshold(
                false,
                discharge_threshold,
                prices[index].pence,
            );
            &&& borne_out ==> choice is Discharge
            &&& none_under_way(prices, now) || first_under_way(prices, now, index) && !borne_out
                ==> choice is Idle
            &&& choice is Discharge || choice is Idle
            &&& choice matches AgileChoice::Discharge { from, to } ==> run_under_way(
                prices,
                now,
                false,
                discharge_threshold,
                from,
                to,
            )
        }),
{
    let cheap = false;
    law_run_under_way_is_found(prices, now, cheap, discharge_threshold, index);
    lemma_one_under_way(prices, now, index);
    if first_under_way(prices, now, index) {
        assert(band_of(cheap, discharge_threshold).admits(prices[index].pence) == beyond_threshold(
            cheap,
            discharge_threshold,
            prices[index].pence,
        ));
    }
}

/// There is nothing to do without a price, between the thresholds, or where the
/// scope leaves the matching side to others.
pub proof fn law_other_prices_leave_the_battery_alone(
    scope: AgileScope,
    price: Option<Quantity>,
    charge_threshold: Quantity,
    discharge_threshold: Quantity,
    prices: Seq<PriceSlot>,
    now: i64,
    cosy_active: bool,
    auto_winter_active: bool,
)
    requires
        price is None || scope == AgileScope::Off || {
            &&& !no_more(price->0, charge_threshold) || scope == AgileScope::DischargeOnly
            &&& !no_more(discharge_threshold, price->0) || scope == AgileScope::ChargeOnly
        },
    ensures
        agile_choice(
            scope,
            price,
            charge_threshold,
            discharge_threshold,
            prices,
            now,
            cosy_active,
            auto_winter_active,
        ) is Idle,
{
}

/// At most one slot is the first under way.
proof fn lemma_one_under_way(prices: Seq<PriceSlot>, now: i64, index: int)
    ensures
        first_under_way(prices, now, index) ==> current_slot(prices, now, 0) == Some(index),
{
    lemma_current_slot(prices, now, 0);
    if first_under_way(prices, now, index) {
        match current_slot(prices, now, 0) {
            Some(i) => {
                if i < index {
                    assert(!(prices[i].valid_from <= now && now < prices[i].valid_to));
                }
                if index < i {
                    assert(!(prices[index].valid_from <= now && now < prices[index].valid_to));
                }
            },
            None => {
                assert(!(prices[index].valid_from <= now && now < prices[index].valid_to));
            },
        }
    }
}

/// At a fixed offset from UTC, the time shown for an instant between the years
/// -262143 and 262142 has the hour and minute of the second of the day there;
/// for any other instant it is that of the epoch.
pub proof fn law_time_shown_at_an_offset(instant: i64, offset: i32, shown: u16)
    requires
        -86_400 < offset < 86_400,
    ensures
        ({
            let dated: int = if -8_334_601_228_800 <= instant && instant <= 8_210_266_876_799 {
                instant as int
            } else {
                0
            };
            let second = (dated + offset) % 86_400;
            shows(SlotClock::Offset(offset), instant, shown) <==> {
                &&& shown / 100 == second / 3600
                &&& shown % 100 == second / 60 % 60
            }
        }),
{
    let dated: int = if -8_334_601_228_800 <= instant && instant <= 8_210_266_876_799 {
        instant as int
    } else {
        0
    };
    let second = (dated + offset) % 86_400;
    assert(0 <= second < 86_400);
    let hour = second / 3600;
    let minute = second % 3600 / 60;
    assert(minute == second / 60 % 60);
    assert(0 <= hour < 24 && 0 <= minute < 60);
}

/// The action carries the choice out: charging up to 100 %, with the times of
/// the run on the clock.
pub proof fn law_action_carries_the_choice_out(
    action: AgileSlotAction,
    choice: AgileChoice,
    clock: SlotClock,
)
    requires
        carries_out(action, choice, clock),
    ensures
        action is Charge <==> choice is Charge,
        action is Discharge <==> choice is Discharge,
        action is Defer <==> choice is Defer,
        action is Idle <==> choice is Idle,
        action matches AgileSlotAction::Charge { start_hhmm, end_hhmm, target_soc } ==> {
            &&& target_soc == 100
            &&& shows(clock, choice->Charge_from, start_hhmm)
            &&& shows(clock, choice->Charge_to, end_hhmm)
        },
        action matches AgileSlotAction::Discharge { start_hhmm, end_hhmm } ==> {
            &&& shows(clock, choice->Discharge_from, start_hhmm)
            &&& shows(clock, choice->Discharge_to, end_hhmm)
        },
{
}

/// A Cosy slot writes its times to registers 94 and 95, or 1113 and 1114 on
/// models of the three-phase block. A running one then enables charging in
/// register 96 and the target in 20, and writes the target to 116, and also to
/// 242 on models with a target per slot. A slot that does not lie in times of
/// day writes nothing.
pub proof fn law_cosy_slot_writes(slot: CosySlot, device_type: DeviceType, active: bool)
    ensures
        ({
            let base: int = if three_phase_block(device_type) {
                1113
            } else {
                94
            };
            let times = seq![
                put(base, slot.start_hour * 100 + slot.start_minute),
                put(base + 1, slot.end_hour * 100 + slot.end_minute),
            ];
            let target = slot.target_soc as int;
            cosy_writes(slot, device_type, active) =~= if slot.start_hour >= 24
                || slot.start_minute >= 60 || slot.end_hour >= 24 || slot.end_minute >= 60 {
                Seq::<RegisterWrite>::empty()
            } else if !active {
                times
            } else if ten_slots(device_type) {
                times + seq![put(96, 1), put(20, 1), put(116, target), put(242, target)]
            } else {
                times + seq![put(96, 1), put(20, 1), put(116, target)]
            }
        }),
{
}

/// Clearing zeroes the times of the first charge slot, and then the enables of
/// charging and of its target.
pub proof fn law_cosy_clearing_writes(device_type: DeviceType)
    ensures
        cosy_clear_writes(device_type) =~= if three_phase_block(device_type) {
            seq![put(1113, 0), put(1114, 0), put(96, 0), put(20, 0)]
        } else {
            seq![put(94, 0), put(95, 0), put(96, 0), put(20, 0)]
        },
{
}

/// An action is written unless it defers, or is idle while the automation is
/// off.
pub proof fn law_actions_written(scope: AgileScope, action: AgileSlotAction)
    ensures
        action is Charge || action is Discharge ==> action_written(scope, action),
        action is Defer ==> !action_written(scope, action),
        action is Idle ==> (action_written(scope, action) <==> scope != AgileScope::Off),
{
}

/// The times of the first charge slot go to registers 94 and 95, or 1113 and 1114
/// on models of the three-phase block.
pub proof fn law_charge_slot_registers(device_type: DeviceType, start: u16, end: u16)
    ensures
        charge_times(device_type, start, end) =~= if three_phase_block(device_type) {
            seq![put(1113, start as int), put(1114, end as int)]
        } else {
            seq![put(94, start as int), put(95, end as int)]
        },
{
}

/// A time of day is packed as hours times 100 plus minutes, and nothing else is.
pub proof fn law_packed_times(hour: u8, minute: u8)
    ensures
        hour <= 23 && minute <= 59 ==> hhmm(hour, minute) is Some && hhmm(hour, minute)->0 == 100
            * hour + minute,
        hour > 23 || minute > 59 ==> hhmm(hour, minute) is None,
{
}

/// A command that sets a slot's times is encoded exactly for times of day, to
/// the two registers of the slot; one that sets a slot's target for slots 1 to
/// 10 and targets of 4 to 100.
pub proof fn law_commands_are_encoded(slot: u8, start: u16, end: u16, soc: u16)
    ensures
        ({
            let fine = start / 100 <= 23 && start % 100 <= 59 && end / 100 <= 23 && end % 100 <= 59;
            let times = |base: int| seq![put(base, start as int), put(base + 1, end as int)];
            &&& encoded(ControlCommand::SetDischargeSlot1 { start, end }) is Some <==> fine
            &&& fine ==> encoded(ControlCommand::SetDischargeSlot1 { start, end })->0 =~= times(56)
            &&& encoded(ControlCommand::SetDischargeSlot2 { start, end }) is Some <==> fine
            &&& fine ==> encoded(ControlCommand::SetDischargeSlot2 { start, end })->0 =~= times(44)
            &&& encoded(ControlCommand::SetThreePhaseDischargeSlot1 { start, end }) is Some <==> fine
            &&& fine ==> encoded(ControlCommand::SetThreePhaseDischargeSlot1 { start, end })->0
                =~= times(1118)
            &&& encoded(ControlCommand::SetThreePhaseDischargeSlot2 { start, end }) is Some <==> fine
            &&& fine ==> encoded(ControlCommand::SetThreePhaseDischargeSlot2 { start, end })->0
                =~= times(1120)
            &&& encoded(ControlCommand::SetDischargeSlotN { slot, start, end }) is Some <==> fine
                && 3 <= slot && slot <= 10
            &&& fine && 3 <= slot && slot <= 10 ==> encoded(
                ControlCommand::SetDischargeSlotN { slot, start, end },
            )->0 =~= times(267 + 3 * slot)
            &&& encoded(ControlCommand::SetDischargeTargetSocSlot { slot, soc }) is Some <==> 1
                <= slot && slot <= 10 && 4 <= soc && soc <= 100
            &&& 1 <= slot && slot <= 10 && 4 <= soc && soc <= 100 ==> encoded(
                ControlCommand::SetDischargeTargetSocSlot { slot, soc },
            )->0 =~= seq![put(269 + 3 * slot, soc as int)]
        }),
{
}

} // verus!
