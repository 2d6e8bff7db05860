//! Price-driven charge and discharge slots.
use crate::ordering::{in_order, lemma_insert_position, lemma_stable_sort, ranks, stable_sort};
use crate::quantity::Quantity;
use crate::settings::AgileScope;
use crate::wall_clock::{host_clock, offset_clock, representable, second_of_day};
use vstd::prelude::*;

verus! {

/// The price of a span of time.
#[derive(Clone, Copy, Debug, PartialEq, Eq, Structural)]
pub struct PriceSlot {
    pub pence: Quantity,
    /// Start of the span in unix seconds.
    pub valid_from: i64,
    /// End of the span in unix seconds, itself outside.
    pub valid_to: i64,
}

/// What the automation wants this poll.
#[derive(Clone, Copy, Debug, PartialEq, Eq, Structural)]
pub enum AgileSlotAction {
    /// Charge by the inverter's first charge slot with these times.
    Charge { start_hhmm: u16, end_hhmm: u16, target_soc: u16 },
    /// Discharge by the inverter's first discharge slot with these times.
    Discharge { start_hhmm: u16, end_hhmm: u16 },
    /// Another mechanism is charging: leave the inverter alone.
    Defer,
    /// Nothing to do: clear a slot that was armed before.
    Idle,
}

impl AgileSlotAction {
    /// Whether the action charges or discharges.
    pub fn is_active(&self) -> (r: bool)
        ensures
            r == (*self is Charge || *self is Discharge),
    {
        matches!(self, AgileSlotAction::Charge { .. } | AgileSlotAction::Discharge { .. })
    }

    /// The state that the snapshot reports.
    pub fn label(&self) -> (r: &'static str)
        ensures
            r@ == match *self {
                AgileSlotAction::Charge { .. } => "charging"@,
                AgileSlotAction::Discharge { .. } => "discharging"@,
                AgileSlotAction::Defer | AgileSlotAction::Idle => "idle"@,
            },
    {
        match self {
            AgileSlotAction::Charge { .. } => "charging",
            AgileSlotAction::Discharge { .. } => "discharging",
            AgileSlotAction::Defer | AgileSlotAction::Idle => "idle",
        }
    }
}

/// Whether the registers of an action are written.
pub open spec fn action_written(scope: AgileScope, action: AgileSlotAction) -> bool {
    !(action is Defer || (scope == AgileScope::Off && action is Idle))
}

/// Whether the registers of an action are to be written. A deferring automation
/// writes nothing, and one that is off clears nothing, since the schedule may be
/// the user's. One that is on does clear: that cancels what an earlier poll, or
/// an earlier process, armed.
pub fn should_write_agile_action(scope: AgileScope, action: &AgileSlotAction) -> (r: bool)
    ensures
        r == action_written(scope, *action),
{
    !(matches!(action, AgileSlotAction::Defer) || (scope == AgileScope::Off && matches!(
        action,
        AgileSlotAction::Idle
    )))
}

/// Later slots before earlier ones.
pub open spec fn newest_first() -> spec_fn(PriceSlot, PriceSlot) -> bool {
    |a: PriceSlot, b: PriceSlot|
        a.valid_from > b.valid_from || (a.valid_from == b.valid_from && a.valid_to > b.valid_to)
}

fn is_newer(a: &PriceSlot, b: &PriceSlot) -> (r: bool)
    ensures
        r == newest_first()(*a, *b),
{
    a.valid_from > b.valid_from || (a.valid_from == b.valid_from && a.valid_to > b.valid_to)
}

/// Sorts prices so that later slots come first; slots of the same span keep
/// their order.
pub fn sort_price_slots_newest_first(prices: &mut Vec<PriceSlot>)
    ensures
        final(prices)@ == stable_sort(old(prices)@, newest_first()),
        in_order(final(prices)@, newest_first()),
        final(prices)@.to_multiset() == old(prices)@.to_multiset(),
{
    let ghost before = prices@;
    let mut sorted: Vec<PriceSlot> = Vec::new();
    let mut i: usize = 0;
    assert(before.take(0) =~= Seq::<PriceSlot>::empty());
    assert(sorted@ =~= Seq::<PriceSlot>::empty());
    while i < prices.len()
        invariant
            i <= prices.len(),
            prices@ == before,
            sorted@ == stable_sort(before.take(i as int), newest_first()),
        decreases prices.len() - i,
    {
        let slot: PriceSlot = prices[i];
        proof {
            let next = before.take(i + 1);
            assert(next.drop_last() =~= before.take(i as int));
            assert(next.last() == slot);
        }
        let mut at: usize = sorted.len();
        while at > 0 && is_newer(&slot, &sorted[at - 1])
            invariant
                at <= sorted.len(),
                forall|k: int|
                    at <= k < sorted.len() ==> newest_first()(slot, #[trigger] sorted[k]),
            decreases at,
        {
            at -= 1;
        }
        proof {
            lemma_insert_position(sorted@, slot, newest_first(), at as int);
        }
        sorted.insert(at, slot);
        i += 1;
    }
    proof {
        assert(before.take(i as int) =~= before);
        assert(ranks(newest_first()));
        lemma_stable_sort(before, newest_first());
    }
    *prices = sorted;
}

/// Which prices a run is made of.
#[derive(Clone, Copy, Debug, PartialEq, Eq, Structural)]
pub enum PriceBand {
    /// At or below a threshold.
    UpTo(Quantity),
    /// At or above a threshold.
    From(Quantity),
}

impl PriceBand {
    /// Whether a price lies in the band.
    pub open spec fn admits(self, pence: Quantity) -> bool {
        match self {
            PriceBand::UpTo(limit) => pence.le(limit),
            PriceBand::From(limit) => limit.le(pence),
        }
    }

    fn contains(self, pence: Quantity) -> (r: bool)
        ensures
            r == self.admits(pence),
    {
        match self {
            PriceBand::UpTo(limit) => pence.at_most(limit),
            PriceBand::From(limit) => limit.at_most(pence),
        }
    }
}

/// Whether a slot contains the instant.
pub open spec fn slot_covers(slot: PriceSlot, now: i64) -> bool {
    slot.valid_from <= now < slot.valid_to
}

/// The first slot at or after `from` in the list that contains the instant.
pub open spec fn current_slot(prices: Seq<PriceSlot>, now: i64, from: int) -> Option<int>
    decreases prices.len() - from,
{
    if from >= prices.len() {
        None
    } else if slot_covers(prices[from], now) {
        Some(from)
    } else {
        current_slot(prices, now, from + 1)
    }
}

/// How far a run that has reached `end` goes on over the slots before `index`
/// in the list, which are the later ones: up to the first gap or the first
/// price outside the band.
pub open spec fn run_end(prices: Seq<PriceSlot>, index: int, end: i64, band: PriceBand) -> i64
    decreases index,
{
    if index <= 0 {
        end
    } else {
        let slot = prices[index - 1];
        if slot.valid_from != end || !band.admits(slot.pence) {
            end
        } else {
            run_end(prices, index - 1, slot.valid_to, band)
        }
    }
}

/// The run of prices in the band that is under way at the instant.
pub open spec fn run_window(prices: Seq<PriceSlot>, now: i64, band: PriceBand) -> Option<
    (i64, i64),
> {
    match current_slot(prices, now, 0) {
        None => None,
        Some(index) => {
            let slot = prices[index];
            if band.admits(slot.pence) {
                Some((slot.valid_from, run_end(prices, index, slot.valid_to, band)))
            } else {
                None
            }
        },
    }
}

/// The run of prices in the band that is under way at the instant, from the
/// start of the current slot to the end of the last one in the run. Prices are
/// given newest first.
pub fn contiguous_run_window(cached_prices: &[PriceSlot], now_unix_ts: i64, band: PriceBand) -> (r:
    Option<(i64, i64)>)
    ensures
        r == run_window(cached_prices@, now_unix_ts, band),
{
    let mut index: usize = 0;
    while index < cached_prices.len()
        invariant
            index <= cached_prices.len(),
            current_slot(cached_prices@, now_unix_ts, 0) == current_slot(
                cached_prices@,
                now_unix_ts,
                index as int,
            ),
        decreases cached_prices.len() - index,
    {
        let slot: PriceSlot = cached_prices[index];
        if now_unix_ts >= slot.valid_from && now_unix_ts < slot.valid_to {
            if !band.contains(slot.pence) {
                return None;
            }
            let mut end: i64 = slot.valid_to;
            let mut i: usize = index;
            while i > 0
                invariant
                    i <= index < cached_prices.len(),
                    run_end(cached_prices@, index as int, slot.valid_to, band) == run_end(
                        cached_prices@,
                        i as int,
                        end,
                        band,
                    ),
                ensures
                    end == run_end(cached_prices@, index as int, slot.valid_to, band),
                decreases i,
            {
                let later: PriceSlot = cached_prices[i - 1];
                if later.valid_from != end || !band.contains(later.pence) {
                    break;
                }
                end = later.valid_to;
                i -= 1;
            }
            return Some((slot.valid_from, end));
        }
        index += 1;
    }
    None
}

/// What the automation wants, in instants.
#[derive(Clone, Copy, Debug, PartialEq, Eq, Structural)]
pub enum AgileChoice {
    Charge { from: i64, to: i64 },
    Discharge { from: i64, to: i64 },
    Defer,
    Idle,
}

/// What the automation wants: to charge through a run of cheap prices, or to
/// discharge through one of expensive prices, as far as its scope goes. It
/// defers charging to Cosy and auto-winter.
pub open spec fn agile_choice(
    scope: AgileScope,
    price: Option<Quantity>,
    charge_threshold: Quantity,
    discharge_threshold: Quantity,
    prices: Seq<PriceSlot>,
    now: i64,
    cosy_active: bool,
    auto_winter_active: bool,
) -> AgileChoice {
    match price {
        None => AgileChoice::Idle,
        Some(p) => if p.le(charge_threshold) && (scope is Full || scope is ChargeOnly) {
            if cosy_active || auto_winter_active {
                AgileChoice::Defer
            } else {
                match run_window(prices, now, PriceBand::UpTo(charge_threshold)) {
                    Some((from, to)) => AgileChoice::Charge { from, to },
                    None => AgileChoice::Idle,
                }
            }
        } else if discharge_threshold.le(p) && (scope is Full || scope is DischargeOnly) {
            match run_window(prices, now, PriceBand::From(discharge_threshold)) {
                Some((from, to)) => AgileChoice::Discharge { from, to },
                None => AgileChoice::Idle,
            }
        } else {
            AgileChoice::Idle
        },
    }
}

/// Decides what the automation wants, in instants.
pub fn evaluate_agile_choice(
    scope: AgileScope,
    price: Option<Quantity>,
    charge_threshold: Quantity,
    discharge_threshold: Quantity,
    cached_prices: &[PriceSlot],
    now_unix_ts: i64,
    cosy_active: bool,
    auto_winter_active: bool,
) -> (r: AgileChoice)
    ensures
        r == agile_choice(
            scope,
            price,
            charge_threshold,
            discharge_threshold,
            cached_prices@,
            now_unix_ts,
            cosy_active,
            auto_winter_active,
        ),
{
    let price: Quantity = match price {
        Some(p) => p,
        None => {
            return AgileChoice::Idle;
        },
    };
    if price.at_most(charge_threshold) && scope.owns_charge() {
        if cosy_active || auto_winter_active {
            return AgileChoice::Defer;
        }
        return match contiguous_run_window(
            cached_prices,
            now_unix_ts,
            PriceBand::UpTo(charge_threshold),
        ) {
            Some((from, to)) => AgileChoice::Charge { from, to },
            None => AgileChoice::Idle,
        };
    }
    if discharge_threshold.at_most(price) && scope.owns_discharge() {
        return match contiguous_run_window(
            cached_prices,
            now_unix_ts,
            PriceBand::From(discharge_threshold),
        ) {
            Some((from, to)) => AgileChoice::Discharge { from, to },
            None => AgileChoice::Idle,
        };
    }
    AgileChoice::Idle
}

/// The clock that the inverter's slots go by.
#[derive(Clone, Copy, Debug, PartialEq, Eq, Structural)]
pub enum SlotClock {
    /// The host's local time.
    HostLocal,
    /// A fixed offset east of UTC in seconds, less than a day either way.
    Offset(i32),
}

impl SlotClock {
    /// Whether the offset is less than a day.
    pub open spec fn valid(self) -> bool {
        match self {
            SlotClock::HostLocal => true,
            SlotClock::Offset(secs) => -86_400 < secs < 86_400,
        }
    }
}

/// The instant that stands for one: itself, or the epoch where it is beyond all
/// dates.
pub open spec fn dated(unix_ts: i64) -> i64 {
    if representable(unix_ts) {
        unix_ts
    } else {
        0
    }
}

/// Whether `packed` is the time of day of the instant on the clock, packed as
/// hours times 100 plus minutes. On the host's clock any time of day can be.
pub open spec fn shows(clock: SlotClock, unix_ts: i64, packed: u16) -> bool {
    match clock {
        SlotClock::Offset(secs) => packed == second_of_day(dated(unix_ts), secs) / 3600 * 100
            + second_of_day(dated(unix_ts), secs) % 3600 / 60,
        SlotClock::HostLocal => packed / 100 < 24 && packed % 100 < 60,
    }
}

/// The time of day of an instant, packed as hours times 100 plus minutes.
pub fn unix_to_hhmm(unix_ts: i64, clock: SlotClock) -> (r: u16)
    requires
        clock.valid(),
    ensures
        shows(clock, unix_ts, r),
{
    let read: Option<(u32, u32)> = match clock {
        SlotClock::HostLocal => host_clock(unix_ts),
        SlotClock::Offset(secs) => offset_clock(unix_ts, secs),
    };
    let read: Option<(u32, u32)> = match read {
        Some(time) => Some(time),
        None => match clock {
            SlotClock::HostLocal => host_clock(0),
            SlotClock::Offset(secs) => offset_clock(0, secs),
        },
    };
    match read {
        Some((hour, minute)) => packed_hhmm(hour, minute),
        None => 0,
    }
}

/// A clock time packed as hours times 100 plus minutes.
pub fn packed_hhmm(hour: u32, minute: u32) -> (r: u16)
    requires
        hour < 24,
        minute < 60,
    ensures
        r == hour * 100 + minute,
{
    hour as u16 * 100 + minute as u16
}

/// Whether `action` is the choice, its instants shown on the clock.
pub open spec fn carries_out(action: AgileSlotAction, choice: AgileChoice, clock: SlotClock) -> bool {
    match choice {
        AgileChoice::Charge { from, to } => match action {
            AgileSlotAction::Charge { start_hhmm, end_hhmm, target_soc } => shows(
                clock,
                from,
                start_hhmm,
            ) && shows(clock, to, end_hhmm) && target_soc == 100,
            _ => false,
        },
        AgileChoice::Discharge { from, to } => match action {
            AgileSlotAction::Discharge { start_hhmm, end_hhmm } => shows(clock, from, start_hhmm)
                && shows(clock, to, end_hhmm),
            _ => false,
        },
        AgileChoice::Defer => action is Defer,
        AgileChoice::Idle => action is Idle,
    }
}

/// Decides what the automation wants, with the slot times that the inverter
/// takes.
///
/// `cached_prices` is ordered newest first. A price at or below the charge
/// threshold charges, one at or above the discharge threshold discharges, for
/// as long as prices stay there without a gap.
pub fn evaluate_agile_slot(
    scope: AgileScope,
    price: Option<Quantity>,
    charge_threshold: Quantity,
    discharge_threshold: Quantity,
    cached_prices: &[PriceSlot],
    now_unix_ts: i64,
    cosy_active: bool,
    auto_winter_active: bool,
    clock: SlotClock,
) -> (r: AgileSlotAction)
    requires
        clock.valid(),
    ensures
        carries_out(
            r,
            agile_choice(
                scope,
                price,
                charge_threshold,
                discharge_threshold,
                cached_prices@,
                now_unix_ts,
                cosy_active,
                auto_winter_active,
            ),
            clock,
        ),
{
    match evaluate_agile_choice(
        scope,
        price,
        charge_threshold,
        discharge_threshold,
        cached_prices,
        now_unix_ts,
        cosy_active,
        auto_winter_active,
    ) {
        AgileChoice::Charge { from, to } => AgileSlotAction::Charge {
            start_hhmm: unix_to_hhmm(from, clock),
            end_hhmm: unix_to_hhmm(to, clock),
            target_soc: 100,
        },
        AgileChoice::Discharge { from, to } => AgileSlotAction::Discharge {
            start_hhmm: unix_to_hhmm(from, clock),
            end_hhmm: unix_to_hhmm(to, clock),
        },
        AgileChoice::Defer => AgileSlotAction::Defer,
        AgileChoice::Idle => AgileSlotAction::Idle,
    }
}

/// The automation stays within its scope and its thresholds: it charges only on
/// a price at or below the one, discharges only on a price at or above the
/// other, and defers only charging.
pub proof fn law_choice_stays_in_scope(
    scope: AgileScope,
    price: Option<Quantity>,
    charge_threshold: Quantity,
    discharge_threshold: Quantity,
    prices: Seq<PriceSlot>,
    now: i64,
    cosy_active: bool,
    auto_winter_active: bool,
)
    ensures
        ({
            let choice = agile_choice(
                scope,
                price,
                charge_threshold,
                discharge_threshold,
                prices,
                now,
                cosy_active,
                auto_winter_active,
            );
            &&& scope is Off || price is None ==> choice is Idle
            &&& choice is Charge ==> (scope is Full || scope is ChargeOnly) && price->0.le(
                charge_threshold,
            ) && !cosy_active && !auto_winter_active
            &&& choice is Defer ==> (scope is Full || scope is ChargeOnly) && price->0.le(
                charge_threshold,
            ) && (cosy_active || auto_winter_active)
            &&& choice is Discharge ==> (scope is Full || scope is DischargeOnly)
                && discharge_threshold.le(price->0)
        }),
{
}

/// Every slot of `prices` ends after it starts.
pub open spec fn well_formed(prices: Seq<PriceSlot>) -> bool {
    forall|i: int|
        0 <= i < prices.len() ==> (#[trigger] prices[i]).valid_from < prices[i].valid_to
}

proof fn lemma_run_end_grows(prices: Seq<PriceSlot>, index: int, end: i64, band: PriceBand)
    requires
        well_formed(prices),
        0 <= index <= prices.len(),
    ensures
        run_end(prices, index, end, band) >= end,
    decreases index,
{
    if index > 0 {
        let slot = prices[index - 1];
        if slot.valid_from == end && band.admits(slot.pence) {
            lemma_run_end_grows(prices, index - 1, slot.valid_to, band);
        }
    }
}

proof fn lemma_current_slot(prices: Seq<PriceSlot>, now: i64, from: int)
    requires
        0 <= from,
    ensures
        current_slot(prices, now, from) matches Some(i) ==> from <= i < prices.len()
            && slot_covers(prices[i], now),
    decreases prices.len() - from,
{
    if from < prices.len() && !slot_covers(prices[from], now) {
        lemma_current_slot(prices, now, from + 1);
    }
}

/// A run is under way at the instant it is asked for.
pub proof fn law_run_covers_now(prices: Seq<PriceSlot>, now: i64, band: PriceBand)
    requires
        well_formed(prices),
    ensures
        run_window(prices, now, band) matches Some((from, to)) ==> from <= now < to,
{
    lemma_current_slot(prices, now, 0);
    if let Some(i) = current_slot(prices, now, 0) {
        lemma_run_end_grows(prices, i, prices[i].valid_to, band);
    }
}

/// Whether the slots from `k` up to `index` continue a run that has reached
/// `end`: each is in the band and starts where the one behind it in the list
/// ends.
pub open spec fn continues(
    prices: Seq<PriceSlot>,
    k: int,
    index: int,
    end: i64,
    band: PriceBand,
) -> bool {
    forall|j: int|
        k <= j < index ==> band.admits((#[trigger] prices[j]).pence) && prices[j].valid_from == if j
            + 1 == index {
            end
        } else {
            prices[j + 1].valid_to
        }
}

/// Whether a run that has reached `end` goes on to the slot at `k` and no
/// further.
spec fn stops_at(prices: Seq<PriceSlot>, k: int, index: int, end: i64, band: PriceBand) -> bool {
    let last = if k == index {
        end
    } else {
        prices[k].valid_to
    };
    &&& 0 <= k <= index
    &&& continues(prices, k, index, end, band)
    &&& run_end(prices, index, end, band) == last
    &&& k == 0 || prices[k - 1].valid_from != last || !band.admits(prices[k - 1].pence)
}

proof fn lemma_run_stops(prices: Seq<PriceSlot>, index: int, end: i64, band: PriceBand) -> (k: int)
    requires
        0 <= index <= prices.len(),
    ensures
        stops_at(prices, k, index, end, band),
    decreases index,
{
    if index == 0 {
        0
    } else {
        let slot = prices[index - 1];
        if slot.valid_from == end && band.admits(slot.pence) {
            let k = lemma_run_stops(prices, index - 1, slot.valid_to, band);
            assert forall|j: int| k <= j < index implies band.admits((#[trigger] prices[j]).pence)
                && prices[j].valid_from == if j + 1 == index {
                end
            } else {
                prices[j + 1].valid_to
            } by {}
            k
        } else {
            index
        }
    }
}

/// A run is as long as it can be: it goes on over slots in the band that abut
/// each other, and stops only at the latest slot known, at a gap or at a price
/// outside the band.
pub proof fn law_run_is_maximal(prices: Seq<PriceSlot>, index: int, end: i64, band: PriceBand)
    requires
        0 <= index <= prices.len(),
    ensures
        exists|k: int|
            {
                &&& 0 <= k <= index
                &&& #[trigger] continues(prices, k, index, end, band)
                &&& run_end(prices, index, end, band) == if k == index {
                    end
                } else {
                    prices[k].valid_to
                }
                &&& k == 0 || prices[k - 1].valid_from != run_end(prices, index, end, band)
                    || !band.admits(prices[k - 1].pence)
            },
{
    let k = lemma_run_stops(prices, index, end, band);
    assert(continues(prices, k, index, end, band));
}

} // verus!
