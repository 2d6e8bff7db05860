//! Which automation owns the discharge-control registers this poll.
use vstd::prelude::*;

verus! {

/// An owner of the shared discharge-control registers, from the lowest priority
/// to the highest.
#[derive(Clone, Copy, Debug, PartialEq, Eq, PartialOrd, Ord, Structural)]
pub enum DischargeControlOwner {
    /// Price-driven automation.
    Agile,
    /// Scheduled charging.
    TimedCharge,
    /// The export schedule.
    TimedExport,
    /// A mode that the user selected.
    ManualMode,
    /// A discharge pause that the user set.
    ExplicitPause,
    /// Charging or discharging forced by the user, which may lift a pause.
    ManualForce,
    /// Protection of the hardware.
    Safety,
}

impl DischargeControlOwner {
    /// The priority of the owner.
    pub open spec fn rank(self) -> int {
        match self {
            DischargeControlOwner::Agile => 0,
            DischargeControlOwner::TimedCharge => 1,
            DischargeControlOwner::TimedExport => 2,
            DischargeControlOwner::ManualMode => 3,
            DischargeControlOwner::ExplicitPause => 4,
            DischargeControlOwner::ManualForce => 5,
            DischargeControlOwner::Safety => 6,
        }
    }

    fn priority(self) -> (r: u8)
        ensures
            r == self.rank(),
    {
        match self {
            DischargeControlOwner::Agile => 0,
            DischargeControlOwner::TimedCharge => 1,
            DischargeControlOwner::TimedExport => 2,
            DischargeControlOwner::ManualMode => 3,
            DischargeControlOwner::ExplicitPause => 4,
            DischargeControlOwner::ManualForce => 5,
            DischargeControlOwner::Safety => 6,
        }
    }
}

/// Selects one owner per poll: the highest priority that asks.
#[derive(Clone, Copy, Debug, PartialEq, Eq, Structural)]
pub struct DischargeControlArbiter {
    selected: Option<DischargeControlOwner>,
}

/// Whether an owner may write beside the one selected so far.
pub open spec fn admits(
    selected: Option<DischargeControlOwner>,
    owner: DischargeControlOwner,
) -> bool {
    match selected {
        None => true,
        Some(current) => owner.rank() >= current.rank(),
    }
}

impl View for DischargeControlArbiter {
    type V = Option<DischargeControlOwner>;

    closed spec fn view(&self) -> Option<DischargeControlOwner> {
        self.selected
    }
}

impl Default for DischargeControlArbiter {
    fn default() -> (r: DischargeControlArbiter)
        ensures
            r@ is None,
    {
        DischargeControlArbiter { selected: None }
    }
}

impl DischargeControlArbiter {
    /// Asks for the registers on behalf of an owner. Returns whether it may
    /// write; if so, it is the one selected now.
    pub fn request(&mut self, owner: DischargeControlOwner) -> (r: bool)
        ensures
            r == admits(old(self)@, owner),
            final(self)@ == if r {
                Some(owner)
            } else {
                old(self)@
            },
    {
        if self.can_request(owner) {
            self.selected = Some(owner);
            true
        } else {
            false
        }
    }

    /// The owner selected so far.
    pub fn selected_owner(self) -> (r: Option<DischargeControlOwner>)
        ensures
            r == self@,
    {
        self.selected
    }

    /// Whether a request of the owner would be granted.
    pub fn can_request(self, owner: DischargeControlOwner) -> (r: bool)
        ensures
            r == admits(self@, owner),
    {
        match self.selected {
            None => true,
            Some(current) => owner.priority() >= current.priority(),
        }
    }
}

/// The owner selected after a sequence of requests.
pub open spec fn selected_after(requests: Seq<DischargeControlOwner>) -> Option<
    DischargeControlOwner,
>
    decreases requests.len(),
{
    if requests.len() == 0 {
        None
    } else {
        let before = selected_after(requests.drop_last());
        if admits(before, requests.last()) {
            Some(requests.last())
        } else {
            before
        }
    }
}

/// Whatever the order of the requests, the owner selected is one that asked and
/// none that asked outranks it.
pub proof fn law_highest_request_wins(requests: Seq<DischargeControlOwner>)
    requires
        requests.len() > 0,
    ensures
        selected_after(requests) is Some,
        requests.contains(selected_after(requests)->0),
        forall|i: int|
            0 <= i < requests.len() ==> (#[trigger] requests[i]).rank() <= selected_after(
                requests,
            )->0.rank(),
    decreases requests.len(),
{
    let rest = requests.drop_last();
    let last = requests.last();
    assert(requests[requests.len() - 1] == last);
    if rest.len() > 0 {
        law_highest_request_wins(rest);
        assert(rest.contains(selected_after(rest)->0));
        let k = choose|k: int| 0 <= k < rest.len() && rest[k] == selected_after(rest)->0;
        assert(requests[k] == selected_after(rest)->0);
        assert forall|i: int| 0 <= i < requests.len() implies (#[trigger] requests[i]).rank()
            <= selected_after(requests)->0.rank() by {
            if i < rest.len() {
                assert(rest[i] == requests[i]);
            }
        }
    }
}

} // verus!
