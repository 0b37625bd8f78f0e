//! The order in which a run of registrations is carried out.
//!
//! Adding a set of factors to a linker, or adding the host interfaces of a
//! factor to a linker, registers items one after the other in a fixed order
//! and stops at the first registration that fails. The registrations
//! themselves are done by the caller; a [`LinkPlan`] says which one comes
//! next and how the run ends.
use vstd::prelude::*;

verus! {

/// What a run of registrations does next.
#[derive(Clone, Copy, Debug, PartialEq, Eq, Structural)]
pub enum LinkStep {
    /// Register the item at this position.
    Register(usize),
    /// Every item was registered.
    Done,
    /// The registration of the item at this position failed; the run is over.
    Failed(usize),
}

/// The step that comes after `next` items were registered out of `total`,
/// where `failed` is the position whose registration failed, if one did.
pub open spec fn step_of(total: nat, next: nat, failed: Option<nat>) -> LinkStep {
    match failed {
        Some(k) => LinkStep::Failed(k as usize),
        None => if next < total {
            LinkStep::Register(next as usize)
        } else {
            LinkStep::Done
        },
    }
}

/// The progress `(next, failed)` of a run over `total` items once the
/// registrations it asked for had the outcomes `outcomes`, in order;
/// outcomes given after the run ended change nothing.
pub open spec fn drive(total: nat, outcomes: Seq<bool>) -> (nat, Option<nat>)
    decreases outcomes.len(),
{
    if outcomes.len() == 0 {
        (0, None)
    } else {
        let (next, failed) = drive(total, outcomes.drop_last());
        if failed is None && next < total {
            if outcomes.last() {
                (next + 1, None)
            } else {
                (next, Some(next))
            }
        } else {
            (next, failed)
        }
    }
}

/// The first position of `outcomes` that holds a failure, or the length of
/// `outcomes` when none does.
pub open spec fn first_failure(outcomes: Seq<bool>) -> nat
    decreases outcomes.len(),
{
    if outcomes.len() == 0 {
        0
    } else {
        let earlier = first_failure(outcomes.drop_last());
        if earlier < outcomes.len() - 1 {
            earlier
        } else if outcomes.last() {
            outcomes.len()
        } else {
            (outcomes.len() - 1) as nat
        }
    }
}

/// The progress of a run of registrations.
pub struct LinkPlan {
    total: usize,
    next: usize,
    failed: Option<usize>,
}

impl LinkPlan {
    #[verifier::type_invariant]
    spec fn progress_in_range(self) -> bool {
        &&& self.next <= self.total
        &&& self.failed matches Some(k) ==> k == self.next && k < self.total
    }

    /// The number of items of the run.
    pub closed spec fn total(&self) -> nat {
        self.total as nat
    }

    /// The number of items registered so far.
    pub closed spec fn next(&self) -> nat {
        self.next as nat
    }

    /// The position whose registration failed, if one did.
    pub closed spec fn failed(&self) -> Option<nat> {
        match self.failed {
            Some(k) => Some(k as nat),
            None => None,
        }
    }

    /// A run over `total` items, none registered yet.
    pub fn new(total: usize) -> (r: LinkPlan)
        ensures
            r.total() == total,
            r.next() == 0,
            r.failed() is None,
    {
        LinkPlan { total, next: 0, failed: None }
    }

    /// What the run does next.
    pub fn step(&self) -> (r: LinkStep)
        ensures
            r == step_of(self.total(), self.next(), self.failed()),
            self.failed() matches Some(k) ==> r == LinkStep::Failed(k as usize),
            self.failed() is None && self.next() < self.total() ==> r == LinkStep::Register(
                self.next() as usize,
            ),
            self.failed() is None && self.next() >= self.total() ==> r == LinkStep::Done,
    {
        match self.failed {
            Some(k) => LinkStep::Failed(k),
            None => if self.next < self.total {
                LinkStep::Register(self.next)
            } else {
                LinkStep::Done
            },
        }
    }

    /// Records the outcome of the registration that the run asked for.
    pub fn record(&mut self, succeeded: bool)
        requires
            step_of(old(self).total(), old(self).next(), old(self).failed()) is Register,
        ensures
            final(self).total() == old(self).total(),
            succeeded ==> final(self).next() == old(self).next() + 1 && final(self).failed() is None,
            !succeeded ==> final(self).next() == old(self).next() && final(self).failed() == Some(
                old(self).next(),
            ),
    {
        proof {
            use_type_invariant(&*self);
        }
        if succeeded {
            self.next = self.next + 1;
        } else {
            self.failed = Some(self.next);
        }
    }
}

/// A run of registrations goes through the items in order and ends at the
/// first failure: once the registrations it asked for had the outcomes
/// `outcomes`, the run has failed at the first failing position when that
/// position is within its items, and otherwise has registered as many
/// items as there were outcomes, up to all of them.
pub proof fn link_plan_stops_at_first_failure(total: nat, outcomes: Seq<bool>)
    ensures
        first_failure(outcomes) < outcomes.len() && first_failure(outcomes) < total ==> drive(
            total,
            outcomes,
        ) == (first_failure(outcomes), Some(first_failure(outcomes))),
        !(first_failure(outcomes) < outcomes.len() && first_failure(outcomes) < total) ==> drive(
            total,
            outcomes,
        ) == (if outcomes.len() < total {
            outcomes.len()
        } else {
            total
        }, None::<nat>),
    decreases outcomes.len(),
{
    lemma_first_failure_bound(outcomes);
    if outcomes.len() > 0 {
        let rest = outcomes.drop_last();
        link_plan_stops_at_first_failure(total, rest);
        lemma_first_failure_bound(rest);
    }
}

/// A run ends with the failure of the first registration that fails,
/// wherever that registration stands (the last one included): once the
/// registrations asked for had the outcomes `outcomes`, the next step is
/// `Failed` at the first failing position when that position is within the
/// items; otherwise it asks for the next item while some are left, and is
/// `Done` once every item was registered.
pub proof fn link_plan_reports_first_failure(total: nat, outcomes: Seq<bool>)
    ensures
        first_failure(outcomes) < outcomes.len() && first_failure(outcomes) < total ==> step_of(
            total,
            drive(total, outcomes).0,
            drive(total, outcomes).1,
        ) == LinkStep::Failed(first_failure(outcomes) as usize),
        !(first_failure(outcomes) < outcomes.len() && first_failure(outcomes) < total)
            && outcomes.len() < total ==> step_of(total, drive(total, outcomes).0, drive(total, outcomes).1)
            == LinkStep::Register(outcomes.len() as usize),
        !(first_failure(outcomes) < outcomes.len() && first_failure(outcomes) < total)
            && outcomes.len() >= total ==> step_of(total, drive(total, outcomes).0, drive(total, outcomes).1)
            == LinkStep::Done,
{
    link_plan_stops_at_first_failure(total, outcomes);
}

/// Recording a failed registration ends the run there: whatever position
/// failed, the last one included, the step that follows is `Failed` at that
/// position.
pub proof fn link_plan_failure_is_reported(total: nat, next: nat)
    requires
        next < total,
    ensures
        step_of(total, next, None) == LinkStep::Register(next as usize),
        step_of(total, next, Some(next)) == LinkStep::Failed(next as usize),
{
}

proof fn lemma_first_failure_bound(outcomes: Seq<bool>)
    ensures
        first_failure(outcomes) <= outcomes.len(),
    decreases outcomes.len(),
{
    if outcomes.len() > 0 {
        lemma_first_failure_bound(outcomes.drop_last());
    }
}

} // verus!
