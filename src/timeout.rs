use vstd::prelude::*;
use std::time::Instant;

verus! {

/// std's `Instant`, a moment of a monotonic clock, carried through opaque.
#[verifier::external_type_specification]
#[verifier::external_body]
pub struct ExInstant(Instant);

/// Relies on std's `Instant::now`: the current moment of a monotonic clock.
/// Nothing is claimed of it.
#[verifier::external_body]
fn now() -> Instant {
    Instant::now()
}

/// Relies on std's `Instant::elapsed`: the time passed since `start`, here
/// in nanoseconds. Nothing is claimed of it.
#[verifier::external_body]
fn nanos_since(start: &Instant) -> u128 {
    start.elapsed().as_nanos()
}

/// What is left of `budget` nanoseconds once `spent` have passed, never
/// below zero; no budget stands for an unbounded wait.
pub open spec fn leftover_after(budget: Option<u128>, spent: u128) -> Option<u128> {
    match budget {
        None => None,
        Some(t) => Some(if spent >= t { 0 } else { (t - spent) as u128 }),
    }
}

/// Whether `budget` is used up once `spent` nanoseconds have passed.
pub open spec fn used_up(budget: Option<u128>, spent: u128) -> bool {
    match budget {
        None => false,
        Some(t) => spent >= t,
    }
}

/// A wait budget, in nanoseconds, that runs from the moment it was made.
pub struct PollTimeout {
    budget: Option<u128>,
    start: Instant,
}

impl PollTimeout {
    /// The whole budget, or none for an unbounded wait.
    pub closed spec fn budget(&self) -> Option<u128> {
        self.budget
    }

    /// A budget of `timeout` nanoseconds that starts now; `None` never runs out.
    pub fn new(timeout: Option<u128>) -> (r: PollTimeout)
        ensures
            r.budget() == timeout,
    {
        PollTimeout { budget: timeout, start: now() }
    }

    /// Whether the budget is used up once `spent` nanoseconds have passed.
    pub fn elapsed_at(&self, spent: u128) -> (r: bool)
        ensures
            r == used_up(self.budget(), spent),
    {
        match self.budget {
            None => false,
            Some(t) => spent >= t,
        }
    }

    /// What is left of the budget once `spent` nanoseconds have passed.
    pub fn leftover_at(&self, spent: u128) -> (r: Option<u128>)
        ensures
            r == leftover_after(self.budget(), spent),
    {
        match self.budget {
            None => None,
            Some(t) => Some(if spent >= t { 0 } else { t - spent }),
        }
    }

    /// Whether the budget is used up now.
    pub fn elapsed(&self) -> (r: bool)
        ensures
            exists|spent: u128| r == used_up(self.budget(), spent),
            self.budget() is None ==> !r,
    {
        let spent = nanos_since(&self.start);
        self.elapsed_at(spent)
    }

    /// What is left of the budget now: none for an unbounded one, else at
    /// most the whole budget.
    pub fn leftover(&self) -> (r: Option<u128>)
        ensures
            exists|spent: u128| r == leftover_after(self.budget(), spent),
            r is None <==> self.budget() is None,
            r matches Some(l) ==> self.budget() matches Some(t) && l <= t,
    {
        let spent = nanos_since(&self.start);
        self.leftover_at(spent)
    }
}

/// A wait granted what is left of a budget ends by the budget's deadline:
/// after `spent` nanoseconds, waiting the leftover brings the total to the
/// budget, or adds nothing once the budget is used up.
pub proof fn lemma_leftover_wait_ends_by_deadline(t: u128, spent: u128)
    ensures
        leftover_after(Some(t), spent) matches Some(l) && spent + l == if spent >= t {
            spent as int
        } else {
            t as int
        },
{
}

/// Budgets chain: when a wait of `first` nanoseconds is taken out of a budget
/// of `t`, and what is left becomes the budget of a second stage that runs
/// `second` nanoseconds before it waits what is left to it, the whole takes no
/// longer than `t`, or than the time already spent when that is more.
pub proof fn lemma_chained_budget_within_total(t: u128, first: u128, second: u128)
    ensures
        ({
            let inner = leftover_after(Some(t), first);
            let last = leftover_after(inner, second);
            last matches Some(l) && first + second + l <= if first + second >= t {
                first + second
            } else {
                t as int
            }
        }),
{
}

} // verus!
