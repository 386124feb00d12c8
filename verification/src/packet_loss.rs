//! Decisions of a lossy link. Loss happens in bursts: the link alternates between periods in
//! which it drops every packet and periods in which it forwards every packet. The length of each
//! period is drawn at random when the period starts (by the caller, who holds the random source);
//! times are nanoseconds from an origin the caller chooses.

use vstd::prelude::*;

verus! {

/// Which kind of period a lossy link is in.
#[derive(Clone, Copy, Debug, PartialEq, Eq, Structural)]
pub enum Period {
    /// Every packet is dropped.
    Losing,
    /// Every packet is forwarded.
    Keeping,
}

/// The loss state of a link: the current period and when it ends.
#[derive(Clone, Copy, Debug, PartialEq, Eq, Structural)]
pub struct LossState {
    /// Whether packets are being dropped.
    pub currently_losing: bool,
    /// When the current period ends, in nanoseconds.
    pub toggle_at: u64,
}

/// The kind of a period in which the link drops packets (`losing`) or not.
pub fn period_kind(losing: bool) -> (r: Period)
    ensures
        r is Losing <==> losing,
{
    if losing {
        Period::Losing
    } else {
        Period::Keeping
    }
}

impl LossState {
    /// The state of a link that starts in a loss period (or not) at `now`, for `period`
    /// nanoseconds.
    pub fn new(currently_losing: bool, now: u64, period: u64) -> (r: LossState)
        requires
            now + period <= u64::MAX,
        ensures
            r.currently_losing == currently_losing,
            r.toggle_at == now + period,
    {
        LossState { currently_losing, toggle_at: now + period }
    }

    /// The kind of the period that starts at the next toggle, whose length the caller draws.
    pub fn next_period(&self) -> (r: Period)
        ensures
            r is Losing <==> !self.currently_losing,
    {
        period_kind(!self.currently_losing)
    }

    /// Whether the current period ended before `now`.
    pub fn needs_toggle(&self, now: u64) -> (r: bool)
        ensures
            r == (self.toggle_at < now),
    {
        self.toggle_at < now
    }

    /// Starts the next period, of `period` nanoseconds, right where the current one ended.
    pub fn toggle(&mut self, period: u64)
        requires
            old(self).toggle_at + period <= u64::MAX,
        ensures
            final(self).currently_losing == !old(self).currently_losing,
            final(self).toggle_at == old(self).toggle_at + period,
    {
        self.currently_losing = !self.currently_losing;
        self.toggle_at = self.toggle_at + period;
    }

    /// Whether a packet arriving now is forwarded to the other end.
    pub fn forwards(&self) -> (r: bool)
        ensures
            r == !self.currently_losing,
    {
        !self.currently_losing
    }
}

/// Whether the link stops: only once both of its ends are unplugged.
pub fn link_finished(a_unplugged: bool, b_unplugged: bool) -> (r: bool)
    ensures
        r == (a_unplugged && b_unplugged),
{
    a_unplugged && b_unplugged
}

/// The state after starting the periods `periods` one after another.
pub open spec fn after_periods(s: LossState, periods: Seq<u64>) -> LossState
    decreases periods.len(),
{
    if periods.len() == 0 {
        s
    } else {
        after_periods(
            LossState {
                currently_losing: !s.currently_losing,
                toggle_at: (s.toggle_at + periods[0]) as u64,
            },
            periods.drop_first(),
        )
    }
}

/// The sum of `periods`.
pub open spec fn total(periods: Seq<u64>) -> int
    decreases periods.len(),
{
    if periods.len() == 0 {
        0
    } else {
        periods[0] + total(periods.drop_first())
    }
}

/// Periods alternate: after `k` periods the link drops packets exactly when it did before and
/// `k` is even, or it did not and `k` is odd; and the current period ends after all of them.
pub proof fn lemma_periods_alternate(s: LossState, periods: Seq<u64>)
    requires
        s.toggle_at + total(periods) <= u64::MAX,
    ensures
        after_periods(s, periods).currently_losing == (s.currently_losing == (periods.len() % 2
            == 0)),
        after_periods(s, periods).toggle_at == s.toggle_at + total(periods),
    decreases periods.len(),
{
    if periods.len() > 0 {
        let rest = periods.drop_first();
        assert(total(periods) == periods[0] + total(rest));
        assert(total(rest) >= 0) by {
            lemma_total_nonneg(rest);
        }
        lemma_periods_alternate(
            LossState {
                currently_losing: !s.currently_losing,
                toggle_at: (s.toggle_at + periods[0]) as u64,
            },
            rest,
        );
    }
}

/// A sum of periods is never negative.
proof fn lemma_total_nonneg(periods: Seq<u64>)
    ensures
        total(periods) >= 0,
    decreases periods.len(),
{
    if periods.len() > 0 {
        lemma_total_nonneg(periods.drop_first());
    }
}

} // verus!
