//! What a timer does over a whole run of looks, proved from what it does at
//! a single one.

use vstd::prelude::*;
use crate::timer::{reachable, Duration, Instant, TimerView, Verdict};

verus! {

/// One look at a timer: when it was made, and whether the guarded operation
/// had moved forward.
pub struct Look {
    pub at: Instant,
    pub progressed: bool,
}

impl TimerView {
    /// The state after a run of looks, taken in order.
    pub open spec fn run(self, looks: Seq<Look>) -> TimerView
        decreases looks.len(),
    {
        if looks.len() == 0 {
            self
        } else {
            self.run(looks.drop_last()).observe(looks.last().at, looks.last().progressed)
        }
    }

    /// The verdict of look `i` of a run.
    pub open spec fn verdict_at(self, looks: Seq<Look>, i: int) -> Verdict {
        self.run(looks.take(i)).verdict(looks[i].at, looks[i].progressed)
    }
}

/// The instant at which a stalled operation began: that of the first look
/// of the run, or `now` where the look at `now` is itself the first.
pub open spec fn started(earlier: Seq<Look>, now: Instant) -> Instant {
    if earlier.len() == 0 {
        now
    } else {
        earlier[0].at
    }
}

/// Whether every look of a run found the operation pending and was made
/// before `deadline`.
pub open spec fn stalled_before(looks: Seq<Look>, deadline: int) -> bool {
    forall|j: int|
        0 <= j < looks.len() ==> !(#[trigger] looks[j]).progressed && looks[j].at < deadline
}

/// The look with which the stall that look `i` belongs to began: the first
/// of the unbroken row of looks without progress that ends at `i`.
pub open spec fn stall_start(looks: Seq<Look>, i: int) -> int
    decreases i,
{
    if i <= 0 || looks[i - 1].progressed {
        i
    } else {
        stall_start(looks, i - 1)
    }
}

/// Whether the operation trickles: every look that found it pending was
/// made less than `bound` after the look with which that stall began.
pub open spec fn trickles(looks: Seq<Look>, bound: Duration) -> bool {
    forall|i: int|
        0 <= i < looks.len() && !(#[trigger] looks[i]).progressed ==> looks[i].at
            < looks[stall_start(looks, i)].at + bound
}

/// Running one look more is observing it in the state that the looks before
/// it left.
proof fn lemma_run_unfolds(timer: TimerView, looks: Seq<Look>, k: int)
    requires
        0 <= k < looks.len(),
    ensures
        timer.run(looks.take(k + 1)) == timer.run(looks.take(k)).observe(
            looks[k].at,
            looks[k].progressed,
        ),
{
    let upto = looks.take(k + 1);
    assert(upto.drop_last() =~= looks.take(k));
    assert(upto.last() == looks[k]);
}

/// While a stalled operation has not reached its deadline, the timer stays
/// armed with the deadline of the first attempt.
proof fn lemma_stall_keeps_first_deadline(
    timer: TimerView,
    bound: Duration,
    looks: Seq<Look>,
    k: int,
)
    requires
        timer.timeout == Some(bound),
        !timer.is_armed(),
        1 <= k <= looks.len(),
        stalled_before(looks.take(k), looks[0].at + bound),
    ensures
        timer.run(looks.take(k)) == (TimerView {
            timeout: Some(bound),
            deadline: Some(looks[0].at + bound),
        }),
    decreases k,
{
    lemma_run_unfolds(timer, looks, k - 1);
    assert(looks.take(k)[k - 1] == looks[k - 1]);
    if k == 1 {
        assert(looks.take(0).len() == 0);
    } else {
        assert forall|j: int| 0 <= j < k - 1 implies !(#[trigger] looks.take(k - 1)[j]).progressed
            && looks.take(k - 1)[j].at < looks[0].at + bound by {
            assert(looks.take(k - 1)[j] == looks.take(k)[j]);
        }
        lemma_stall_keeps_first_deadline(timer, bound, looks, k - 1);
    }
}

/// An operation that makes no progress under a bound times out when the
/// bound has passed since its first attempt, and not before. Take a
/// disarmed timer with the bound `bound`, and a run of looks that all found
/// the operation pending before the bound had passed. Then a further look
/// at `now` that finds it pending is a timeout exactly if `now` is the
/// first attempt's instant plus `bound`, or later; before that the timer
/// waits, armed for that very instant. A bound of zero makes the first
/// attempt itself a timeout.
pub proof fn lemma_stall_times_out_at_deadline(
    timer: TimerView,
    bound: Duration,
    earlier: Seq<Look>,
    now: Instant,
)
    requires
        timer.timeout == Some(bound),
        !timer.is_armed(),
        stalled_before(earlier, started(earlier, now) + bound),
    ensures
        now >= started(earlier, now) + bound ==> {
            &&& timer.run(earlier).verdict(now, false) == Verdict::TimedOut
            &&& !timer.run(earlier).observe(now, false).is_armed()
        },
        now < started(earlier, now) + bound ==> {
            &&& timer.run(earlier).verdict(now, false) == Verdict::Waiting
            &&& timer.run(earlier).observe(now, false).wake_at() == reachable(
                started(earlier, now) + bound,
            )
        },
{
    if earlier.len() > 0 {
        assert(earlier.take(earlier.len() as int) =~= earlier);
        lemma_stall_keeps_first_deadline(timer, bound, earlier, earlier.len() as int);
    }
}

/// Progress always wins: a look that finds progress is never a timeout,
/// however late it comes, and it leaves the timer disarmed, so that the
/// bound of the next attempt is counted from that attempt.
pub proof fn lemma_progress_resets_the_clock(timer: TimerView, now: Instant, next: Instant)
    ensures
        timer.verdict(now, true) == Verdict::Progress,
        timer.observe(now, true) == timer.disarm(),
        timer.timeout matches Some(bound) ==> {
            let later = timer.observe(now, true);
            &&& bound > 0 ==> later.verdict(next, false) == Verdict::Waiting
            &&& bound > 0 ==> later.observe(next, false).deadline == Some(next + bound)
            &&& bound == 0 ==> later.verdict(next, false) == Verdict::TimedOut
        },
{
}

/// A timer fires only while its operation is pending, and only once its
/// deadline has been reached; having fired it is disarmed, so that it fires
/// once and the next attempt starts a new deadline.
pub proof fn lemma_fires_once_while_pending(timer: TimerView, now: Instant, progressed: bool)
    requires
        timer.verdict(now, progressed) == Verdict::TimedOut,
    ensures
        !progressed,
        timer.timeout is Some,
        timer.arm(now).deadline matches Some(deadline) && deadline <= now,
        !timer.observe(now, progressed).is_armed(),
        timer.observe(now, progressed).timeout == timer.timeout,
{
}

/// A pending deadline does not move: until it is reached, a look that
/// finds the operation pending leaves an armed timer exactly as it was. Only
/// progress, the deadline itself or a new bound end the armed cycle.
pub proof fn lemma_armed_deadline_stays(timer: TimerView, deadline: int, now: Instant)
    requires
        timer.timeout is Some,
        timer.deadline == Some(deadline),
        now < deadline,
    ensures
        timer.verdict(now, false) == Verdict::Waiting,
        timer.observe(now, false) == timer,
{
}

/// What the timer holds after `k` looks of a run that trickles.
spec fn trickle_state(bound: Duration, looks: Seq<Look>, k: int) -> TimerView {
    TimerView {
        timeout: Some(bound),
        deadline: if k <= 0 || looks[k - 1].progressed {
            None
        } else {
            Some(looks[stall_start(looks, k - 1)].at + bound)
        },
    }
}

proof fn lemma_stall_start_in_range(looks: Seq<Look>, i: int)
    requires
        0 <= i < looks.len(),
    ensures
        0 <= stall_start(looks, i) <= i,
    decreases i,
{
    if !(i <= 0 || looks[i - 1].progressed) {
        lemma_stall_start_in_range(looks, i - 1);
    }
}

proof fn lemma_trickle_state(timer: TimerView, bound: Duration, looks: Seq<Look>, k: int)
    requires
        timer.timeout == Some(bound),
        !timer.is_armed(),
        0 <= k <= looks.len(),
        trickles(looks, bound),
    ensures
        timer.run(looks.take(k)) == trickle_state(bound, looks, k),
        k < looks.len() ==> timer.verdict_at(looks, k) != Verdict::TimedOut,
    decreases k,
{
    if k == 0 {
        assert(looks.take(0).len() == 0);
    } else {
        lemma_trickle_state(timer, bound, looks, k - 1);
        lemma_run_unfolds(timer, looks, k - 1);
        lemma_stall_start_in_range(looks, k - 1);
        assert(looks[k - 1].progressed || looks[k - 1].at < looks[stall_start(looks, k - 1)].at
            + bound);
    }
    if k < looks.len() {
        lemma_stall_start_in_range(looks, k);
        assert(looks[k].progressed || looks[k].at < looks[stall_start(looks, k)].at + bound);
    }
}

/// An operation that trickles never times out: under a timer that starts
/// disarmed with the bound `bound`, no look of a run that trickles is a
/// timeout.
pub proof fn lemma_trickle_never_times_out(timer: TimerView, bound: Duration, looks: Seq<Look>)
    requires
        timer.timeout == Some(bound),
        !timer.is_armed(),
        trickles(looks, bound),
    ensures
        forall|i: int| 0 <= i < looks.len() ==> timer.verdict_at(looks, i) != Verdict::TimedOut,
{
    assert forall|i: int| 0 <= i < looks.len() implies timer.verdict_at(looks, i)
        != Verdict::TimedOut by {
        lemma_trickle_state(timer, bound, looks, i);
    }
}

proof fn lemma_unset_stays_unset(timer: TimerView, looks: Seq<Look>, k: int)
    requires
        timer.timeout is None,
        !timer.is_armed(),
        0 <= k <= looks.len(),
    ensures
        timer.run(looks.take(k)) == timer,
    decreases k,
{
    if k == 0 {
        assert(looks.take(0).len() == 0);
    } else {
        lemma_unset_stays_unset(timer, looks, k - 1);
        lemma_run_unfolds(timer, looks, k - 1);
    }
}

/// Taking the bound away disarms the timer at once, and from then on no
/// look is a timeout, however long the operation stays pending.
pub proof fn lemma_no_limit_never_times_out(timer: TimerView, looks: Seq<Look>)
    ensures
        !timer.with_timeout(None).is_armed(),
        timer.with_timeout(None).run(looks) == timer.with_timeout(None),
        forall|i: int|
            0 <= i < looks.len() ==> timer.with_timeout(None).verdict_at(looks, i)
                != Verdict::TimedOut,
{
    let unset = timer.with_timeout(None);
    lemma_unset_stays_unset(unset, looks, looks.len() as int);
    assert(looks.take(looks.len() as int) =~= looks);
    assert forall|i: int| 0 <= i < looks.len() implies unset.verdict_at(looks, i)
        != Verdict::TimedOut by {
        lemma_unset_stays_unset(unset, looks, i);
    }
}

} // verus!
