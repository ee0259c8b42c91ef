//! What a wrapped channel does over a whole history of attempts in both
//! directions.

use vstd::prelude::*;
use crate::poll::{Outcome, Polled};
use crate::stream::{Direction, StreamView};
use crate::timer::{reachable, Duration, Instant, Verdict};
use crate::trace::{
    lemma_no_limit_never_times_out, lemma_stall_times_out_at_deadline,
    lemma_trickle_never_times_out, stalled_before, started, trickles, Look,
};

verus! {

/// One attempt on a wrapped channel: its direction, when it was made, and
/// whether the inner channel moved forward. A flush is an attempt in the
/// write direction.
pub struct Attempt {
    pub direction: Direction,
    pub at: Instant,
    pub progressed: bool,
}

/// The looks that a history gave the timer of `direction`: its attempts in
/// that direction, in order.
pub open spec fn looks(history: Seq<Attempt>, direction: Direction) -> Seq<Look>
    decreases history.len(),
{
    if history.len() == 0 {
        Seq::empty()
    } else if history.last().direction == direction {
        looks(history.drop_last(), direction).push(
            Look { at: history.last().at, progressed: history.last().progressed },
        )
    } else {
        looks(history.drop_last(), direction)
    }
}

impl<S> StreamView<S> {
    /// The state after a history of attempts in both directions,
    /// interleaved in any way.
    pub open spec fn run(self, history: Seq<Attempt>) -> StreamView<S>
        decreases history.len(),
    {
        if history.len() == 0 {
            self
        } else {
            self.run(history.drop_last()).after(
                history.last().direction,
                history.last().at,
                history.last().progressed,
            )
        }
    }
}

/// The two directions do not see each other. After any history each timer
/// is where it would be had the attempts of the other direction never been
/// made, and the inner channel is the one that was wrapped.
pub proof fn lemma_directions_are_independent<S>(
    stream: StreamView<S>,
    history: Seq<Attempt>,
    direction: Direction,
)
    ensures
        stream.run(history).timer(direction) == stream.timer(direction).run(
            looks(history, direction),
        ),
        stream.run(history).inner == stream.inner,
    decreases history.len(),
{
    if history.len() > 0 {
        let before = history.drop_last();
        lemma_directions_are_independent(stream, before, direction);
        if history.last().direction == direction {
            let look = Look { at: history.last().at, progressed: history.last().progressed };
            let all = looks(before, direction).push(look);
            assert(all.drop_last() =~= looks(before, direction));
            assert(all.last() == look);
        }
    }
}

/// An attempt is decided by the earlier attempts of its own direction
/// alone. Two histories that agree on one direction give every further
/// attempt in that direction the same outcome and leave its timer in the
/// same state, whatever happened in the other direction: a write that
/// stalls for ever takes nothing from a read, nor a read from a write.
pub proof fn lemma_other_direction_is_ignored<S, T, E>(
    stream: StreamView<S>,
    direction: Direction,
    one: Seq<Attempt>,
    other: Seq<Attempt>,
    now: Instant,
    polled: Polled<T, E>,
)
    requires
        looks(one, direction) == looks(other, direction),
    ensures
        stream.run(one).outcome(direction, now, polled)
            == stream.run(other).outcome(direction, now, polled),
        stream.run(one).after(direction, now, polled.progressed()).timer(direction)
            == stream.run(other).after(direction, now, polled.progressed()).timer(direction),
{
    lemma_directions_are_independent(stream, one, direction);
    lemma_directions_are_independent(stream, other, direction);
}

/// An operation that makes no progress under a bound fails with the
/// timeout of its direction when the bound has passed since its first
/// attempt, and not before. Take a channel whose timer for `direction` is
/// disarmed and has the bound `bound`, and a history whose attempts in that
/// direction all found the channel pending before the bound had passed.
/// Then a further attempt at `now` that finds it pending fails with the
/// timeout exactly if `now` is the first attempt's instant plus `bound`, or
/// later; before that it stays pending, to be woken at that very instant.
/// Where the attempt at `now` is itself the first, it fails exactly if the
/// bound is zero.
pub proof fn lemma_stalled_operation_times_out<S, T, E>(
    stream: StreamView<S>,
    direction: Direction,
    bound: Duration,
    history: Seq<Attempt>,
    now: Instant,
)
    requires
        stream.timer(direction).timeout == Some(bound),
        !stream.timer(direction).is_armed(),
        stalled_before(
            looks(history, direction),
            started(looks(history, direction), now) + bound,
        ),
    ensures
        ({
            let deadline = started(looks(history, direction), now) + bound;
            let outcome = stream.run(history).outcome(direction, now, Polled::<T, E>::Pending);
            &&& now >= deadline ==> outcome == Outcome::<T, E>::Failed(direction.timeout_error())
            &&& now < deadline ==> outcome == Outcome::<T, E>::Pending {
                wake_at: reachable(deadline),
            }
        }),
{
    lemma_directions_are_independent(stream, history, direction);
    lemma_stall_times_out_at_deadline(
        stream.timer(direction),
        bound,
        looks(history, direction),
        now,
    );
}

/// Progress always wins, and it resets the idle clock. Whatever the
/// history and however late the hour, an attempt to which the inner channel
/// delivered something hands that on, and an attempt on which it failed
/// hands the failure on; neither is ever a timeout. Afterwards the timer is
/// disarmed, so that the next attempt has the whole bound again.
pub proof fn lemma_progress_is_never_a_timeout<S, T, E>(
    stream: StreamView<S>,
    direction: Direction,
    history: Seq<Attempt>,
    now: Instant,
    polled: Polled<T, E>,
)
    requires
        polled.progressed(),
    ensures
        stream.run(history).outcome(direction, now, polled) == Outcome::<T, E>::forwarded(polled),
        !stream.run(history).after(direction, now, true).timer(direction).is_armed(),
        stream.run(history).after(direction, now, true).timer(direction).timeout
            == stream.run(history).timer(direction).timeout,
{
}

/// The looks of a prefix of a history are a prefix of its looks, and an
/// attempt in the direction is the look that follows them.
proof fn lemma_looks_of_prefix(history: Seq<Attempt>, direction: Direction, i: int)
    requires
        0 <= i <= history.len(),
    ensures
        looks(history.take(i), direction).len() <= looks(history, direction).len(),
        looks(history, direction).take(looks(history.take(i), direction).len() as int)
            == looks(history.take(i), direction),
        i < history.len() && history[i].direction == direction ==> {
            let k = looks(history.take(i), direction).len() as int;
            &&& k < looks(history, direction).len()
            &&& looks(history, direction)[k].at == history[i].at
            &&& looks(history, direction)[k].progressed == history[i].progressed
        },
    decreases history.len() - i,
{
    let all = looks(history, direction);
    if i == history.len() {
        assert(history.take(i) =~= history);
        assert(all.take(all.len() as int) =~= all);
    } else {
        lemma_looks_of_prefix(history, direction, i + 1);
        let next = history.take(i + 1);
        assert(next.drop_last() =~= history.take(i));
        assert(next.last() == history[i]);
        let upto = looks(next, direction);
        let before = looks(history.take(i), direction);
        let k = before.len() as int;
        if history[i].direction == direction {
            assert(upto == before.push(
                Look { at: history[i].at, progressed: history[i].progressed },
            ));
            assert(all.take(k) =~= all.take(upto.len() as int).take(k));
            assert(upto.take(k) =~= before);
            assert(all[k] == all.take(upto.len() as int)[k]);
        } else {
            assert(upto == before);
        }
    }
}

/// A channel that trickles never times out. Take a channel whose timer for
/// `direction` is disarmed and has the bound `bound`, and a history that
/// trickles in that direction: every attempt that found the channel
/// pending was made less than `bound` after the attempt with which that
/// stall began. Then no attempt of the history in that direction came to
/// the timeout.
pub proof fn lemma_trickling_channel_never_times_out<S, T, E>(
    stream: StreamView<S>,
    direction: Direction,
    bound: Duration,
    history: Seq<Attempt>,
    i: int,
    polled: Polled<T, E>,
)
    requires
        stream.timer(direction).timeout == Some(bound),
        !stream.timer(direction).is_armed(),
        trickles(looks(history, direction), bound),
        0 <= i < history.len(),
        history[i].direction == direction,
        history[i].progressed == polled.progressed(),
    ensures
        stream.run(history.take(i)).outcome(direction, history[i].at, polled)
            != Outcome::<T, E>::Failed(direction.timeout_error()),
{
    let all = looks(history, direction);
    let k = looks(history.take(i), direction).len() as int;
    lemma_looks_of_prefix(history, direction, i);
    lemma_directions_are_independent(stream, history.take(i), direction);
    lemma_trickle_never_times_out(stream.timer(direction), bound, all);
    assert(stream.timer(direction).verdict_at(all, k) != Verdict::TimedOut);
}

/// With no limit nothing ever times out. Taking the bound of a direction
/// away disarms its timer at once; from then on a pending attempt in that
/// direction stays pending with no wake-up of this layer, whatever the
/// history since and however late the hour.
pub proof fn lemma_no_limit_means_no_timeout<S, T, E>(
    stream: StreamView<S>,
    direction: Direction,
    history: Seq<Attempt>,
    now: Instant,
)
    ensures
        ({
            let unbounded = stream.with_timer(
                direction,
                stream.timer(direction).with_timeout(None),
            );
            &&& !unbounded.timer(direction).is_armed()
            &&& unbounded.run(history).timer(direction) == unbounded.timer(direction)
            &&& unbounded.run(history).outcome(direction, now, Polled::<T, E>::Pending)
                == Outcome::<T, E>::Pending { wake_at: None }
        }),
{
    let unbounded = stream.with_timer(direction, stream.timer(direction).with_timeout(None));
    lemma_directions_are_independent(unbounded, history, direction);
    lemma_no_limit_never_times_out(stream.timer(direction), looks(history, direction));
}

} // verus!
