//! What holds of every run of a worker, over the model of its mailbox.
use vstd::prelude::*;

use crate::machine::{
    flag_at, next_phase, observed_at,
    cut_from, delivered, delivered_range, settled_phase, interpreted, interpreted_from,
    handed_on, phase_after, phase_after_from, Letter, Mode, Observation, Phase,
};

verus! {

proof fn graceful_from<M>(
    phase: Phase,
    q: Seq<Letter<M>>,
    flags: Seq<bool>,
    quits: Seq<bool>,
    i: int,
)
    requires
        0 <= i <= q.len(),
        forall|j: int| 0 <= j < quits.len() ==> !quits[j],
        phase == Phase::Running || phase == Phase::Draining,
    ensures
        interpreted_from(Mode::Graceful, phase, q, flags, quits, i) == delivered_range(
            q,
            i,
            q.len() as int,
        ),
    decreases q.len() - i,
{
    if i < q.len() {
        let next = next_phase(Mode::Graceful, phase, observed_at(q, flags, quits, i));
        graceful_from(next, q, flags, quits, i + 1);
    }
}

/// A graceful worker interprets every message that reached its mailbox before
/// it found the mailbox empty, each exactly once and in the order sent,
/// whenever the termination flag was set and wherever termination markers stand,
/// as long as the interpreter never asks to terminate by itself.
pub proof fn graceful_interprets_every_message<M>(
    q: Seq<Letter<M>>,
    flags: Seq<bool>,
    quits: Seq<bool>,
)
    requires
        forall|j: int| 0 <= j < quits.len() ==> !quits[j],
    ensures
        interpreted(Mode::Graceful, q, flags, quits) == delivered(q),
{
    graceful_from(Phase::Running, q, flags, quits, 0);
}

proof fn cut_is_past<M>(q: Seq<Letter<M>>, flags: Seq<bool>, quits: Seq<bool>, i: int)
    requires
        0 <= i <= q.len(),
    ensures
        i <= cut_from(q, flags, quits, i) <= q.len(),
        i < q.len() ==> cut_from(q, flags, quits, i) > i,
    decreases q.len() - i,
{
    if i < q.len() {
        cut_is_past(q, flags, quits, i + 1);
    }
}

proof fn abrupt_from<M>(
    mode: Mode,
    q: Seq<Letter<M>>,
    flags: Seq<bool>,
    quits: Seq<bool>,
    i: int,
)
    requires
        mode != Mode::Graceful,
        0 <= i <= q.len(),
    ensures
        interpreted_from(mode, Phase::Running, q, flags, quits, i) == delivered_range(
            q,
            i,
            cut_from(q, flags, quits, i),
        ),
    decreases q.len() - i,
{
    if i < q.len() {
        abrupt_from(mode, q, flags, quits, i + 1);
        cut_is_past(q, flags, quits, i + 1);
        let c = cut_from(q, flags, quits, i);
        assert(delivered_range(q, i + 1, i + 1) =~= Seq::<M>::empty());
        assert(interpreted_from(mode, Phase::Dead, q, flags, quits, i + 1) =~= Seq::<M>::empty());
        match q[i] {
            Letter::Stop => {
                assert(c == i + 1);
            },
            Letter::Deliver(m) => {
                if flag_at(flags, i) || flag_at(quits, i) {
                    assert(c == i + 1);
                } else {
                    assert(c == cut_from(q, flags, quits, i + 1));
                }
                assert(delivered_range(q, i, c) == seq![m] + delivered_range(q, i + 1, c));
            },
        }
    }
}

/// A worker that is not graceful interprets exactly the messages that came
/// before the point where it learnt that it must stop (a termination marker, or
/// the flag read after a message, or the interpreter's own request), in order
/// and once each: whatever was queued after that point is dropped.
pub proof fn abrupt_worker_stops_at_cut<M>(
    mode: Mode,
    q: Seq<Letter<M>>,
    flags: Seq<bool>,
    quits: Seq<bool>,
)
    requires
        mode != Mode::Graceful,
    ensures
        interpreted(mode, q, flags, quits) == delivered_range(q, 0, cut_from(q, flags, quits, 0)),
{
    abrupt_from(mode, q, flags, quits, 0);
}

proof fn cut_within_from<M>(q: Seq<Letter<M>>, flags: Seq<bool>, quits: Seq<bool>, i: int, k: int)
    requires
        0 <= i <= k < q.len(),
        q[k] is Stop,
    ensures
        cut_from(q, flags, quits, i) <= k + 1,
    decreases k - i,
{
    if i < k {
        cut_within_from(q, flags, quits, i + 1, k);
    }
}

/// A worker that is not graceful stops taking letters no later than the first
/// termination marker.
pub proof fn cut_within_first_stop<M>(
    q: Seq<Letter<M>>,
    flags: Seq<bool>,
    quits: Seq<bool>,
    k: int,
)
    requires
        0 <= k < q.len(),
        q[k] is Stop,
    ensures
        cut_from(q, flags, quits, 0) <= k + 1,
{
    cut_within_from(q, flags, quits, 0, k);
}

/// A worker that is not graceful never drains: from any phase but draining,
/// every observation leaves it running or dead, and once it learns that it
/// must stop (a marker, a closed mailbox, the flag, or its interpreter's own
/// request) it is dead at once, so that nothing queued is interpreted after.
pub proof fn abrupt_worker_never_drains(mode: Mode, phase: Phase, obs: Observation)
    requires
        mode != Mode::Graceful,
        phase != Phase::Draining,
    ensures
        next_phase(mode, phase, obs) != Phase::Draining,
        (obs == Observation::Stop || obs == Observation::Closed || obs matches Observation::Message {
            stop_requested: true,
            ..
        } || obs matches Observation::Message { self_stop: true, .. }) ==> next_phase(
            mode,
            phase,
            obs,
        ) == Phase::Dead,
{
}

/// A dead worker stays dead and interprets nothing more, whatever is still
/// queued or sent later.
pub proof fn dead_worker_stays_dead<M>(
    mode: Mode,
    q: Seq<Letter<M>>,
    flags: Seq<bool>,
    quits: Seq<bool>,
    i: int,
)
    ensures
        interpreted_from(mode, Phase::Dead, q, flags, quits, i) == Seq::<M>::empty(),
        phase_after_from(mode, Phase::Dead, q, flags, quits, i) == Phase::Dead,
{
    assert(interpreted_from(mode, Phase::Dead, q, flags, quits, i) =~= Seq::<M>::empty());
}

/// A termination marker taken by a worker that was already told to stop, by an
/// earlier marker or by the flag, changes nothing: its phase stays as it was
/// and no message is handed on.
pub proof fn later_kill_is_inert<M>(mode: Mode, phase: Phase)
    requires
        phase != Phase::Running,
    ensures
        next_phase(mode, phase, Observation::Stop) == phase,
        handed_on(phase, Letter::<M>::Stop) == Seq::<M>::empty(),
{
}

proof fn draining_from<M>(
    mode: Mode,
    q: Seq<Letter<M>>,
    flags: Seq<bool>,
    quits: Seq<bool>,
    i: int,
)
    requires
        0 <= i <= q.len(),
    ensures
        interpreted_from(mode, Phase::Draining, q, flags, quits, i) == delivered_range(
            q,
            i,
            q.len() as int,
        ),
        phase_after_from(mode, Phase::Draining, q, flags, quits, i) == Phase::Draining,
    decreases q.len() - i,
{
    if i < q.len() {
        draining_from(mode, q, flags, quits, i + 1);
    }
}

proof fn delivered_shift<M>(q: Seq<Letter<M>>, k: int, j: int)
    requires
        0 <= k < q.len(),
        k + 1 <= j <= q.len(),
    ensures
        delivered_range(q.insert(k + 1, Letter::Stop), j + 1, q.len() + 1int) == delivered_range(
            q,
            j,
            q.len() as int,
        ),
    decreases q.len() - j,
{
    let q2 = q.insert(k + 1, Letter::Stop);
    if j < q.len() {
        delivered_shift(q, k, j + 1);
        assert(q2[j + 1] == q[j]);
    }
}

proof fn second_kill_from<M>(
    mode: Mode,
    phase: Phase,
    q: Seq<Letter<M>>,
    flags: Seq<bool>,
    quits: Seq<bool>,
    k: int,
    i: int,
)
    requires
        0 <= i <= k < q.len(),
        q[k] is Stop,
        flags.len() == q.len(),
        quits.len() == q.len(),
    ensures
        ({
            let q2 = q.insert(k + 1, Letter::Stop);
            let f2 = flags.insert(k + 1, false);
            let x2 = quits.insert(k + 1, false);
            &&& interpreted_from(mode, phase, q2, f2, x2, i) == interpreted_from(
                mode,
                phase,
                q,
                flags,
                quits,
                i,
            )
            &&& phase_after_from(mode, phase, q2, f2, x2, i) == phase_after_from(
                mode,
                phase,
                q,
                flags,
                quits,
                i,
            )
        }),
    decreases k - i,
{
    let q2 = q.insert(k + 1, Letter::Stop);
    let f2 = flags.insert(k + 1, false);
    let x2 = quits.insert(k + 1, false);
    if phase != Phase::Dead {
        assert(q2[i] == q[i]);
        assert(flag_at(f2, i) == flag_at(flags, i));
        assert(flag_at(x2, i) == flag_at(quits, i));
        assert(observed_at(q2, f2, x2, i) == observed_at(q, flags, quits, i));
        let next = next_phase(mode, phase, observed_at(q, flags, quits, i));
        if i < k {
            second_kill_from(mode, next, q, flags, quits, k, i + 1);
        } else if next == Phase::Draining {
            draining_from(mode, q2, f2, x2, k + 1);
            draining_from(mode, q, flags, quits, k + 1);
            delivered_shift(q, k, k + 1);
            assert(q2[k + 1] == Letter::<M>::Stop);
        } else {
            assert(next == Phase::Dead);
        }
    }
}

/// Killing an actor twice is killing it once: a second termination marker
/// right behind the first changes neither what the worker interprets nor
/// where it ends up, whatever its mode.
pub proof fn second_kill_is_inert<M>(
    mode: Mode,
    q: Seq<Letter<M>>,
    flags: Seq<bool>,
    quits: Seq<bool>,
    k: int,
)
    requires
        0 <= k < q.len(),
        q[k] is Stop,
        flags.len() == q.len(),
        quits.len() == q.len(),
    ensures
        ({
            let q2 = q.insert(k + 1, Letter::Stop);
            let f2 = flags.insert(k + 1, false);
            let x2 = quits.insert(k + 1, false);
            &&& interpreted(mode, q2, f2, x2) == interpreted(mode, q, flags, quits)
            &&& phase_after(mode, q2, f2, x2) == phase_after(mode, q, flags, quits)
        }),
{
    second_kill_from(mode, Phase::Running, q, flags, quits, k, 0);
}

/// Whatever its mode, its phase and whatever it was sent, a worker reaches its
/// end once its mailbox yields nothing more: its death is then signalled, so
/// that every waiter is released.
pub proof fn worker_always_dies(mode: Mode, phase: Phase)
    ensures
        settled_phase(mode, phase) == Phase::Dead,
{
}

} // verus!
