//! The worker's lifecycle as a state machine: what it does next depends only
//! on its termination mode, its phase and what it last observed.
use vstd::prelude::*;

verus! {

/// How a worker treats the messages still queued once it has been told to stop.
#[derive(Clone, Copy, Debug, PartialEq, Eq, Structural)]
pub enum Mode {
    /// Interpret every message still queued, then stop.
    Graceful,
    /// Discard every message still queued and stop at once.
    Disgraceful,
    /// Stop at once: the interpreter itself asked for it.
    Immediate,
}

/// Where the worker stands in its life.
#[derive(Clone, Copy, Debug, PartialEq, Eq, Structural)]
pub enum Phase {
    /// Blocking on the mailbox and interpreting what arrives.
    Running,
    /// Polling the mailbox without blocking until it is empty.
    Draining,
    /// The worker has stopped for good.
    Dead,
}

/// What the worker observed after performing its current request.
#[derive(Clone, Copy, Debug, PartialEq, Eq, Structural)]
pub enum Observation {
    /// A message was taken and interpreted. `stop_requested` is the value of
    /// the termination flag read right after; `self_stop` is whether the
    /// interpreter asked to terminate on this message.
    Message { stop_requested: bool, self_stop: bool },
    /// A termination marker was taken from the mailbox.
    Stop,
    /// Every sender is gone and the mailbox is empty.
    Closed,
    /// A non-blocking poll found the mailbox empty.
    Empty,
}

/// What the worker has to do next.
#[derive(Clone, Copy, Debug, PartialEq, Eq, Structural)]
pub enum Request {
    /// Block until the mailbox yields something.
    Receive,
    /// Take from the mailbox without blocking.
    Poll,
    /// Nothing: the worker is dead.
    Halt,
}

/// The phase a worker enters once it has been told to stop, in a given mode.
pub open spec fn stop_phase(mode: Mode) -> Phase {
    match mode {
        Mode::Graceful => Phase::Draining,
        _ => Phase::Dead,
    }
}

/// The phase that follows `phase` after observing `obs`. A closed mailbox
/// leaves nothing to drain, so a running worker that finds it closed is done.
pub open spec fn next_phase(mode: Mode, phase: Phase, obs: Observation) -> Phase {
    match phase {
        Phase::Running => match obs {
            Observation::Message { stop_requested, self_stop } => {
                if self_stop {
                    stop_phase(Mode::Immediate)
                } else if stop_requested {
                    stop_phase(mode)
                } else {
                    Phase::Running
                }
            },
            Observation::Stop => stop_phase(mode),
            Observation::Closed => Phase::Dead,
            Observation::Empty => Phase::Running,
        },
        Phase::Draining => match obs {
            Observation::Empty => Phase::Dead,
            Observation::Closed => Phase::Dead,
            _ => Phase::Draining,
        },
        Phase::Dead => Phase::Dead,
    }
}

/// The mailbox operation that a worker in `phase` performs.
pub open spec fn request_of(phase: Phase) -> Request {
    match phase {
        Phase::Running => Request::Receive,
        Phase::Draining => Request::Poll,
        Phase::Dead => Request::Halt,
    }
}

/// Whether `obs` can be the outcome of performing `req`: a blocking receive
/// never reports an empty mailbox, and a halted worker observes nothing.
pub open spec fn can_observe(req: Request, obs: Observation) -> bool {
    match req {
        Request::Receive => obs != Observation::Empty,
        Request::Poll => true,
        Request::Halt => false,
    }
}

/// The state of one worker: its fixed mode and its current phase.
#[derive(Clone, Copy, Debug, PartialEq, Eq, Structural)]
pub struct Lifecycle {
    pub mode: Mode,
    pub phase: Phase,
}

impl Lifecycle {
    /// A fresh worker: running, in the given mode.
    pub fn new(mode: Mode) -> (r: Lifecycle)
        ensures
            r.mode == mode,
            r.phase == Phase::Running,
    {
        Lifecycle { mode, phase: Phase::Running }
    }

    /// What the worker has to do next.
    pub fn request(&self) -> (r: Request)
        ensures
            r == request_of(self.phase),
    {
        match self.phase {
            Phase::Running => Request::Receive,
            Phase::Draining => Request::Poll,
            Phase::Dead => Request::Halt,
        }
    }

    /// Whether the worker has stopped for good.
    pub fn is_dead(&self) -> (r: bool)
        ensures
            r == (self.phase == Phase::Dead),
    {
        match self.phase {
            Phase::Dead => true,
            _ => false,
        }
    }

    /// Moves to the phase that follows an observation; the mode never changes.
    pub fn advance(&mut self, obs: Observation)
        ensures
            final(self).mode == old(self).mode,
            final(self).phase == next_phase(old(self).mode, old(self).phase, obs),
    {
        let next = match self.phase {
            Phase::Running => match obs {
                Observation::Message { stop_requested, self_stop } => {
                    if self_stop {
                        Phase::Dead
                    } else if stop_requested {
                        stop_phase_of(self.mode)
                    } else {
                        Phase::Running
                    }
                },
                Observation::Stop => stop_phase_of(self.mode),
                Observation::Closed => Phase::Dead,
                Observation::Empty => Phase::Running,
            },
            Phase::Draining => match obs {
                Observation::Empty => Phase::Dead,
                Observation::Closed => Phase::Dead,
                _ => Phase::Draining,
            },
            Phase::Dead => Phase::Dead,
        };
        self.phase = next;
    }
}

/// The phase a worker enters once it has been told to stop.
pub fn stop_phase_of(mode: Mode) -> (r: Phase)
    ensures
        r == stop_phase(mode),
{
    match mode {
        Mode::Graceful => Phase::Draining,
        _ => Phase::Dead,
    }
}

/// What a mailbox carries: a message for the interpreter, or a termination marker.
pub enum Letter<M> {
    Deliver(M),
    Stop,
}

impl<M> Letter<M> {
    /// The letter that carries `message` to the interpreter.
    pub fn deliver(message: M) -> (l: Letter<M>)
        ensures
            l == Letter::Deliver(message),
    {
        Letter::Deliver(message)
    }

    /// The termination marker.
    pub fn stop() -> (l: Letter<M>)
        ensures
            l == Letter::<M>::Stop,
    {
        Letter::Stop
    }
}

/// What the worker observes when it takes `letter`, with `flag` the termination
/// flag it read after interpreting it and `quit` the interpreter's own request
/// to terminate.
pub open spec fn observation_of<M>(letter: Letter<M>, flag: bool, quit: bool) -> Observation {
    match letter {
        Letter::Deliver(_) => Observation::Message { stop_requested: flag, self_stop: quit },
        Letter::Stop => Observation::Stop,
    }
}

/// The entry at position `i`; an unlisted entry is unset.
pub open spec fn flag_at(flags: Seq<bool>, i: int) -> bool {
    0 <= i < flags.len() && flags[i]
}

/// What the worker observed on taking the letter at position `i` of `q`.
pub open spec fn observed_at<M>(q: Seq<Letter<M>>, flags: Seq<bool>, quits: Seq<bool>, i: int) -> Observation {
    observation_of(q[i], flag_at(flags, i), flag_at(quits, i))
}

/// The messages among the letters of `q` at positions `i` up to `j`, in order.
pub open spec fn delivered_range<M>(q: Seq<Letter<M>>, i: int, j: int) -> Seq<M>
    decreases j - i,
{
    if i < 0 || i >= j || i >= q.len() {
        seq![]
    } else {
        match q[i] {
            Letter::Deliver(m) => seq![m] + delivered_range(q, i + 1, j),
            Letter::Stop => delivered_range(q, i + 1, j),
        }
    }
}

/// The messages among all the letters of `q`, in order.
pub open spec fn delivered<M>(q: Seq<Letter<M>>) -> Seq<M> {
    delivered_range(q, 0, q.len() as int)
}

/// The messages that a worker in `phase` interprets when the mailbox yields the
/// letters of `q` from position `i` on, one at a time; `flags` gives the
/// termination flag it read after each message, and `quits` whether the
/// interpreter asked to terminate on it.
pub open spec fn interpreted_from<M>(
    mode: Mode,
    phase: Phase,
    q: Seq<Letter<M>>,
    flags: Seq<bool>,
    quits: Seq<bool>,
    i: int,
) -> Seq<M>
    decreases q.len() - i,
{
    if i < 0 || i >= q.len() || phase == Phase::Dead {
        seq![]
    } else {
        let next = next_phase(mode, phase, observed_at(q, flags, quits, i));
        let rest = interpreted_from(mode, next, q, flags, quits, i + 1);
        match q[i] {
            Letter::Deliver(m) => seq![m] + rest,
            Letter::Stop => rest,
        }
    }
}

/// The messages that a fresh worker interprets over its whole life.
pub open spec fn interpreted<M>(
    mode: Mode,
    q: Seq<Letter<M>>,
    flags: Seq<bool>,
    quits: Seq<bool>,
) -> Seq<M> {
    interpreted_from(mode, Phase::Running, q, flags, quits, 0)
}

/// The phase a worker in `phase` reaches once it has taken the letters of `q`
/// from position `i` on.
pub open spec fn phase_after_from<M>(
    mode: Mode,
    phase: Phase,
    q: Seq<Letter<M>>,
    flags: Seq<bool>,
    quits: Seq<bool>,
    i: int,
) -> Phase
    decreases q.len() - i,
{
    if i < 0 || i >= q.len() || phase == Phase::Dead {
        phase
    } else {
        let next = next_phase(mode, phase, observed_at(q, flags, quits, i));
        phase_after_from(mode, next, q, flags, quits, i + 1)
    }
}

/// The phase a fresh worker reaches once it has taken all the letters of `q`.
pub open spec fn phase_after<M>(
    mode: Mode,
    q: Seq<Letter<M>>,
    flags: Seq<bool>,
    quits: Seq<bool>,
) -> Phase {
    phase_after_from(mode, Phase::Running, q, flags, quits, 0)
}

/// The phase a worker in `phase` reaches once its mailbox yields nothing more:
/// every sender is gone, or a poll finds it empty.
pub open spec fn settled_phase(mode: Mode, phase: Phase) -> Phase {
    let once = next_phase(mode, phase, Observation::Closed);
    next_phase(mode, once, Observation::Closed)
}

/// The position at which a worker that is not graceful stops taking letters:
/// just past the first termination marker, or past the first message after
/// which it found the termination flag set or was asked by the interpreter to
/// terminate; `q.len()` if there is none.
pub open spec fn cut_from<M>(q: Seq<Letter<M>>, flags: Seq<bool>, quits: Seq<bool>, i: int) -> int
    decreases q.len() - i,
{
    if i < 0 || i >= q.len() {
        q.len() as int
    } else {
        match q[i] {
            Letter::Stop => i + 1,
            Letter::Deliver(_) => if flag_at(flags, i) || flag_at(quits, i) {
                i + 1
            } else {
                cut_from(q, flags, quits, i + 1)
            },
        }
    }
}

/// The messages handed to the interpreter when a worker in `phase` takes `letter`.
pub open spec fn handed_on<M>(phase: Phase, letter: Letter<M>) -> Seq<M> {
    match letter {
        Letter::Deliver(m) => if phase != Phase::Dead {
            seq![m]
        } else {
            seq![]
        },
        Letter::Stop => seq![],
    }
}

/// Taking one more letter extends a run by one step of the machine.
pub proof fn lemma_take_letter<M>(
    mode: Mode,
    phase: Phase,
    q: Seq<Letter<M>>,
    flags: Seq<bool>,
    quits: Seq<bool>,
    i: int,
    letter: Letter<M>,
    flag: bool,
    quit: bool,
)
    requires
        0 <= i <= q.len(),
        flags.len() == q.len(),
        quits.len() == q.len(),
    ensures
        ({
            let before = phase_after_from(mode, phase, q, flags, quits, i);
            &&& phase_after_from(mode, phase, q.push(letter), flags.push(flag), quits.push(quit), i)
                == (if before == Phase::Dead {
                Phase::Dead
            } else {
                next_phase(mode, before, observation_of(letter, flag, quit))
            })
            &&& interpreted_from(mode, phase, q.push(letter), flags.push(flag), quits.push(quit), i)
                == interpreted_from(mode, phase, q, flags, quits, i) + handed_on(before, letter)
        }),
    decreases q.len() - i,
{
    let q2 = q.push(letter);
    let f2 = flags.push(flag);
    let x2 = quits.push(quit);
    if phase == Phase::Dead {
        assert(interpreted_from(mode, phase, q2, f2, x2, i) =~= Seq::<M>::empty());
        assert(interpreted_from(mode, phase, q, flags, quits, i) =~= Seq::<M>::empty());
        assert(handed_on(phase, letter) =~= Seq::<M>::empty());
    } else if i < q.len() {
        assert(q2[i] == q[i]);
        assert(observed_at(q2, f2, x2, i) == observed_at(q, flags, quits, i));
        let next = next_phase(mode, phase, observed_at(q, flags, quits, i));
        lemma_take_letter(mode, next, q, flags, quits, i + 1, letter, flag, quit);
        match q[i] {
            Letter::Deliver(m) => {
                assert(interpreted_from(mode, phase, q2, f2, x2, i) =~= seq![m]
                    + interpreted_from(mode, next, q2, f2, x2, i + 1));
                assert(interpreted_from(mode, phase, q, flags, quits, i) =~= seq![m]
                    + interpreted_from(mode, next, q, flags, quits, i + 1));
                vstd::seq_lib::lemma_concat_associative(
                    seq![m],
                    interpreted_from(mode, next, q, flags, quits, i + 1),
                    handed_on(phase_after_from(mode, phase, q, flags, quits, i), letter),
                );
            },
            Letter::Stop => {},
        }
    } else {
        assert(q2[i] == letter);
        assert(observed_at(q2, f2, x2, i) == observation_of(letter, flag, quit));
        let next = next_phase(mode, phase, observation_of(letter, flag, quit));
        assert(phase_after_from(mode, next, q2, f2, x2, i + 1) == next);
        assert(phase_after_from(mode, phase, q, flags, quits, i) == phase);
        assert(interpreted_from(mode, next, q2, f2, x2, i + 1) =~= Seq::<M>::empty());
        assert(interpreted_from(mode, phase, q, flags, quits, i) =~= Seq::<M>::empty());
        match letter {
            Letter::Deliver(m) => {
                assert(interpreted_from(mode, phase, q2, f2, x2, i) =~= seq![m]);
            },
            Letter::Stop => {
                assert(interpreted_from(mode, phase, q2, f2, x2, i) =~= Seq::<M>::empty());
            },
        }
        assert(Seq::<M>::empty() + handed_on(phase, letter) =~= handed_on(phase, letter));
    }
}

} // verus!
