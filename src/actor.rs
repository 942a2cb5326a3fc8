//! Actor handles and the worker that serves them.
use std::sync::atomic::{AtomicBool, Ordering};
use std::sync::mpsc::{Receiver, Sender};
use std::sync::{Arc, Condvar, Mutex};
use vstd::prelude::*;

use crate::error::ActingErr;
use crate::interpreter::{Interpreter, SuicidalInterpreter};
use crate::laws::{abrupt_worker_stops_at_cut, graceful_interprets_every_message};
use crate::machine::{
    can_observe, cut_from, delivered, delivered_range, handed_on, interpreted, lemma_take_letter,
    next_phase, observation_of, phase_after, request_of, Letter, Lifecycle, Mode, Observation,
    Phase, Request,
};
use crate::mailbox::{lock_flag, poll, post, receive, wait_until_set, write_flag, Polled};

verus! {

/// The shared record of an actor's death, with the means to wait for it.
pub struct DeathLatch {
    is_dead: Mutex<bool>,
    till_death: Condvar,
}

impl DeathLatch {
    fn new() -> DeathLatch {
        DeathLatch { is_dead: Mutex::new(false), till_death: Condvar::new() }
    }

    /// Marks the actor dead and wakes every waiter.
    fn release(&self) {
        let mut guard = lock_flag(&self.is_dead);
        write_flag(&mut guard, true);
        self.till_death.notify_all();
    }

    /// Blocks until the actor is marked dead; returns at once if it already is.
    fn block_until_released(&self) {
        let guard = lock_flag(&self.is_dead);
        let _guard = wait_until_set(&self.till_death, guard);
    }
}

/// A handle on an actor that processes messages of type `M`. Clones of a
/// handle address the same actor.
#[verifier::reject_recursive_types(M)]
pub struct Actor<M> {
    channel: Sender<Letter<M>>,
    should_die: Arc<AtomicBool>,
    latch: Arc<DeathLatch>,
    id: Ghost<int>,
}

impl<M> Clone for Actor<M> {
    /// Another handle on the same actor.
    fn clone(&self) -> (r: Self)
        ensures
            r.id() == self.id(),
    {
        Actor {
            channel: self.channel.clone(),
            should_die: self.should_die.clone(),
            latch: self.latch.clone(),
            id: self.id,
        }
    }
}

/// A handle that can only send to an actor: it can neither kill the actor
/// nor wait for its death.
#[verifier::reject_recursive_types(M)]
pub struct WeakActor<M> {
    channel: Sender<Letter<M>>,
    id: Ghost<int>,
}

impl<M> Clone for WeakActor<M> {
    /// Another send-only handle on the same actor.
    fn clone(&self) -> (r: Self)
        ensures
            r.id() == self.id(),
    {
        WeakActor { channel: self.channel.clone(), id: self.id }
    }
}

impl<M> WeakActor<M> {
    /// The actor that this handle addresses: its mailbox and worker.
    pub closed spec fn id(&self) -> int {
        self.id@
    }

    /// Sends a message to the actor. Fails only when the actor is dead.
    pub fn tell(&self, message: M) -> (r: Result<(), ActingErr>)
        ensures
            r is Err ==> r == Err::<(), ActingErr>(ActingErr::DeadActor),
    {
        let accepted = post(&self.channel, Letter::deliver(message));
        delivery_outcome(accepted)
    }
}

/// What a worker took from its mailbox.
enum Fetched<M> {
    Letter(Letter<M>),
    Nothing(Observation),
}

/// The worker of an actor: it owns the interpreter and the receiving end of
/// the mailbox, and takes one step of its lifecycle at a time.
#[verifier::reject_recursive_types(M)]
pub struct Worker<M, I> {
    mailbox: Receiver<Letter<M>>,
    should_die: Arc<AtomicBool>,
    latch: Arc<DeathLatch>,
    interpreter: I,
    lifecycle: Lifecycle,
    taken: Ghost<Seq<Letter<M>>>,
    flags: Ghost<Seq<bool>>,
    quits: Ghost<Seq<bool>>,
    handed: Ghost<Seq<M>>,
    announced: Ghost<bool>,
    id: Ghost<int>,
}

impl<M> Actor<M> {
    /// The actor that this handle addresses: its mailbox, flag, latch and worker.
    pub closed spec fn id(&self) -> int {
        self.id@
    }

    fn with_mode<I>(mode: Mode, interpreter: I) -> (r: (Actor<M>, Worker<M, I>))
        ensures
            r.1.wf(),
            r.1.mode() == mode,
            r.1.phase() == Phase::Running,
            r.1.taken() == Seq::<Letter<M>>::empty(),
            r.0.id() == r.1.id(),
    {
        let (channel, mailbox) = std::sync::mpsc::channel();
        let should_die = Arc::new(AtomicBool::new(false));
        let latch = Arc::new(DeathLatch::new());
        let ghost id: int = arbitrary();
        let actor = Actor {
            channel,
            should_die: should_die.clone(),
            latch: latch.clone(),
            id: Ghost(id),
        };
        let worker = Worker {
            mailbox,
            should_die,
            latch,
            interpreter,
            lifecycle: Lifecycle::new(mode),
            taken: Ghost(Seq::empty()),
            flags: Ghost(Seq::empty()),
            quits: Ghost(Seq::empty()),
            handed: Ghost(Seq::empty()),
            announced: Ghost(false),
            id: Ghost(id),
        };
        proof {
            assert(interpreted(mode, Seq::<Letter<M>>::empty(), Seq::empty(), Seq::empty())
                =~= Seq::<M>::empty());
        }
        (actor, worker)
    }

    /// An actor that, once told to stop, still interprets every message
    /// already queued. The worker has to be run for the actor to live.
    pub fn graceful<I: Interpreter<M>>(interpreter: I) -> (r: (Actor<M>, Worker<M, I>))
        ensures
            r.1.wf(),
            r.1.mode() == Mode::Graceful,
            r.1.phase() == Phase::Running,
            r.1.taken() == Seq::<Letter<M>>::empty(),
            r.0.id() == r.1.id(),
    {
        Self::with_mode(Mode::Graceful, interpreter)
    }

    /// An actor that, once told to stop, drops every message still queued.
    /// The worker has to be run for the actor to live.
    pub fn disgraceful<I: Interpreter<M>>(interpreter: I) -> (r: (Actor<M>, Worker<M, I>))
        ensures
            r.1.wf(),
            r.1.mode() == Mode::Disgraceful,
            r.1.phase() == Phase::Running,
            r.1.taken() == Seq::<Letter<M>>::empty(),
            r.0.id() == r.1.id(),
    {
        Self::with_mode(Mode::Disgraceful, interpreter)
    }

    /// An actor whose interpreter may end it after any message; it then stops
    /// at once, as it does when told to stop. The worker has to be run for the
    /// actor to live.
    pub fn suicidal<I: SuicidalInterpreter<M>>(interpreter: I) -> (r: (Actor<M>, Worker<M, I>))
        ensures
            r.1.wf(),
            r.1.mode() == Mode::Immediate,
            r.1.phase() == Phase::Running,
            r.1.taken() == Seq::<Letter<M>>::empty(),
            r.0.id() == r.1.id(),
    {
        Self::with_mode(Mode::Immediate, interpreter)
    }

    /// Gives up this handle and blocks until the actor is dead; returns at once
    /// if it already is.
    pub fn wait(self) {
        // The handle's sender goes before blocking: were it the last one,
        // the worker finds its mailbox closed and dies.
        let latch = {
            let Actor { channel: _sender, should_die: _flag, latch, id: _id } = self;
            latch
        };
        latch.block_until_released();
    }

    /// Sends a message to the actor. Fails only when the actor is dead.
    pub fn tell(&self, message: M) -> (r: Result<(), ActingErr>)
        ensures
            r is Err ==> r == Err::<(), ActingErr>(ActingErr::DeadActor),
    {
        let accepted = post(&self.channel, Letter::deliver(message));
        delivery_outcome(accepted)
    }

    /// A send-only handle on the same actor.
    pub fn weak(&self) -> (r: WeakActor<M>)
        ensures
            r.id() == self.id(),
    {
        WeakActor { channel: self.channel.clone(), id: self.id }
    }

    /// Tells the actor to stop. Killing an actor that is dying or dead does
    /// nothing more.
    pub fn kill(&self) {
        self.should_die.store(true, Ordering::SeqCst);
        let _ = post(&self.channel, Letter::stop());
    }
}

impl<M, I> Worker<M, I> {
    /// How this worker treats queued messages once told to stop.
    pub closed spec fn mode(&self) -> Mode {
        self.lifecycle.mode
    }

    /// Where this worker stands in its life.
    pub closed spec fn phase(&self) -> Phase {
        self.lifecycle.phase
    }

    /// Every letter taken from the mailbox so far, in order.
    pub closed spec fn taken(&self) -> Seq<Letter<M>> {
        self.taken@
    }

    /// For each letter taken, the termination flag read after it (unset where
    /// it was not read).
    pub closed spec fn flags(&self) -> Seq<bool> {
        self.flags@
    }

    /// For each letter taken, whether the interpreter asked to terminate on it.
    pub closed spec fn quits(&self) -> Seq<bool> {
        self.quits@
    }

    /// Every message handed to the interpreter so far, in order.
    pub closed spec fn handed(&self) -> Seq<M> {
        self.handed@
    }

    /// The actor that this worker serves.
    pub closed spec fn id(&self) -> int {
        self.id@
    }

    /// Whether this worker has marked its actor dead.
    pub closed spec fn announced(&self) -> bool {
        self.announced@
    }

    /// What holds of a worker at every step: it has interpreted exactly what
    /// its lifecycle says of the letters it took, it is where that lifecycle
    /// leads (or dead, once its mailbox yielded nothing more), and it has
    /// marked its actor dead exactly when it is.
    pub open spec fn wf(&self) -> bool {
        &&& self.flags().len() == self.taken().len()
        &&& self.quits().len() == self.taken().len()
        &&& self.handed() == interpreted(self.mode(), self.taken(), self.flags(), self.quits())
        &&& (self.phase() == phase_after(self.mode(), self.taken(), self.flags(), self.quits())
            || self.phase() == Phase::Dead)
        &&& self.announced() == (self.phase() == Phase::Dead)
    }

    /// Whether this worker has stopped for good.
    pub fn is_dead(&self) -> (r: bool)
        ensures
            r == (self.phase() == Phase::Dead),
    {
        self.lifecycle.is_dead()
    }

    /// Performs the mailbox operation that the lifecycle asks for.
    fn fetch(&self) -> (r: Option<Fetched<M>>)
        ensures
            r is None <==> self.phase() == Phase::Dead,
            r matches Some(Fetched::Nothing(o)) ==> (o == Observation::Closed || o
                == Observation::Empty) && can_observe(request_of(self.phase()), o),
    {
        match self.lifecycle.request() {
            Request::Halt => None,
            Request::Receive => match receive(&self.mailbox) {
                Some(letter) => Some(Fetched::Letter(letter)),
                None => Some(Fetched::Nothing(Observation::Closed)),
            },
            Request::Poll => match poll(&self.mailbox) {
                Polled::Got(letter) => Some(Fetched::Letter(letter)),
                Polled::Empty => Some(Fetched::Nothing(Observation::Empty)),
                Polled::Closed => Some(Fetched::Nothing(Observation::Closed)),
            },
        }
    }

    /// The termination flag, read after a message only while running.
    fn read_flag(&self) -> (r: bool)
        ensures
            self.phase() != Phase::Running ==> !r,
    {
        match self.lifecycle.phase {
            Phase::Running => self.should_die.load(Ordering::SeqCst),
            _ => false,
        }
    }

    /// Moves the lifecycle on after `obs`, and marks the actor dead on arrival
    /// at the end.
    fn conclude(&mut self, obs: Observation)
        requires
            old(self).phase() != Phase::Dead,
            !old(self).announced(),
        ensures
            final(self).mode() == old(self).mode(),
            final(self).phase() == next_phase(old(self).mode(), old(self).phase(), obs),
            final(self).announced() == (final(self).phase() == Phase::Dead),
            final(self).taken() == old(self).taken(),
            final(self).flags() == old(self).flags(),
            final(self).quits() == old(self).quits(),
            final(self).handed() == old(self).handed(),
            final(self).id() == old(self).id(),
    {
        self.lifecycle.advance(obs);
        if self.lifecycle.is_dead() {
            self.latch.release();
            proof {
                self.announced = Ghost(true);
            }
        }
    }

    /// Records a taken letter in the history, then concludes the step.
    fn record(&mut self, letter: Ghost<Letter<M>>, flag: bool, quit: bool, obs: Observation)
        requires
            old(self).phase() != Phase::Dead,
            !old(self).announced(),
            old(self).flags().len() == old(self).taken().len(),
            old(self).quits().len() == old(self).taken().len(),
            old(self).phase() == phase_after(
                old(self).mode(),
                old(self).taken(),
                old(self).flags(),
                old(self).quits(),
            ),
            old(self).handed() == interpreted(
                old(self).mode(),
                old(self).taken(),
                old(self).flags(),
                old(self).quits(),
            ) + handed_on(old(self).phase(), letter@),
            obs == observation_of(letter@, flag, quit),
        ensures
            final(self).wf(),
            final(self).mode() == old(self).mode(),
            final(self).phase() == next_phase(old(self).mode(), old(self).phase(), obs),
            final(self).taken() == old(self).taken().push(letter@),
            final(self).flags() == old(self).flags().push(flag),
            final(self).quits() == old(self).quits().push(quit),
            final(self).handed() == old(self).handed(),
            final(self).id() == old(self).id(),
    {
        proof {
            lemma_take_letter(
                self.lifecycle.mode,
                Phase::Running,
                self.taken@,
                self.flags@,
                self.quits@,
                0,
                letter@,
                flag,
                quit,
            );
            self.taken = Ghost(self.taken@.push(letter@));
            self.flags = Ghost(self.flags@.push(flag));
            self.quits = Ghost(self.quits@.push(quit));
        }
        self.conclude(obs);
    }
}

/// How one step extends the letters taken: by a message on observing one, by
/// a termination marker on observing one, and not at all otherwise.
pub open spec fn extends_taken<M>(
    before: Seq<Letter<M>>,
    after: Seq<Letter<M>>,
    r: Option<Observation>,
) -> bool {
    match r {
        Some(Observation::Message { .. }) => {
            &&& after.len() == before.len() + 1
            &&& after.drop_last() == before
            &&& after.last() is Deliver
        },
        Some(Observation::Stop) => after == before.push(Letter::Stop),
        _ => after == before,
    }
}

impl<M, I: Interpreter<M>> Worker<M, I> {
    /// Takes one step: performs the mailbox operation that the lifecycle asks
    /// for, hands a message taken to the interpreter, and moves the lifecycle
    /// on. Returns what was observed, or `None` once the worker is dead.
    pub fn step(&mut self) -> (r: Option<Observation>)
        requires
            old(self).wf(),
        ensures
            final(self).wf(),
            final(self).mode() == old(self).mode(),
            final(self).id() == old(self).id(),
            old(self).phase() == Phase::Dead ==> r is None && final(self).phase() == Phase::Dead
                && final(self).flags() == old(self).flags() && final(self).quits() == old(
                self,
            ).quits() && final(self).handed() == old(self).handed(),
            extends_taken(old(self).taken(), final(self).taken(), r),
            old(self).phase() != Phase::Dead ==> (r matches Some(o) && can_observe(
                request_of(old(self).phase()),
                o,
            ) && final(self).phase() == next_phase(old(self).mode(), old(self).phase(), o)
                && !(o matches Observation::Message { self_stop: true, .. })),
            final(self).quits() == old(self).quits() || final(self).quits() == old(
                self,
            ).quits().push(false),
    {
        match self.fetch() {
            None => None,
            Some(Fetched::Nothing(obs)) => {
                self.conclude(obs);
                Some(obs)
            },
            Some(Fetched::Letter(letter)) => {
                let ghost taken = letter;
                let (flag, obs) = match letter {
                    Letter::Deliver(m) => {
                        proof {
                            self.handed = Ghost(self.handed@.push(m));
                        }
                        self.interpreter.interpret(m);
                        let flag = self.read_flag();
                        (flag, Observation::Message { stop_requested: flag, self_stop: false })
                    },
                    Letter::Stop => (false, Observation::Stop),
                };
                proof {
                    let before = interpreted(
                        self.lifecycle.mode,
                        self.taken@,
                        self.flags@,
                        self.quits@,
                    );
                    match taken {
                        Letter::Deliver(m) => {
                            assert(self.handed@ =~= before + seq![m]);
                        },
                        Letter::Stop => {
                            assert(self.handed@ =~= before + Seq::<M>::empty());
                        },
                    }
                }
                self.record(Ghost(taken), flag, false, obs);
                proof {
                    assert(self.taken@.drop_last() =~= old(self).taken@);
                }
                Some(obs)
            },
        }
    }
}

impl<M, I: SuicidalInterpreter<M>> Worker<M, I> {
    /// Takes one step as `step` does, and lets the interpreter end the actor
    /// after the message it was handed.
    pub fn step_suicidal(&mut self) -> (r: Option<Observation>)
        requires
            old(self).wf(),
        ensures
            final(self).wf(),
            final(self).mode() == old(self).mode(),
            final(self).id() == old(self).id(),
            old(self).phase() == Phase::Dead ==> r is None && final(self).phase() == Phase::Dead
                && final(self).flags() == old(self).flags() && final(self).quits() == old(
                self,
            ).quits() && final(self).handed() == old(self).handed(),
            extends_taken(old(self).taken(), final(self).taken(), r),
            old(self).phase() != Phase::Dead ==> (r matches Some(o) && can_observe(
                request_of(old(self).phase()),
                o,
            ) && final(self).phase() == next_phase(old(self).mode(), old(self).phase(), o)),
    {
        match self.fetch() {
            None => None,
            Some(Fetched::Nothing(obs)) => {
                self.conclude(obs);
                Some(obs)
            },
            Some(Fetched::Letter(letter)) => {
                let ghost taken = letter;
                let (flag, quit, obs) = match letter {
                    Letter::Deliver(m) => {
                        proof {
                            self.handed = Ghost(self.handed@.push(m));
                        }
                        let quit = self.interpreter.process(m);
                        let flag = self.read_flag();
                        (flag, quit, Observation::Message { stop_requested: flag, self_stop: quit })
                    },
                    Letter::Stop => (false, false, Observation::Stop),
                };
                proof {
                    let before = interpreted(
                        self.lifecycle.mode,
                        self.taken@,
                        self.flags@,
                        self.quits@,
                    );
                    match taken {
                        Letter::Deliver(m) => {
                            assert(self.handed@ =~= before + seq![m]);
                        },
                        Letter::Stop => {
                            assert(self.handed@ =~= before + Seq::<M>::empty());
                        },
                    }
                }
                self.record(Ghost(taken), flag, quit, obs);
                proof {
                    assert(self.taken@.drop_last() =~= old(self).taken@);
                }
                Some(obs)
            },
        }
    }
}

/// A graceful worker whose interpreter never asks to terminate has handed to
/// it every message it took from its mailbox, in order and once each.
pub proof fn graceful_worker_hands_on_every_message<M, I>(w: &Worker<M, I>)
    requires
        w.wf(),
        w.mode() == Mode::Graceful,
        forall|j: int| 0 <= j < w.quits().len() ==> !w.quits()[j],
    ensures
        w.handed() == delivered(w.taken()),
{
    graceful_interprets_every_message(w.taken(), w.flags(), w.quits());
}

/// A worker that is not graceful has handed to its interpreter exactly the
/// messages it took before it learnt that it must stop.
pub proof fn abrupt_worker_hands_on_until_cut<M, I>(w: &Worker<M, I>)
    requires
        w.wf(),
        w.mode() != Mode::Graceful,
    ensures
        w.handed() == delivered_range(w.taken(), 0, cut_from(w.taken(), w.flags(), w.quits(), 0)),
{
    abrupt_worker_stops_at_cut(w.mode(), w.taken(), w.flags(), w.quits());
}

/// The result of a send, from whether the mailbox accepted the message.
pub fn delivery_outcome(accepted: bool) -> (r: Result<(), ActingErr>)
    ensures
        accepted ==> r == Ok::<(), ActingErr>(()),
        !accepted ==> r == Err::<(), ActingErr>(ActingErr::DeadActor),
{
    if accepted {
        Ok(())
    } else {
        Err(ActingErr::DeadActor)
    }
}

} // verus!
