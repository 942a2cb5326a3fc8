use std::sync::{Arc, Mutex};

use theatre::actor::{delivery_outcome, Actor, Worker};
use theatre::error::ActingErr;
use theatre::interpreter::{CoutingIntepreter, Interpreter, SuicidalInterpreter};
use theatre::machine::{stop_phase_of, Lifecycle, Mode, Observation, Phase, Request};

struct Log<M>(Arc<Mutex<Vec<M>>>);

impl<M> Interpreter<M> for Log<M> {
    fn interpret(&mut self, message: M) {
        self.0.lock().unwrap().push(message);
    }
}

impl SuicidalInterpreter<u32> for Log<u32> {
    fn process(&mut self, message: u32) -> bool {
        self.0.lock().unwrap().push(message);
        message == 0
    }
}

fn log<M>() -> (Log<M>, Arc<Mutex<Vec<M>>>) {
    let shared = Arc::new(Mutex::new(Vec::new()));
    (Log(shared.clone()), shared)
}

fn drive<M, I: Interpreter<M>>(worker: &mut Worker<M, I>) {
    while worker.step().is_some() {}
}

const PLAIN: Observation = Observation::Message { stop_requested: false, self_stop: false };
const FLAGGED: Observation = Observation::Message { stop_requested: true, self_stop: false };
const QUITTING: Observation = Observation::Message { stop_requested: false, self_stop: true };

#[test]
fn graceful_lifecycle_drains_then_dies() {
    let mut l = Lifecycle::new(Mode::Graceful);
    assert_eq!(l.request(), Request::Receive);
    l.advance(PLAIN);
    assert_eq!(l.phase, Phase::Running);
    l.advance(Observation::Stop);
    assert_eq!(l.phase, Phase::Draining);
    assert_eq!(l.request(), Request::Poll);
    l.advance(FLAGGED);
    l.advance(Observation::Stop);
    assert_eq!(l.phase, Phase::Draining);
    l.advance(Observation::Empty);
    assert_eq!(l.phase, Phase::Dead);
    assert_eq!(l.request(), Request::Halt);
    assert!(l.is_dead());
    assert_eq!(l.mode, Mode::Graceful);
}

#[test]
fn flag_ends_disgraceful_worker_at_once() {
    let mut l = Lifecycle::new(Mode::Disgraceful);
    l.advance(FLAGGED);
    assert_eq!(l.phase, Phase::Dead);
    l.advance(PLAIN);
    assert_eq!(l.phase, Phase::Dead);
}

#[test]
fn flag_sends_graceful_worker_draining() {
    let mut l = Lifecycle::new(Mode::Graceful);
    l.advance(FLAGGED);
    assert_eq!(l.phase, Phase::Draining);
    l.advance(Observation::Closed);
    assert_eq!(l.phase, Phase::Dead);
}

#[test]
fn self_stop_is_immediate_in_every_mode() {
    for mode in [Mode::Graceful, Mode::Disgraceful, Mode::Immediate] {
        let mut l = Lifecycle::new(mode);
        l.advance(QUITTING);
        assert_eq!(l.phase, Phase::Dead);
    }
}

#[test]
fn closed_mailbox_ends_running_worker() {
    for mode in [Mode::Graceful, Mode::Disgraceful, Mode::Immediate] {
        let mut l = Lifecycle::new(mode);
        l.advance(Observation::Closed);
        assert_eq!(l.phase, Phase::Dead);
    }
}

#[test]
fn stop_phase_by_mode() {
    assert_eq!(stop_phase_of(Mode::Graceful), Phase::Draining);
    assert_eq!(stop_phase_of(Mode::Disgraceful), Phase::Dead);
    assert_eq!(stop_phase_of(Mode::Immediate), Phase::Dead);
}

#[test]
fn delivery_outcome_maps_refusal_to_dead_actor() {
    assert_eq!(delivery_outcome(true), Ok(()));
    assert_eq!(delivery_outcome(false), Err(ActingErr::DeadActor));
}

#[test]
fn tell_to_exited_actor_reports_dead_actor() {
    let (interp, seen) = log();
    let (actor, mut worker): (Actor<i32>, _) = Actor::graceful(interp);
    assert_eq!(actor.tell(1), Ok(()));
    actor.kill();
    drive(&mut worker);
    drop(worker);
    assert_eq!(actor.tell(2), Err(ActingErr::DeadActor));
    // Killing a dead actor is no error.
    actor.kill();
    actor.wait();
    assert_eq!(*seen.lock().unwrap(), vec![1]);
}

#[test]
fn kill_twice_is_kill_once() {
    let (interp, seen) = log();
    let (actor, mut worker): (Actor<i32>, _) = Actor::graceful(interp);
    actor.tell(1).unwrap();
    actor.kill();
    actor.kill();
    actor.tell(2).unwrap();
    drive(&mut worker);
    assert!(worker.is_dead());
    assert_eq!(*seen.lock().unwrap(), vec![1, 2]);
}

#[test]
fn graceful_worker_drains_after_flag() {
    let (interp, seen) = log();
    let (actor, mut worker): (Actor<i32>, _) = Actor::graceful(interp);
    for k in 1..=3 {
        actor.tell(k).unwrap();
    }
    actor.kill();
    assert_eq!(worker.step(), Some(FLAGGED));
    assert!(!worker.is_dead());
    assert_eq!(worker.step(), Some(PLAIN));
    assert_eq!(worker.step(), Some(PLAIN));
    assert_eq!(worker.step(), Some(Observation::Stop));
    assert_eq!(worker.step(), Some(Observation::Empty));
    assert!(worker.is_dead());
    assert_eq!(*seen.lock().unwrap(), vec![1, 2, 3]);
}

#[test]
fn disgraceful_worker_drops_queue_after_flag() {
    let (interp, seen) = log();
    let (actor, mut worker): (Actor<i32>, _) = Actor::disgraceful(interp);
    for k in 1..=3 {
        actor.tell(k).unwrap();
    }
    actor.kill();
    drive(&mut worker);
    assert!(worker.is_dead());
    assert_eq!(*seen.lock().unwrap(), vec![1]);
}

#[test]
fn waiting_on_dead_actor_returns_for_every_handle() {
    let (interp, _seen) = log::<i32>();
    let (actor, mut worker) = Actor::disgraceful(interp);
    let first = actor.clone();
    let second = actor.clone();
    actor.kill();
    drive(&mut worker);
    first.wait();
    second.wait();
    actor.wait();
}

#[test]
fn weak_handle_only_sends() {
    let (interp, seen) = log();
    let (actor, mut worker): (Actor<i32>, _) = Actor::graceful(interp);
    let weak = actor.weak();
    weak.tell(4).unwrap();
    actor.kill();
    drive(&mut worker);
    drop(worker);
    assert_eq!(weak.tell(5), Err(ActingErr::DeadActor));
    assert_eq!(*seen.lock().unwrap(), vec![4]);
}

#[test]
fn counting_interpreter_quits_on_every_second_message() {
    let mut counter = CoutingIntepreter(0);
    assert!(!counter.process(7));
    assert!(counter.process(7));
    assert!(!counter.process(7));
    assert_eq!(counter.0, 3);
}

#[test]
fn suicidal_actor_stops_when_interpreter_asks() {
    let (interp, seen) = log::<u32>();
    let (actor, mut worker) = Actor::suicidal(interp);
    actor.tell(3).unwrap();
    actor.tell(0).unwrap();
    actor.tell(9).unwrap();
    assert_eq!(worker.step_suicidal(), Some(PLAIN));
    assert_eq!(worker.step_suicidal(), Some(QUITTING));
    assert!(worker.is_dead());
    assert_eq!(worker.step_suicidal(), None);
    actor.wait();
    assert_eq!(*seen.lock().unwrap(), vec![3, 0]);
}

#[test]
fn suicidal_actor_drops_queue_when_killed() {
    let (interp, seen) = log::<u32>();
    let (actor, mut worker) = Actor::suicidal(interp);
    actor.tell(3).unwrap();
    actor.tell(4).unwrap();
    actor.kill();
    while worker.step_suicidal().is_some() {}
    assert_eq!(*seen.lock().unwrap(), vec![3]);
}

#[test]
fn counting_interpreter_tick_counts_and_wraps() {
    let mut counter = CoutingIntepreter(0);
    assert!(!counter.tick());
    assert_eq!(counter.0, 1);
    assert!(counter.tick());
    assert_eq!(counter.0, 2);
    let mut top = CoutingIntepreter(u32::MAX);
    assert!(top.tick());
    assert_eq!(top.0, 0);
}

#[test]
fn counting_interpreter_answers_on_fresh_counter() {
    let mut c = CoutingIntepreter(0);
    let r1 = c.process(3);
    let r2 = c.process(5);
    assert!(!r1 && r2);
    assert_eq!(c.0, 2);
}
