use std::sync::{Arc, Mutex};

use theatre::actor::{Actor, Worker};
use theatre::interpreter::{CoutingIntepreter, Interpreter};
use theatre::machine::Observation;

struct Recorder<M>(Arc<Mutex<Vec<M>>>);

impl<M> Interpreter<M> for Recorder<M> {
    fn interpret(&mut self, message: M) {
        self.0.lock().unwrap().push(message);
    }
}

struct FnInterpreter<F>(F);

impl<M, F: Fn(M)> Interpreter<M> for FnInterpreter<F> {
    fn interpret(&mut self, message: M) {
        (self.0)(message)
    }
}

fn recorder<M>() -> (Recorder<M>, Arc<Mutex<Vec<M>>>) {
    let log = Arc::new(Mutex::new(Vec::new()));
    (Recorder(log.clone()), log)
}

fn run<M, I: Interpreter<M>>(worker: &mut Worker<M, I>) {
    while worker.step().is_some() {}
}

#[test]
fn test_single_send() {
    let (interp, log) = recorder();
    let (actor, mut worker): (Actor<&'static str>, _) = Actor::graceful(interp);
    actor.tell("Hello, World!").unwrap();
    actor.kill();
    run(&mut worker);
    actor.wait();
    assert_eq!(*log.lock().unwrap(), vec!["Hello, World!"]);
}

#[test]
fn test_graceful() {
    let (interp, log) = recorder();
    let (actor, mut worker): (Actor<i32>, _) = Actor::graceful(interp);
    actor.tell(0).unwrap();
    actor.kill();
    for k in 1..=10 {
        actor.tell(k).unwrap();
    }
    run(&mut worker);
    actor.wait();
    assert_eq!(*log.lock().unwrap(), (0..=10).collect::<Vec<i32>>());
}

#[test]
fn test_disgraceful() {
    let (interp, log) = recorder();
    let (actor, mut worker): (Actor<i32>, _) = Actor::disgraceful(interp);
    actor.tell(0).unwrap();
    // The worker takes message 0 before the kill.
    assert!(worker.step().is_some());
    actor.kill();
    for k in 1..=10 {
        actor.tell(k).unwrap();
    }
    run(&mut worker);
    actor.wait();
    assert_eq!(*log.lock().unwrap(), vec![0]);
}

#[test]
fn test_blanket_interpreters() {
    let seen = Arc::new(Mutex::new(Vec::new()));
    let sink = seen.clone();
    let (actor, mut worker): (Actor<i32>, _) = Actor::graceful(FnInterpreter(move |x: i32| {
        sink.lock().unwrap().push(format!("Got x = {}", x));
    }));
    for k in 1..=10 {
        actor.tell(k).unwrap();
    }
    actor.kill();
    run(&mut worker);
    actor.wait();
    let expected: Vec<String> = (1..=10).map(|x| format!("Got x = {}", x)).collect();
    assert_eq!(*seen.lock().unwrap(), expected);
}

#[test]
fn test_death_wait() {
    let (interp, log) = recorder();
    let (actor, mut worker): (Actor<i32>, _) = Actor::graceful(interp);
    let cloned_actor = actor.clone();
    for k in 1..=5 {
        cloned_actor.tell(4 * k - 3).unwrap();
        assert!(worker.step().is_some());
        assert!(!worker.is_dead());
    }
    cloned_actor.kill();
    assert!(!worker.is_dead());
    run(&mut worker);
    assert!(worker.is_dead());
    actor.wait();
    assert_eq!(*log.lock().unwrap(), vec![1, 5, 9, 13, 17]);
}

#[test]
fn test_instant_death_graceful() {
    let (interp, log) = recorder();
    let (actor, mut worker): (Actor<i32>, _) = Actor::graceful(interp);
    let cloned = actor.clone();
    cloned.tell(0).unwrap();
    drop(cloned);
    drop(actor);
    run(&mut worker);
    assert!(worker.is_dead());
    assert_eq!(*log.lock().unwrap(), vec![0]);
}

#[test]
fn test_instant_death_disgraceful() {
    let (interp, log) = recorder();
    let (actor, mut worker): (Actor<i32>, _) = Actor::disgraceful(interp);
    drop(actor);
    assert_eq!(worker.step(), Some(Observation::Closed));
    assert!(worker.is_dead());
    assert_eq!(worker.step(), None);
    assert!(log.lock().unwrap().is_empty());
}

#[test]
#[should_panic]
fn disgracefully_close() {
    let counter = CoutingIntepreter(0);
    let (actor, mut worker) = Actor::suicidal(counter);
    actor.tell(3).unwrap();
    actor.tell(5).unwrap();
    // The actor kills itself after its second message.
    actor.tell(2).unwrap();
    while worker.step_suicidal().is_some() {}
    drop(worker);
    // The actor is dead, so this fails.
    actor.tell(7).unwrap();
}
