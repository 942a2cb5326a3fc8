//! The behaviour that callers plug into an actor, invoked once per message.
use vstd::prelude::*;

verus! {

/// A stateful interpreter of messages that never asks to terminate.
pub trait Interpreter<M> {
    fn interpret(&mut self, message: M);
}

/// A stateful interpreter of messages that may ask, after any message, that
/// its actor terminate at once.
pub trait SuicidalInterpreter<M> {
    /// Interprets `message`; returns whether the actor has to terminate now.
    fn process(&mut self, message: M) -> bool;
}

/// Counts the messages it receives and asks to terminate after every second one.
pub struct CoutingIntepreter(pub u32);

impl CoutingIntepreter {
    /// Counts one more message, wrapping past `u32::MAX`; returns whether the
    /// count is now even.
    pub fn tick(&mut self) -> (even: bool)
        ensures
            final(self).0 == (old(self).0 + 1) % 0x1_0000_0000,
            even == (final(self).0 % 2 == 0),
    {
        self.0 = self.0.wrapping_add(1);
        self.0 % 2 == 0
    }
}

impl SuicidalInterpreter<u32> for CoutingIntepreter {
    fn process(&mut self, _message: u32) -> bool {
        self.tick()
    }
}

} // verus!
