//! A minimal actor runtime: each actor owns one worker that interprets the
//! messages of its private mailbox one at a time.
pub mod actor;
pub mod error;
pub mod interpreter;
pub mod laws;
pub mod machine;
pub mod mailbox;
