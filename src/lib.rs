//! A fork/write/wait walkthrough as a verified state machine.
//!
//! The library decides every step of the walkthrough: which system call comes
//! next, what is printed and what is written to the shared file. A driver
//! performs the calls and feeds their results back through
//! [`session::Session::step`].
use vstd::prelude::*;

pub mod decimal;
pub mod messages;
pub mod session;
pub mod laws;
