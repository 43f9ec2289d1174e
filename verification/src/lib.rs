//! A verified finite-state machine modeling a mechanical combination lock.
//!
//! The lock is always in one of three states: open and unlocked, closed and
//! unlocked, or closed and locked. Events (open, close, lock, unlock with a
//! candidate combination, change the combination) drive transitions between
//! those states; an event that is not allowed in the current state is
//! rejected and leaves the lock unchanged.

pub mod driver;
pub mod lock;
pub mod parse;
