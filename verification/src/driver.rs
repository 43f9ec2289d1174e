//! Handlers for the command lines that carry a combination: they parse the
//! value tokens and, when parsing succeeds, forward the corresponding event
//! to the lock. A parse failure is returned to the caller and never reaches
//! the state machine.

use vstd::prelude::*;

use crate::lock::Combination;
use crate::lock::Event;
use crate::lock::Lock;
use crate::lock::LockState;
use crate::lock::Outcome;
use crate::lock::transition;
use crate::parse::ParseError;
use crate::parse::combo_parse;
use crate::parse::parse_combo;
use crate::parse::token_views;

verus! {

/// Builds a new lock from a tokenized `new` command line: open and
/// unlocked, with the given combination if the line carries a well-formed
/// one, and with the default combination of three zeros otherwise.
pub fn new_lock_from_line(line: &Vec<String>) -> (lock: Lock)
    ensures
        lock.state_spec() == LockState::OpenUnlocked,
        lock.combination_spec() == (match combo_parse(token_views(line@)) {
            Ok(combo) => combo,
            Err(_) => Combination { first: 0, second: 0, third: 0 },
        }),
{
    match parse_combo(line) {
        Ok(combo) => Lock::new(combo.first, combo.second, combo.third),
        Err(_) => Lock::new(0, 0, 0),
    }
}

/// Handles a tokenized `set` command line: on a well-formed combination the
/// lock receives a `ChangeCode` event and its outcome is returned; on a
/// parse failure the error is returned and the lock is untouched.
pub fn set_combination_from_line(lock: &mut Lock, line: &Vec<String>) -> (r: Result<
    Outcome,
    ParseError,
>)
    ensures
        (match combo_parse(token_views(line@)) {
            Ok(combo) => {
                let t = transition(
                    old(lock).state_spec(),
                    old(lock).combination_spec(),
                    Event::ChangeCode(combo.first, combo.second, combo.third),
                );
                &&& final(lock).state_spec() == t.0
                &&& final(lock).combination_spec() == t.1
                &&& r == Ok::<Outcome, ParseError>(t.2)
            },
            Err(e) => {
                &&& final(lock).state_spec() == old(lock).state_spec()
                &&& final(lock).combination_spec() == old(lock).combination_spec()
                &&& r == Err::<Outcome, ParseError>(e)
            },
        }),
{
    match parse_combo(line) {
        Ok(combo) => Ok(
            lock.handle_event(Event::ChangeCode(combo.first, combo.second, combo.third)),
        ),
        Err(e) => Err(e),
    }
}

/// Handles a tokenized `unlock` command line: on a well-formed combination
/// the lock receives an `Unlock` event and its outcome is returned; on a
/// parse failure the error is returned and the lock is untouched.
pub fn unlock_from_line(lock: &mut Lock, line: &Vec<String>) -> (r: Result<Outcome, ParseError>)
    ensures
        (match combo_parse(token_views(line@)) {
            Ok(combo) => {
                let t = transition(
                    old(lock).state_spec(),
                    old(lock).combination_spec(),
                    Event::Unlock(combo.first, combo.second, combo.third),
                );
                &&& final(lock).state_spec() == t.0
                &&& final(lock).combination_spec() == t.1
                &&& r == Ok::<Outcome, ParseError>(t.2)
            },
            Err(e) => {
                &&& final(lock).state_spec() == old(lock).state_spec()
                &&& final(lock).combination_spec() == old(lock).combination_spec()
                &&& r == Err::<Outcome, ParseError>(e)
            },
        }),
{
    match parse_combo(line) {
        Ok(combo) => Ok(lock.handle_event(Event::Unlock(combo.first, combo.second, combo.third))),
        Err(e) => Err(e),
    }
}

} // verus!
