//! The lock state machine: states, events, outcomes, and the total
//! transition function, together with the `Lock` aggregate that owns the
//! current state and the stored combination.

use vstd::prelude::*;

verus! {

/// The ordered triple of numbers that opens the lock. Compared by exact
/// positional equality; the sign of a number carries no further meaning.
#[derive(Clone, Copy, PartialEq, Eq, Structural, Debug)]
pub struct Combination {
    pub first: i8,
    pub second: i8,
    pub third: i8,
}

impl Combination {
    pub fn new(first: i8, second: i8, third: i8) -> (combo: Combination)
        ensures
            combo == (Combination { first, second, third }),
    {
        Combination { first, second, third }
    }

    /// Positional equality of two combinations: the guard of the one
    /// data-dependent transition.
    pub fn matches(self, other: Combination) -> (r: bool)
        ensures
            r == (self == other),
    {
        self.first == other.first && self.second == other.second && self.third == other.third
    }
}

/// The three mutually exclusive configurations of the lock. No other
/// combination of open/closed/locked is representable ("open and locked"
/// cannot be constructed).
#[derive(Clone, Copy, PartialEq, Eq, Structural, Debug)]
pub enum LockState {
    OpenUnlocked,
    ClosedUnlocked,
    ClosedLocked,
}

/// A discrete user-requested action handed to the state machine.
#[derive(Clone, Copy, PartialEq, Eq, Structural, Debug)]
pub enum Event {
    Lock,
    Unlock(i8, i8, i8),
    Open,
    Close,
    ChangeCode(i8, i8, i8),
}

/// The explanation attached to an outcome, one variant per cell of the
/// transition table.
#[derive(Clone, Copy, PartialEq, Eq, Structural, Debug)]
pub enum Message {
    LockOpened,
    LockClosed,
    LockSecured,
    Unlocked,
    CodeChanged,
    AlreadyOpen,
    AlreadyClosed,
    AlreadyUnlocked,
    AlreadyLocked,
    MustCloseFirst,
    MustBeOpen,
    MustBeOpenAndUnlocked,
    LockedCannotOpen,
    InvalidCombination,
}

/// The result of applying an event: either the transition was taken, or it
/// was rejected and the lock is unchanged. Rejection is a normal return
/// value, never a panic or an error.
#[derive(Clone, Copy, PartialEq, Eq, Structural, Debug)]
pub enum Outcome {
    Accepted(Message),
    Rejected(Message),
}

impl Outcome {
    pub fn is_accepted(self) -> (r: bool)
        ensures
            r == (self is Accepted),
    {
        match self {
            Outcome::Accepted(_) => true,
            Outcome::Rejected(_) => false,
        }
    }

    pub fn message(self) -> (m: Message)
        ensures
            self matches Outcome::Accepted(inner) ==> m == inner,
            self matches Outcome::Rejected(inner) ==> m == inner,
    {
        match self {
            Outcome::Accepted(m) => m,
            Outcome::Rejected(m) => m,
        }
    }
}

/// The transition table of the machine: for every (state, event) pair,
/// exactly one next state, next stored combination, and outcome.
pub open spec fn transition(state: LockState, combination: Combination, event: Event) -> (
    LockState,
    Combination,
    Outcome,
) {
    match (state, event) {
        (LockState::OpenUnlocked, Event::Open) => (
            state,
            combination,
            Outcome::Rejected(Message::AlreadyOpen),
        ),
        (LockState::OpenUnlocked, Event::Close) => (
            LockState::ClosedUnlocked,
            combination,
            Outcome::Accepted(Message::LockClosed),
        ),
        (LockState::OpenUnlocked, Event::Lock) => (
            state,
            combination,
            Outcome::Rejected(Message::MustCloseFirst),
        ),
        (LockState::OpenUnlocked, Event::Unlock(_, _, _)) => (
            state,
            combination,
            Outcome::Rejected(Message::AlreadyUnlocked),
        ),
        (LockState::OpenUnlocked, Event::ChangeCode(a, b, c)) => (
            state,
            Combination { first: a, second: b, third: c },
            Outcome::Accepted(Message::CodeChanged),
        ),
        (LockState::ClosedUnlocked, Event::Open) => (
            LockState::OpenUnlocked,
            combination,
            Outcome::Accepted(Message::LockOpened),
        ),
        (LockState::ClosedUnlocked, Event::Close) => (
            state,
            combination,
            Outcome::Rejected(Message::AlreadyClosed),
        ),
        (LockState::ClosedUnlocked, Event::Lock) => (
            LockState::ClosedLocked,
            combination,
            Outcome::Accepted(Message::LockSecured),
        ),
        (LockState::ClosedUnlocked, Event::Unlock(_, _, _)) => (
            state,
            combination,
            Outcome::Rejected(Message::AlreadyUnlocked),
        ),
        (LockState::ClosedUnlocked, Event::ChangeCode(_, _, _)) => (
            state,
            combination,
            Outcome::Rejected(Message::MustBeOpen),
        ),
        (LockState::ClosedLocked, Event::Open) => (
            state,
            combination,
            Outcome::Rejected(Message::LockedCannotOpen),
        ),
        (LockState::ClosedLocked, Event::Close) => (
            state,
            combination,
            Outcome::Rejected(Message::AlreadyClosed),
        ),
        (LockState::ClosedLocked, Event::Lock) => (
            state,
            combination,
            Outcome::Rejected(Message::AlreadyLocked),
        ),
        (LockState::ClosedLocked, Event::Unlock(a, b, c)) => if combination == (Combination {
            first: a,
            second: b,
            third: c,
        }) {
            (LockState::ClosedUnlocked, combination, Outcome::Accepted(Message::Unlocked))
        } else {
            (state, combination, Outcome::Rejected(Message::InvalidCombination))
        },
        (LockState::ClosedLocked, Event::ChangeCode(_, _, _)) => (
            state,
            combination,
            Outcome::Rejected(Message::MustBeOpenAndUnlocked),
        ),
    }
}

/// One step of the machine as a pure function, keyed on the state variant.
/// Returns exactly the row of the transition table for `state`.
fn step(state: LockState, combination: Combination, event: Event) -> (r: (
    LockState,
    Combination,
    Outcome,
))
    ensures
        r == transition(state, combination, event),
{
    match state {
        LockState::OpenUnlocked => step_open_unlocked(combination, event),
        LockState::ClosedUnlocked => step_closed_unlocked(combination, event),
        LockState::ClosedLocked => step_closed_locked(combination, event),
    }
}

/// Transitions out of `OpenUnlocked`: the lock can be closed, or its
/// combination can be changed while it is open.
fn step_open_unlocked(combination: Combination, event: Event) -> (r: (
    LockState,
    Combination,
    Outcome,
))
    ensures
        r == transition(LockState::OpenUnlocked, combination, event),
{
    match event {
        Event::Close => (
            LockState::ClosedUnlocked,
            combination,
            Outcome::Accepted(Message::LockClosed),
        ),
        Event::ChangeCode(a, b, c) => (
            LockState::OpenUnlocked,
            Combination::new(a, b, c),
            Outcome::Accepted(Message::CodeChanged),
        ),
        Event::Open => (
            LockState::OpenUnlocked,
            combination,
            Outcome::Rejected(Message::AlreadyOpen),
        ),
        Event::Lock => (
            LockState::OpenUnlocked,
            combination,
            Outcome::Rejected(Message::MustCloseFirst),
        ),
        Event::Unlock(_, _, _) => (
            LockState::OpenUnlocked,
            combination,
            Outcome::Rejected(Message::AlreadyUnlocked),
        ),
    }
}

/// Transitions out of `ClosedUnlocked`: the lock can be reopened or secured.
fn step_closed_unlocked(combination: Combination, event: Event) -> (r: (
    LockState,
    Combination,
    Outcome,
))
    ensures
        r == transition(LockState::ClosedUnlocked, combination, event),
{
    match event {
        Event::Open => (LockState::OpenUnlocked, combination, Outcome::Accepted(Message::LockOpened)),
        Event::Lock => (
            LockState::ClosedLocked,
            combination,
            Outcome::Accepted(Message::LockSecured),
        ),
        Event::Close => (
            LockState::ClosedUnlocked,
            combination,
            Outcome::Rejected(Message::AlreadyClosed),
        ),
        Event::Unlock(_, _, _) => (
            LockState::ClosedUnlocked,
            combination,
            Outcome::Rejected(Message::AlreadyUnlocked),
        ),
        Event::ChangeCode(_, _, _) => (
            LockState::ClosedUnlocked,
            combination,
            Outcome::Rejected(Message::MustBeOpen),
        ),
    }
}

/// Transitions out of `ClosedLocked`: only an unlock attempt with the exact
/// stored combination is accepted.
fn step_closed_locked(combination: Combination, event: Event) -> (r: (
    LockState,
    Combination,
    Outcome,
))
    ensures
        r == transition(LockState::ClosedLocked, combination, event),
{
    match event {
        Event::Unlock(a, b, c) => unlock_attempt(combination, a, b, c),
        Event::Open => (
            LockState::ClosedLocked,
            combination,
            Outcome::Rejected(Message::LockedCannotOpen),
        ),
        Event::Close => (
            LockState::ClosedLocked,
            combination,
            Outcome::Rejected(Message::AlreadyClosed),
        ),
        Event::Lock => (
            LockState::ClosedLocked,
            combination,
            Outcome::Rejected(Message::AlreadyLocked),
        ),
        Event::ChangeCode(_, _, _) => (
            LockState::ClosedLocked,
            combination,
            Outcome::Rejected(Message::MustBeOpenAndUnlocked),
        ),
    }
}

/// The one data-dependent transition: compare the candidate triple against
/// the stored combination and unlock exactly on a positional match.
fn unlock_attempt(combination: Combination, a: i8, b: i8, c: i8) -> (r: (
    LockState,
    Combination,
    Outcome,
))
    ensures
        r == transition(LockState::ClosedLocked, combination, Event::Unlock(a, b, c)),
{
    if Combination::new(a, b, c).matches(combination) {
        (LockState::ClosedUnlocked, combination, Outcome::Accepted(Message::Unlocked))
    } else {
        (LockState::ClosedLocked, combination, Outcome::Rejected(Message::InvalidCombination))
    }
}

/// The lock itself: the current state variant plus the stored combination.
/// It is created open and unlocked and is driven in place by events.
#[derive(Debug)]
pub struct Lock {
    state: LockState,
    combination: Combination,
}

impl Lock {
    /// The current state variant, for specification purposes.
    pub closed spec fn state_spec(&self) -> LockState {
        self.state
    }

    /// The stored combination, for specification purposes.
    pub closed spec fn combination_spec(&self) -> Combination {
        self.combination
    }

    /// A new lock starts open and unlocked, holding the given combination.
    pub fn new(first: i8, second: i8, third: i8) -> (lock: Lock)
        ensures
            lock.state_spec() == LockState::OpenUnlocked,
            lock.combination_spec() == (Combination { first, second, third }),
    {
        Lock { state: LockState::OpenUnlocked, combination: Combination::new(first, second, third) }
    }

    /// Applies one event: the lock moves to the row of the transition table
    /// for its current state, and the outcome of that row is returned.
    /// Defined for every (state, event) pair; a rejected event leaves the
    /// lock exactly as it was.
    pub fn handle_event(&mut self, event: Event) -> (outcome: Outcome)
        ensures
            final(self).state_spec() == transition(
                old(self).state_spec(),
                old(self).combination_spec(),
                event,
            ).0,
            final(self).combination_spec() == transition(
                old(self).state_spec(),
                old(self).combination_spec(),
                event,
            ).1,
            outcome == transition(old(self).state_spec(), old(self).combination_spec(), event).2,
    {
        let (state, combination, outcome) = step(self.state, self.combination, event);
        self.state = state;
        self.combination = combination;
        outcome
    }

    /// The current state variant.
    pub fn state(&self) -> (state: LockState)
        ensures
            state == self.state_spec(),
    {
        self.state
    }

    /// The status of the lock, derived purely from the state variant.
    pub fn status(&self) -> (st: Status)
        ensures
            st.is_open == (self.state_spec() is OpenUnlocked),
            st.is_locked == (self.state_spec() is ClosedLocked),
            st.label@ == state_label(self.state_spec()),
    {
        Status {
            is_open: self.state.is_open(),
            is_locked: self.state.is_locked(),
            label: self.state.label(),
        }
    }
}

/// What the lock looks like from outside: whether the shackle is open,
/// whether it is secured, and the name of the state variant.
#[derive(Debug)]
pub struct Status {
    pub is_open: bool,
    pub is_locked: bool,
    pub label: String,
}

/// The human-readable name of each state variant.
pub open spec fn state_label(state: LockState) -> Seq<char> {
    match state {
        LockState::OpenUnlocked => "Unlocked and Open"@,
        LockState::ClosedUnlocked => "Unlocked and Closed"@,
        LockState::ClosedLocked => "Locked"@,
    }
}

impl LockState {
    /// The shackle is open only in `OpenUnlocked`.
    pub fn is_open(self) -> (r: bool)
        ensures
            r == (self is OpenUnlocked),
    {
        match self {
            LockState::OpenUnlocked => true,
            LockState::ClosedUnlocked => false,
            LockState::ClosedLocked => false,
        }
    }

    /// The lock is secured only in `ClosedLocked`.
    pub fn is_locked(self) -> (r: bool)
        ensures
            r == (self is ClosedLocked),
    {
        match self {
            LockState::OpenUnlocked => false,
            LockState::ClosedUnlocked => false,
            LockState::ClosedLocked => true,
        }
    }

    /// The literal name of the state variant, for diagnostics.
    pub fn label(self) -> (r: String)
        ensures
            r@ == state_label(self),
    {
        match self {
            LockState::OpenUnlocked => "Unlocked and Open".to_owned(),
            LockState::ClosedUnlocked => "Unlocked and Closed".to_owned(),
            LockState::ClosedLocked => "Locked".to_owned(),
        }
    }
}

/// The explanation text attached to each message variant.
pub open spec fn message_text(m: Message) -> Seq<char> {
    match m {
        Message::LockOpened => "lock opened"@,
        Message::LockClosed => "lock closed"@,
        Message::LockSecured => "locked"@,
        Message::Unlocked => "unlocked"@,
        Message::CodeChanged => "combination changed"@,
        Message::AlreadyOpen => "already open"@,
        Message::AlreadyClosed => "already closed"@,
        Message::AlreadyUnlocked => "already unlocked"@,
        Message::AlreadyLocked => "already locked"@,
        Message::MustCloseFirst => "must close first"@,
        Message::MustBeOpen => "must be open"@,
        Message::MustBeOpenAndUnlocked => "must be open and unlocked"@,
        Message::LockedCannotOpen => "locked, cannot open"@,
        Message::InvalidCombination => "invalid combination"@,
    }
}

impl Message {
    /// The human-readable explanation carried by this message.
    pub fn text(self) -> (r: String)
        ensures
            r@ == message_text(self),
    {
        match self {
            Message::LockOpened => "lock opened".to_owned(),
            Message::LockClosed => "lock closed".to_owned(),
            Message::LockSecured => "locked".to_owned(),
            Message::Unlocked => "unlocked".to_owned(),
            Message::CodeChanged => "combination changed".to_owned(),
            Message::AlreadyOpen => "already open".to_owned(),
            Message::AlreadyClosed => "already closed".to_owned(),
            Message::AlreadyUnlocked => "already unlocked".to_owned(),
            Message::AlreadyLocked => "already locked".to_owned(),
            Message::MustCloseFirst => "must close first".to_owned(),
            Message::MustBeOpen => "must be open".to_owned(),
            Message::MustBeOpenAndUnlocked => "must be open and unlocked".to_owned(),
            Message::LockedCannotOpen => "locked, cannot open".to_owned(),
            Message::InvalidCombination => "invalid combination".to_owned(),
        }
    }
}

/// A rejected event leaves the state and the stored combination unchanged:
/// rejection is idempotent.
pub proof fn lemma_rejection_leaves_lock_unchanged(
    state: LockState,
    combination: Combination,
    event: Event,
)
    requires
        transition(state, combination, event).2 is Rejected,
    ensures
        transition(state, combination, event).0 == state,
        transition(state, combination, event).1 == combination,
{
}

/// An unlock attempt on a locked lock succeeds if and only if the candidate
/// triple equals the stored combination in all three positions; either way
/// the stored combination is unchanged.
pub proof fn lemma_unlock_exact_match(combination: Combination, a: i8, b: i8, c: i8)
    ensures
        transition(LockState::ClosedLocked, combination, Event::Unlock(a, b, c)).2 is Accepted
            <==> (a == combination.first && b == combination.second && c == combination.third),
        transition(LockState::ClosedLocked, combination, Event::Unlock(a, b, c)).1 == combination,
{
}

/// Changing the combination succeeds if and only if the lock is open and
/// unlocked; on success the stored combination becomes exactly the given
/// triple, and on rejection it is unchanged.
pub proof fn lemma_change_code_needs_open_lock(
    state: LockState,
    combination: Combination,
    a: i8,
    b: i8,
    c: i8,
)
    ensures
        transition(state, combination, Event::ChangeCode(a, b, c)).2 is Accepted <==> state
            is OpenUnlocked,
        state is OpenUnlocked ==> transition(state, combination, Event::ChangeCode(a, b, c)).1
            == (Combination { first: a, second: b, third: c }),
        !(state is OpenUnlocked) ==> transition(state, combination, Event::ChangeCode(a, b, c)).1
            == combination,
{
}

/// The stored combination never changes except through an accepted
/// `ChangeCode` event, which only the open and unlocked state accepts.
pub proof fn lemma_combination_stability(state: LockState, combination: Combination, event: Event)
    ensures
        transition(state, combination, event).1 != combination ==> {
            &&& event is ChangeCode
            &&& state is OpenUnlocked
            &&& transition(state, combination, event).2 is Accepted
        },
{
}

} // verus!
