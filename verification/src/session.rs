//! The life of the embedded runtime.
//!
//! A process has one runtime. It is started on the first call that needs it
//! and never torn down: the runtime cannot be started a second time. A start
//! that fails is final; every later call is refused with the message of that
//! failure.
//!
//! A [`Session`] holds what is known of the runtime and decides what a call
//! has to do before it can attach its thread. The caller keeps the one
//! session of the process behind a lock and holds the lock from the decision
//! until the start has been reported, so that two first calls cannot both
//! start the runtime.

use vstd::prelude::*;

verus! {

/// What is known of the runtime.
#[derive(Debug, Clone, PartialEq, Eq)]
pub enum Session {
    /// No call has needed the runtime yet.
    NotStarted,
    /// The runtime runs.
    Running,
    /// The runtime failed to start, with this message.
    Broken(String),
}

/// What a call has to do before it attaches its thread.
#[derive(Debug, Clone, Copy, PartialEq, Eq, Structural)]
pub enum SessionAction {
    /// Start the runtime, then report how that went.
    Start,
    /// Use the runtime that runs.
    Reuse,
    /// Give up: the runtime failed to start and cannot be started again.
    Refuse,
}

impl Session {
    /// The action for a call that finds the session in this state.
    pub open spec fn spec_action(self) -> SessionAction {
        match self {
            Session::NotStarted => SessionAction::Start,
            Session::Running => SessionAction::Reuse,
            Session::Broken(_) => SessionAction::Refuse,
        }
    }

    /// The session after a start was reported: a session that was not
    /// started runs after a success and is broken after a failure; any other
    /// session stays as it is.
    pub open spec fn spec_started(self, outcome: Result<(), String>) -> Session {
        match self {
            Session::NotStarted => match outcome {
                Ok(_) => Session::Running,
                Err(message) => Session::Broken(message),
            },
            _ => self,
        }
    }

    /// Creates the session of a process in which nothing has run yet.
    pub fn new() -> (session: Self)
        ensures
            session == Session::NotStarted,
    {
        Session::NotStarted
    }

    /// Returns what a call has to do before it attaches its thread.
    pub fn on_attach(&self) -> (action: SessionAction)
        ensures
            action == self.spec_action(),
    {
        match self {
            Session::NotStarted => SessionAction::Start,
            Session::Running => SessionAction::Reuse,
            Session::Broken(_) => SessionAction::Refuse,
        }
    }

    /// Takes the report of a start and returns the session after it.
    pub fn started(self, outcome: Result<(), String>) -> (session: Self)
        ensures
            session == self.spec_started(outcome),
    {
        match self {
            Session::NotStarted => match outcome {
                Ok(_) => Session::Running,
                Err(message) => Session::Broken(message),
            },
            other => other,
        }
    }

    /// Returns the message of the failed start, `None` for a session that is
    /// not broken.
    pub fn failure(&self) -> (message: Option<&String>)
        ensures
            match self {
                Session::Broken(text) => message == Some(text),
                _ => message is None,
            },
    {
        match self {
            Session::Broken(text) => Some(text),
            _ => None,
        }
    }
}

/// The session after a sequence of reported starts.
pub open spec fn after_starts(session: Session, outcomes: Seq<Result<(), String>>) -> Session
    decreases outcomes.len(),
{
    if outcomes.len() == 0 {
        session
    } else {
        after_starts(session, outcomes.drop_last()).spec_started(outcomes.last())
    }
}

/// The runtime is started at most once: once a start was reported, whether
/// it succeeded or failed, no call is ever told to start the runtime again,
/// and the session stays what that first report made it.
pub proof fn started_at_most_once(session: Session, outcomes: Seq<Result<(), String>>)
    requires
        outcomes.len() >= 1,
    ensures
        after_starts(session, outcomes).spec_action() != SessionAction::Start,
        after_starts(session, outcomes) == session.spec_started(outcomes[0]),
    decreases outcomes.len(),
{
    if outcomes.len() == 1 {
        assert(outcomes.drop_last().len() == 0);
        assert(after_starts(session, outcomes.drop_last()) == session);
    } else {
        started_at_most_once(session, outcomes.drop_last());
        assert(outcomes.drop_last()[0] == outcomes[0]);
    }
}

} // verus!
