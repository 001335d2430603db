//! The course of one call, from the request to its result.
//!
//! Every call runs through the same states, in this order and never
//! backwards:
//!
//! ```text
//! Configured -> Attaching -> Dispatching -> Unmarshaling -> Succeeded | Failed
//! ```
//!
//! The call itself does nothing outside this process. It says what is to be
//! done next: attach the calling thread to the runtime, invoke the remote
//! operation, read the result object. The caller does it and reports the
//! outcome as an event, from which the call derives its next state. Where a
//! step fails, the state in which it failed decides the kind of the failure.
//! A call is used once; nothing is retried.
//!
//! A request whose arguments do not fit the signature of its operation is
//! turned down when the call begins, before the runtime is touched.

use vstd::prelude::*;
use vstd::string::StringExecFns;
use crate::document::RecursiveExtraction;
use crate::errors::{Error, ExtractResult};
use crate::metadata::Metadata;
use crate::operation::{ExtractionRequest, Operation, ResultShape};
use crate::stream::StreamReader;
use crate::unmarshal::{
    is_malformed, is_reader_result, is_recursive_result, is_status_result, is_string_result,
    reader_result, recursive_result, status_result, string_result, RawReply,
};

verus! {

/// What a successful call hands back. `H` is the handle of a remote reader.
#[derive(Debug)]
pub enum Extraction<H> {
    /// A reader over the extracted text, with the metadata.
    Stream(StreamReader<H>, Metadata),
    /// The extracted text, with the metadata.
    Text(String, Metadata),
    /// The container document and the documents embedded in it.
    Documents(RecursiveExtraction),
    /// The status that a diagnostic relays.
    Status(String),
}

/// What the caller reports back to a call.
#[derive(Debug)]
pub enum CallEvent<H> {
    /// The calling thread is attached to the runtime.
    Attached,
    /// The runtime could not be initialised.
    StartupFailed(String),
    /// The runtime is there, but the thread could not be attached to it.
    AttachFailed(String),
    /// An argument could not be built; the operation was not invoked.
    MarshalFailed(String),
    /// The engine raised an exception.
    Raised { exception: Option<String>, message: String },
    /// The operation returned a result object.
    Returned,
    /// The parts of the result object, as far as they were there.
    Read(RawReply<H>),
    /// The result object could not be read.
    Unreadable(String),
}

/// What the caller is to do next.
#[derive(Debug, Clone, Copy, PartialEq, Eq, Structural)]
pub enum CallAction {
    /// Start the call.
    Begin,
    /// Attach the calling thread to the runtime, starting the runtime if it
    /// does not run yet.
    Attach,
    /// Build the arguments and invoke the remote operation.
    Invoke,
    /// Read the parts of the result object, which should have this shape.
    Read(ResultShape),
    /// Nothing: the call is over and its result can be taken.
    Finished,
}

/// The state of a call.
#[derive(Debug)]
pub enum CallState<H> {
    Configured,
    Attaching,
    Dispatching,
    Unmarshaling,
    Succeeded(Extraction<H>),
    Failed(Error),
}

/// The message of the failure where an event arrives that the call did not
/// ask for.
pub open spec fn spec_unexpected_event_message() -> Seq<char> {
    "the call was handed an event it did not ask for"@
}

/// The message of the failure where the arguments of a request do not fit
/// the signature of its operation.
pub open spec fn spec_ill_typed_message() -> Seq<char> {
    "the arguments do not fit the signature of the operation"@
}

/// The state in which a call begins: a call that has not started goes on to
/// attach the thread if its request is well typed, and fails as not
/// marshalable if it is not; any other call stays as it is.
pub open spec fn begins<H>(well_typed: bool, state: CallState<H>, next: CallState<H>) -> bool {
    match state {
        CallState::Configured => if well_typed {
            next == CallState::<H>::Attaching
        } else {
            next matches CallState::Failed(Error::Marshal(text)) && text@
                == spec_ill_typed_message()
        },
        _ => next == state,
    }
}

impl<H> CallState<H> {
    /// How far the call has come: the states count up in their order, and
    /// the two final states share the last place.
    pub open spec fn rank(self) -> nat {
        match self {
            CallState::Configured => 0,
            CallState::Attaching => 1,
            CallState::Dispatching => 2,
            CallState::Unmarshaling => 3,
            CallState::Succeeded(_) => 4,
            CallState::Failed(_) => 4,
        }
    }

    /// The call is over.
    pub open spec fn is_finished(self) -> bool {
        self is Succeeded || self is Failed
    }

    /// What the caller is to do in this state, for a call of the given
    /// operation.
    pub open spec fn pending_action(self, operation: Operation) -> CallAction {
        match self {
            CallState::Configured => CallAction::Begin,
            CallState::Attaching => CallAction::Attach,
            CallState::Dispatching => CallAction::Invoke,
            CallState::Unmarshaling => CallAction::Read(operation.spec_shape()),
            CallState::Succeeded(_) => CallAction::Finished,
            CallState::Failed(_) => CallAction::Finished,
        }
    }

    /// The state is the failure of the given kind of malformed result.
    pub open spec fn is_malformed(self, message: Seq<char>) -> bool {
        self matches CallState::Failed(Error::Malformed(text)) && text@ == message
    }
}

/// The state is where a call of the given operation ends once the result
/// object was read: with the value that the reply yields in the shape of the
/// operation's result, or with the malformed-result failure that names what
/// is wrong with the reply. A diagnostic ends with its status alone.
pub open spec fn ends_with_reply<H>(
    operation: Operation,
    reply: RawReply<H>,
    state: CallState<H>,
) -> bool {
    if operation.spec_source() is None {
        match state {
            CallState::Succeeded(Extraction::Status(status)) => is_status_result(
                reply,
                Ok(status),
            ),
            CallState::Failed(error) => is_status_result(reply, Err(error)),
            _ => false,
        }
    } else {
        match operation.spec_shape() {
            ResultShape::Reader => match state {
                CallState::Succeeded(Extraction::Stream(reader, metadata)) => is_reader_result(
                    reply,
                    Ok((reader, metadata)),
                ),
                CallState::Failed(error) => is_reader_result(reply, Err(error)),
                _ => false,
            },
            ResultShape::Text => match state {
                CallState::Succeeded(Extraction::Text(content, metadata)) => is_string_result(
                    reply,
                    Ok((content, metadata)),
                ),
                CallState::Failed(error) => is_string_result(reply, Err(error)),
                _ => false,
            },
            ResultShape::Documents => match state {
                CallState::Succeeded(Extraction::Documents(extraction)) => is_recursive_result(
                    reply,
                    Ok(extraction),
                ),
                CallState::Failed(error) => is_recursive_result(reply, Err(error)),
                _ => false,
            },
        }
    }
}

/// The state that follows an event.
///
/// A call that is over stays as it is. While the thread is being attached,
/// success leads on to the dispatch; a runtime that does not start and a
/// thread that cannot be attached fail the call, each with its own kind of
/// failure. While the operation is being dispatched, an argument that cannot
/// be built and an exception of the engine fail the call; a returned result
/// leads on to its reading. While the result is being read, the reply
/// decides (see [`ends_with_reply`]), and a result that cannot be read is
/// malformed. Every other event fails the call.
pub open spec fn follows<H>(
    operation: Operation,
    state: CallState<H>,
    event: CallEvent<H>,
    next: CallState<H>,
) -> bool {
    match (state, event) {
        (CallState::Succeeded(_), _) => next == state,
        (CallState::Failed(_), _) => next == state,
        (CallState::Attaching, CallEvent::Attached) => next == CallState::<H>::Dispatching,
        (CallState::Attaching, CallEvent::StartupFailed(message)) => next == CallState::<
            H,
        >::Failed(Error::RuntimeStartup(message)),
        (CallState::Attaching, CallEvent::AttachFailed(message)) => next == CallState::<H>::Failed(
            Error::Attach(message),
        ),
        (CallState::Dispatching, CallEvent::MarshalFailed(message)) => next == CallState::<
            H,
        >::Failed(Error::Marshal(message)),
        (CallState::Dispatching, CallEvent::Raised { exception, message }) => next == CallState::<
            H,
        >::Failed(Error::Remote { exception, message }),
        (CallState::Dispatching, CallEvent::Returned) => next == CallState::<H>::Unmarshaling,
        (CallState::Unmarshaling, CallEvent::Read(reply)) => ends_with_reply(operation, reply, next),
        (CallState::Unmarshaling, CallEvent::Unreadable(message)) => next == CallState::<
            H,
        >::Failed(Error::Malformed(message)),
        _ => next.is_malformed(spec_unexpected_event_message()),
    }
}

/// One call: its request and how far it has come.
#[derive(Debug)]
pub struct Call<'a, H> {
    /// What the call asks of the engine; it never changes.
    pub request: ExtractionRequest<'a>,
    /// How far the call has come.
    pub state: CallState<H>,
}

impl<'a, H> Call<'a, H> {
    /// Creates the call for a request. Nothing has happened yet.
    pub fn new(request: ExtractionRequest<'a>) -> (call: Self)
        ensures
            call.request == request,
            call.state == CallState::<H>::Configured,
    {
        Call { request, state: CallState::Configured }
    }

    /// Returns what the caller is to do next.
    pub fn next_action(&self) -> (action: CallAction)
        ensures
            action == self.state.pending_action(self.request.operation),
    {
        match &self.state {
            CallState::Configured => CallAction::Begin,
            CallState::Attaching => CallAction::Attach,
            CallState::Dispatching => CallAction::Invoke,
            CallState::Unmarshaling => CallAction::Read(self.request.operation.shape()),
            CallState::Succeeded(_) => CallAction::Finished,
            CallState::Failed(_) => CallAction::Finished,
        }
    }

    /// Says whether the call is over.
    pub fn is_finished(&self) -> (finished: bool)
        ensures
            finished == self.state.is_finished(),
    {
        match &self.state {
            CallState::Succeeded(_) => true,
            CallState::Failed(_) => true,
            _ => false,
        }
    }

    /// Starts the call. A call that has not started goes on to attach the
    /// thread, unless the arguments of its request do not fit the signature
    /// of its operation: such a call fails at once. Any other call stays as
    /// it is.
    pub fn begin(self) -> (started: (Self, CallAction))
        ensures
            started.0.request == self.request,
            begins(self.request@.well_typed(), self.state, started.0.state),
            started.1 == started.0.state.pending_action(self.request.operation),
            started.0.state.rank() >= self.state.rank(),
    {
        let Call { request, state } = self;
        let state = match state {
            CallState::Configured => {
                if request.is_well_typed() {
                    CallState::Attaching
                } else {
                    CallState::Failed(
                        Error::Marshal(
                            String::from_str(
                                "the arguments do not fit the signature of the operation",
                            ),
                        ),
                    )
                }
            },
            other => other,
        };
        let call = Call { request, state };
        let action = call.next_action();
        (call, action)
    }

    /// Takes the outcome of the last action and moves the call on.
    ///
    /// The request stays the same. The state that follows is given by
    /// [`follows`]; a call never goes back to an earlier state, and a call
    /// that is not over always goes forward, so it is over after four events
    /// at most.
    pub fn step(self, event: CallEvent<H>) -> (next: (Self, CallAction))
        ensures
            next.0.request == self.request,
            follows(self.request.operation, self.state, event, next.0.state),
            next.1 == next.0.state.pending_action(self.request.operation),
            next.0.state.rank() >= self.state.rank(),
            !self.state.is_finished() ==> next.0.state.rank() > self.state.rank(),
    {
        let Call { request, state } = self;
        let state = match (state, event) {
            (CallState::Succeeded(value), _) => CallState::Succeeded(value),
            (CallState::Failed(error), _) => CallState::Failed(error),
            (CallState::Attaching, CallEvent::Attached) => CallState::Dispatching,
            (CallState::Attaching, CallEvent::StartupFailed(message)) => CallState::Failed(
                Error::RuntimeStartup(message),
            ),
            (CallState::Attaching, CallEvent::AttachFailed(message)) => CallState::Failed(
                Error::Attach(message),
            ),
            (CallState::Dispatching, CallEvent::MarshalFailed(message)) => CallState::Failed(
                Error::Marshal(message),
            ),
            (CallState::Dispatching, CallEvent::Raised { exception, message }) => CallState::Failed(
                Error::Remote { exception, message },
            ),
            (CallState::Dispatching, CallEvent::Returned) => CallState::Unmarshaling,
            (CallState::Unmarshaling, CallEvent::Read(reply)) => {
                if request.operation.source().is_none() {
                    match status_result(reply) {
                        Ok(status) => CallState::Succeeded(Extraction::Status(status)),
                        Err(error) => CallState::Failed(error),
                    }
                } else {
                    match request.operation.shape() {
                        ResultShape::Reader => match reader_result(reply) {
                            Ok(pair) => CallState::Succeeded(Extraction::Stream(pair.0, pair.1)),
                            Err(error) => CallState::Failed(error),
                        },
                        ResultShape::Text => match string_result(reply) {
                            Ok(pair) => CallState::Succeeded(Extraction::Text(pair.0, pair.1)),
                            Err(error) => CallState::Failed(error),
                        },
                        ResultShape::Documents => match recursive_result(reply) {
                            Ok(extraction) => CallState::Succeeded(
                                Extraction::Documents(extraction),
                            ),
                            Err(error) => CallState::Failed(error),
                        },
                    }
                }
            },
            (CallState::Unmarshaling, CallEvent::Unreadable(message)) => CallState::Failed(
                Error::Malformed(message),
            ),
            _ => CallState::Failed(
                Error::Malformed(String::from_str("the call was handed an event it did not ask for")),
            ),
        };
        let call = Call { request, state };
        let action = call.next_action();
        (call, action)
    }

    /// Ends the call and hands out its result: `None` while the call is not
    /// over.
    pub fn finish(self) -> (result: Option<ExtractResult<Extraction<H>>>)
        ensures
            match self.state {
                CallState::Succeeded(value) => result == Some(Ok::<Extraction<H>, Error>(value)),
                CallState::Failed(error) => result == Some(Err::<Extraction<H>, Error>(error)),
                _ => result is None,
            },
    {
        match self.state {
            CallState::Succeeded(value) => Some(Ok(value)),
            CallState::Failed(error) => Some(Err(error)),
            _ => None,
        }
    }
}

/// A call never goes back: whatever the events, the state that follows one
/// is no earlier than the state before it, and a call that is over stays as
/// it ended.
pub proof fn call_never_goes_back<H>(
    operation: Operation,
    state: CallState<H>,
    event: CallEvent<H>,
    next: CallState<H>,
)
    requires
        follows(operation, state, event, next),
    ensures
        next.rank() >= state.rank(),
        state.is_finished() ==> next == state,
        !state.is_finished() ==> next.rank() > state.rank(),
{
}

/// A call ends in failure with the kind that belongs to the step that
/// failed: a runtime that does not start, a thread that cannot be attached,
/// an argument that cannot be built and an exception of the engine each have
/// their own kind, and the message is kept as it was reported.
pub proof fn failure_kind_follows_step<H>(
    operation: Operation,
    state: CallState<H>,
    event: CallEvent<H>,
    next: CallState<H>,
)
    requires
        follows(operation, state, event, next),
    ensures
        state is Attaching && event is StartupFailed ==> next == CallState::<H>::Failed(
            Error::RuntimeStartup(event->StartupFailed_0),
        ),
        state is Attaching && event is AttachFailed ==> next == CallState::<H>::Failed(
            Error::Attach(event->AttachFailed_0),
        ),
        state is Dispatching && event is MarshalFailed ==> next == CallState::<H>::Failed(
            Error::Marshal(event->MarshalFailed_0),
        ),
        state is Dispatching && event is Raised ==> next == CallState::<H>::Failed(
            Error::Remote { exception: event->exception, message: event->message },
        ),
        state is Unmarshaling && event is Unreadable ==> next == CallState::<H>::Failed(
            Error::Malformed(event->Unreadable_0),
        ),
{
}

/// A recursive extraction that succeeds holds its container: the result has
/// at least one document, as many as the reply had.
pub proof fn successful_recursion_has_container<H>(
    operation: Operation,
    reply: RawReply<H>,
    next: CallState<H>,
)
    requires
        operation.spec_source() is Some,
        operation.spec_shape() == ResultShape::Documents,
        ends_with_reply(operation, reply, next),
        next is Succeeded,
    ensures
        next->Succeeded_0 is Documents,
        next->Succeeded_0->Documents_0.has_container(),
        next->Succeeded_0->Documents_0.documents@.len() >= 1,
        next->Succeeded_0->Documents_0.documents@.len() == reply->Documents_documents->0@.len(),
{
}

} // verus!
