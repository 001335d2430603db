//! A remote, pull-based reader as a local blocking byte source.
//!
//! A [`StreamReader`] owns the handle of a reader that lives in the embedded
//! runtime. It decides how each `read` proceeds; the caller carries the
//! decisions out and reports what the runtime answered:
//!
//! 1. [`StreamReader::begin_read`] says how many bytes to ask the remote
//!    reader for, and whether a larger transfer buffer has to be allocated
//!    first.
//! 2. The runtime answers with a count, which goes to
//!    [`StreamReader::advance_read`]. A count of -1 is the end of the stream.
//! 3. For a count of at least 1, `advance_read` asks for that many bytes,
//!    copies them to the front of the caller's buffer and ends the read.
//!
//! Every read asks the remote reader exactly once, for as many bytes as the
//! caller's buffer holds: nothing is read ahead and nothing is kept between
//! reads. The handle has no synchronisation of its own and must not be read
//! from two threads at once.

use vstd::prelude::*;
use vstd::string::StringExecFns;
use crate::errors::Error;

verus! {

/// The size of the first transfer buffer, and the size that callers are
/// advised to read with.
pub const DEFAULT_BUF_SIZE: usize = 32768;

/// The largest number of bytes that one remote read can be asked for.
pub const MAX_READ_LENGTH: usize = 2147483647;

/// Where a read stands.
#[derive(Debug, Clone, Copy, PartialEq, Eq, Structural)]
pub enum ReadPhase {
    /// No read is under way.
    Idle,
    /// The remote reader was asked for up to `length` bytes.
    AwaitingCount { length: usize },
    /// The remote reader announced `count` bytes, which are being fetched.
    AwaitingBytes { count: usize },
}

/// What a read asks of the runtime first.
#[derive(Debug, Clone, Copy, PartialEq, Eq, Structural)]
pub struct ReadRequest {
    /// The number of bytes to ask the remote reader for.
    pub length: i32,
    /// The size of the transfer buffer to allocate before the call, where
    /// the present one is too small.
    pub allocate: Option<i32>,
}

/// What the runtime answered.
#[derive(Debug, Clone, PartialEq, Eq)]
pub enum ReadEvent {
    /// The remote reader returned this count.
    Count(i32),
    /// The bytes that were fetched from the transfer buffer.
    Bytes(Vec<u8>),
    /// The remote side raised an exception with this message.
    Raised(String),
}

/// The mathematical value of an answer.
pub enum ReadEventView {
    Count(i32),
    Bytes(Seq<u8>),
    Raised(Seq<char>),
}

impl View for ReadEvent {
    type V = ReadEventView;

    open spec fn view(&self) -> ReadEventView {
        match self {
            ReadEvent::Count(count) => ReadEventView::Count(*count),
            ReadEvent::Bytes(bytes) => ReadEventView::Bytes(bytes@),
            ReadEvent::Raised(message) => ReadEventView::Raised(message@),
        }
    }
}

/// How a read goes on after an answer.
#[derive(Debug, PartialEq, Eq)]
pub enum ReadStep {
    /// Fetch the first `count` bytes of the transfer buffer.
    Fetch { count: usize },
    /// The read has ended with this result.
    Done(Result<usize, Error>),
}

/// The mathematical value of a step.
pub enum ReadStepView {
    /// Fetch this many bytes.
    Fetch(usize),
    /// The read ended and filled this many bytes; 0 is the end of the
    /// stream.
    Filled(usize),
    /// The read failed with a stream error that carries this message.
    Failed(Seq<char>),
    /// No read ends in any other kind of error.
    Other,
}

impl View for ReadStep {
    type V = ReadStepView;

    open spec fn view(&self) -> ReadStepView {
        match self {
            ReadStep::Fetch { count } => ReadStepView::Fetch(*count),
            ReadStep::Done(Ok(filled)) => ReadStepView::Filled(*filled),
            ReadStep::Done(Err(Error::StreamIo(message))) => ReadStepView::Failed(message@),
            ReadStep::Done(Err(_)) => ReadStepView::Other,
        }
    }
}

/// The message of the failure where the remote reader returns a count that
/// is neither -1 nor within the request.
pub open spec fn spec_bad_count_message() -> Seq<char> {
    "the remote reader returned a count outside the request"@
}

/// The message of the failure where the bytes fetched are not as many as
/// announced, or more than the buffer holds.
pub open spec fn spec_bad_transfer_message() -> Seq<char> {
    "the bytes fetched do not match the count announced"@
}

/// The message of the failure where an answer arrives that the read did not
/// ask for.
pub open spec fn spec_unexpected_event_message() -> Seq<char> {
    "the read was handed an answer it did not ask for"@
}

/// The number of bytes that a read into a buffer of `buf_len` bytes asks
/// for: the length of the buffer, as far as one remote read can take it.
pub open spec fn spec_request_length(buf_len: usize) -> usize {
    if buf_len <= MAX_READ_LENGTH {
        buf_len
    } else {
        MAX_READ_LENGTH
    }
}

/// The size of the transfer buffer to allocate before asking for `length`
/// bytes, given the size of the present one: the first buffer has at least
/// the default size, and a later one is allocated only where the present
/// one is too small, with just the length needed.
pub open spec fn spec_allocation(capacity: usize, length: usize) -> Option<usize> {
    if capacity == 0 {
        if length <= DEFAULT_BUF_SIZE {
            Some(DEFAULT_BUF_SIZE)
        } else {
            Some(length)
        }
    } else if length > capacity {
        Some(length)
    } else {
        None
    }
}

/// The step that follows an answer, and the phase the read is in after it.
///
/// While the count is awaited: -1 and 0 end the read with nothing filled, a
/// count within the request is fetched, any other count fails the read.
/// While the bytes are awaited: they end the read if they are as many as
/// announced and fit the buffer, and fail it otherwise. An exception fails
/// the read with its message. Any other answer fails the read.
pub open spec fn spec_advance(phase: ReadPhase, buf_len: usize, event: ReadEventView) -> (
    ReadPhase,
    ReadStepView,
) {
    match (phase, event) {
        (ReadPhase::AwaitingCount { length }, ReadEventView::Count(count)) => {
            if count == -1 || count == 0 {
                (ReadPhase::Idle, ReadStepView::Filled(0))
            } else if 1 <= count <= length {
                (
                    ReadPhase::AwaitingBytes { count: count as usize },
                    ReadStepView::Fetch(count as usize),
                )
            } else {
                (ReadPhase::Idle, ReadStepView::Failed(spec_bad_count_message()))
            }
        },
        (ReadPhase::AwaitingBytes { count }, ReadEventView::Bytes(bytes)) => {
            if bytes.len() == count && count <= buf_len {
                (ReadPhase::Idle, ReadStepView::Filled(count))
            } else {
                (ReadPhase::Idle, ReadStepView::Failed(spec_bad_transfer_message()))
            }
        },
        (ReadPhase::AwaitingCount { .. }, ReadEventView::Raised(message)) => (
            ReadPhase::Idle,
            ReadStepView::Failed(message),
        ),
        (ReadPhase::AwaitingBytes { .. }, ReadEventView::Raised(message)) => (
            ReadPhase::Idle,
            ReadStepView::Failed(message),
        ),
        _ => (ReadPhase::Idle, ReadStepView::Failed(spec_unexpected_event_message())),
    }
}

/// What is in the caller's buffer after an answer: the bytes fetched at the
/// front where they end the read, the buffer as it was in every other case.
pub open spec fn spec_buffer_after(
    phase: ReadPhase,
    buffer: Seq<u8>,
    event: ReadEventView,
) -> Seq<u8> {
    match (phase, event) {
        (ReadPhase::AwaitingBytes { count }, ReadEventView::Bytes(bytes)) => {
            if bytes.len() == count && count <= buffer.len() {
                bytes + buffer.skip(count as int)
            } else {
                buffer
            }
        },
        _ => buffer,
    }
}

/// A local reader over a remote stream, generic over the handle that names
/// the remote reader.
#[derive(Debug)]
pub struct StreamReader<H> {
    handle: H,
    capacity: usize,
    phase: ReadPhase,
}

impl<H> StreamReader<H> {
    #[verifier::type_invariant]
    spec fn within_limits(self) -> bool {
        &&& self.capacity <= MAX_READ_LENGTH
        &&& match self.phase {
            ReadPhase::Idle => true,
            ReadPhase::AwaitingCount { length } => length <= MAX_READ_LENGTH,
            ReadPhase::AwaitingBytes { count } => 1 <= count <= MAX_READ_LENGTH,
        }
    }

    /// The handle of the remote reader.
    pub closed spec fn spec_handle(&self) -> H {
        self.handle
    }

    /// The size of the transfer buffer; 0 while there is none.
    pub closed spec fn spec_capacity(&self) -> usize {
        self.capacity
    }

    /// Where the current read stands.
    pub closed spec fn spec_phase(&self) -> ReadPhase {
        self.phase
    }

    /// Wraps the handle of a remote reader. No transfer buffer exists yet.
    pub fn new(handle: H) -> (reader: Self)
        ensures
            reader.spec_handle() == handle,
            reader.spec_capacity() == 0,
            reader.spec_phase() == ReadPhase::Idle,
    {
        StreamReader { handle, capacity: 0, phase: ReadPhase::Idle }
    }

    /// Returns the handle of the remote reader.
    pub fn handle(&self) -> (handle: &H)
        ensures
            *handle == self.spec_handle(),
    {
        &self.handle
    }

    /// Gives up the reader and returns the handle.
    pub fn into_handle(self) -> (handle: H)
        ensures
            handle == self.spec_handle(),
    {
        self.handle
    }

    /// Returns the size of the transfer buffer, 0 while there is none.
    pub fn capacity(&self) -> (capacity: usize)
        ensures
            capacity == self.spec_capacity(),
            capacity <= MAX_READ_LENGTH,
    {
        proof {
            use_type_invariant(self);
        }
        self.capacity
    }

    /// Returns where the current read stands.
    pub fn phase(&self) -> (phase: ReadPhase)
        ensures
            phase == self.spec_phase(),
    {
        self.phase
    }

    /// Starts a read into a buffer of `buf_len` bytes: says how many bytes
    /// to ask the remote reader for and whether to allocate a transfer
    /// buffer first. A read that was under way is given up.
    pub fn begin_read(&mut self, buf_len: usize) -> (request: ReadRequest)
        ensures
            request.length == spec_request_length(buf_len),
            match spec_allocation(old(self).spec_capacity(), spec_request_length(buf_len)) {
                Some(size) => request.allocate == Some(size as i32) && final(self).spec_capacity()
                    == size,
                None => request.allocate is None && final(self).spec_capacity() == old(
                    self,
                ).spec_capacity(),
            },
            final(self).spec_capacity() >= spec_request_length(buf_len),
            final(self).spec_phase() == (ReadPhase::AwaitingCount {
                length: spec_request_length(buf_len),
            }),
            final(self).spec_handle() == old(self).spec_handle(),
    {
        proof {
            use_type_invariant(&*self);
        }
        let length: usize = if buf_len <= MAX_READ_LENGTH {
            buf_len
        } else {
            MAX_READ_LENGTH
        };
        let allocation: Option<usize> = if self.capacity == 0 {
            if length <= DEFAULT_BUF_SIZE {
                Some(DEFAULT_BUF_SIZE)
            } else {
                Some(length)
            }
        } else if length > self.capacity {
            Some(length)
        } else {
            None
        };
        let allocate: Option<i32> = match allocation {
            Some(size) => {
                self.capacity = size;
                Some(size as i32)
            },
            None => None,
        };
        self.phase = ReadPhase::AwaitingCount { length };
        ReadRequest { length: length as i32, allocate }
    }

    /// Takes what the runtime answered and says how the read goes on. Where
    /// the answer is the bytes that were announced, they are copied to the
    /// front of `buf` and the read ends.
    pub fn advance_read(&mut self, buf: &mut [u8], event: ReadEvent) -> (step: ReadStep)
        ensures
            step@ == spec_advance(old(self).spec_phase(), old(buf)@.len() as usize, event@).1,
            final(self).spec_phase() == spec_advance(
                old(self).spec_phase(),
                old(buf)@.len() as usize,
                event@,
            ).0,
            final(buf)@ == spec_buffer_after(old(self).spec_phase(), old(buf)@, event@),
            final(buf)@.len() == old(buf)@.len(),
            final(self).spec_capacity() == old(self).spec_capacity(),
            final(self).spec_handle() == old(self).spec_handle(),
    {
        proof {
            use_type_invariant(&*self);
        }
        let phase = self.phase;
        self.phase = ReadPhase::Idle;
        match (phase, event) {
            (ReadPhase::AwaitingCount { length }, ReadEvent::Count(count)) => {
                if count == -1 || count == 0 {
                    ReadStep::Done(Ok(0))
                } else if count >= 1 && count as usize <= length {
                    self.phase = ReadPhase::AwaitingBytes { count: count as usize };
                    ReadStep::Fetch { count: count as usize }
                } else {
                    ReadStep::Done(
                        Err(
                            Error::StreamIo(
                                String::from_str(
                                    "the remote reader returned a count outside the request",
                                ),
                            ),
                        ),
                    )
                }
            },
            (ReadPhase::AwaitingBytes { count }, ReadEvent::Bytes(bytes)) => {
                if bytes.len() == count && count <= buf.len() {
                    let mut at: usize = 0;
                    while at < count
                        invariant
                            at <= count,
                            count == bytes@.len(),
                            count <= buf@.len(),
                            buf@.len() == old(buf)@.len(),
                            buf@ =~= bytes@.take(at as int) + old(buf)@.skip(at as int),
                        decreases count - at,
                    {
                        buf[at] = bytes[at];
                        at += 1;
                    }
                    ReadStep::Done(Ok(count))
                } else {
                    ReadStep::Done(
                        Err(
                            Error::StreamIo(
                                String::from_str(
                                    "the bytes fetched do not match the count announced",
                                ),
                            ),
                        ),
                    )
                }
            },
            (ReadPhase::AwaitingCount { .. }, ReadEvent::Raised(message)) => ReadStep::Done(
                Err(Error::StreamIo(message)),
            ),
            (ReadPhase::AwaitingBytes { .. }, ReadEvent::Raised(message)) => ReadStep::Done(
                Err(Error::StreamIo(message)),
            ),
            _ => ReadStep::Done(
                Err(
                    Error::StreamIo(
                        String::from_str("the read was handed an answer it did not ask for"),
                    ),
                ),
            ),
        }
    }
}

/// What a well-behaved remote reader may answer when it is asked for up to
/// `length` bytes, at least one, and `remaining` is what it has left to
/// deliver: -1 once nothing is left, and otherwise a count of at least one
/// byte and no more than was asked for or is left.
pub open spec fn conforming_count(remaining: Seq<u8>, length: usize, count: i32) -> bool {
    if remaining.len() == 0 {
        count == -1
    } else {
        1 <= count <= length && count <= remaining.len()
    }
}

/// One read asks the remote reader once: an answer never leads to a second
/// request for a count, and the read is over after two answers at most, the
/// count and the bytes.
pub proof fn read_asks_once(
    phase: ReadPhase,
    buf_len: usize,
    first: ReadEventView,
    second: ReadEventView,
)
    ensures
        !(spec_advance(phase, buf_len, first).0 is AwaitingCount),
        spec_advance(spec_advance(phase, buf_len, first).0, buf_len, second).0 == ReadPhase::Idle,
{
}

/// A read never fills more than the caller's buffer holds, and never more
/// than it asked the remote reader for.
pub proof fn read_fills_within_buffer(buf_len: usize, phase: ReadPhase, event: ReadEventView)
    requires
        phase matches ReadPhase::AwaitingCount { length } ==> length == spec_request_length(
            buf_len,
        ),
    ensures
        spec_advance(phase, buf_len, event).1 matches ReadStepView::Filled(filled) ==> filled
            <= buf_len,
        spec_advance(phase, buf_len, event).1 matches ReadStepView::Fetch(count) ==> 1 <= count
            <= buf_len,
{
}

/// Against a well-behaved remote reader, one read delivers the next bytes of
/// the stream and nothing else: the count is fetched as announced, the bytes
/// land at the front of the buffer, and what was delivered followed by what
/// is left afterwards is what was left before.
pub proof fn read_delivers_next_bytes(
    remaining: Seq<u8>,
    buffer: Seq<u8>,
    count: i32,
)
    requires
        1 <= buffer.len() <= usize::MAX,
        remaining.len() > 0,
        conforming_count(remaining, spec_request_length(buffer.len() as usize), count),
    ensures
        ({
            let buf_len = buffer.len() as usize;
            let asked = ReadPhase::AwaitingCount { length: spec_request_length(buf_len) };
            let announced = spec_advance(asked, buf_len, ReadEventView::Count(count));
            let delivered = remaining.take(count as int);
            let fetched = spec_advance(announced.0, buf_len, ReadEventView::Bytes(delivered));
            let filled = spec_buffer_after(announced.0, buffer, ReadEventView::Bytes(delivered));
            &&& announced.1 == ReadStepView::Fetch(count as usize)
            &&& fetched == (ReadPhase::Idle, ReadStepView::Filled(count as usize))
            &&& filled.take(count as int) == delivered
            &&& filled.len() == buffer.len()
            &&& delivered + remaining.skip(count as int) == remaining
        }),
{
}

/// Against a well-behaved remote reader, a read ends with nothing filled
/// exactly when the stream has nothing left; reading on after that ends the
/// same way every time.
pub proof fn read_ends_at_end_of_stream(remaining: Seq<u8>, buf_len: usize, count: i32)
    requires
        buf_len >= 1,
        conforming_count(remaining, spec_request_length(buf_len), count),
    ensures
        ({
            let asked = ReadPhase::AwaitingCount { length: spec_request_length(buf_len) };
            let announced = spec_advance(asked, buf_len, ReadEventView::Count(count));
            (announced == (ReadPhase::Idle, ReadStepView::Filled(0))) <==> remaining.len() == 0
        }),
{
}

/// What a well-behaved remote reader answers over a whole run of reads
/// through a buffer of `buf_len` bytes, while `remaining` is what it has
/// left: every count is one that [`conforming_count`] allows for what is
/// left at that point, and the run ends with the first -1.
pub open spec fn conforming_run(remaining: Seq<u8>, buf_len: usize, counts: Seq<i32>) -> bool
    decreases counts.len(),
{
    &&& counts.len() >= 1
    &&& conforming_count(remaining, spec_request_length(buf_len), counts[0])
    &&& if remaining.len() == 0 {
        counts.len() == 1
    } else {
        conforming_run(remaining.skip(counts[0] as int), buf_len, counts.drop_first())
    }
}

/// The bytes that a run of reads fills into the caller's buffer, one read
/// after another, where the remote reader answers the given counts and
/// delivers the bytes it has left in their order. The second part says
/// whether the run ended as it should: every read but the last filled what
/// was announced, and the last met the end of the stream.
pub open spec fn filled_by_run(remaining: Seq<u8>, buf_len: usize, counts: Seq<i32>) -> (
    Seq<u8>,
    bool,
)
    decreases counts.len(),
{
    if counts.len() == 0 {
        (Seq::empty(), false)
    } else {
        let asked = ReadPhase::AwaitingCount { length: spec_request_length(buf_len) };
        let announced = spec_advance(asked, buf_len, ReadEventView::Count(counts[0]));
        match announced.1 {
            ReadStepView::Filled(_) => (Seq::empty(), counts.len() == 1),
            ReadStepView::Fetch(count) => {
                let delivered = remaining.take(count as int);
                let fetched = spec_advance(announced.0, buf_len, ReadEventView::Bytes(delivered));
                let rest = filled_by_run(
                    remaining.skip(count as int),
                    buf_len,
                    counts.drop_first(),
                );
                (delivered + rest.0, fetched.1 == ReadStepView::Filled(count) && rest.1)
            },
            _ => (Seq::empty(), false),
        }
    }
}

/// Reading a well-behaved remote reader to the end of its stream yields the
/// content of the stream, byte for byte: whatever the size of the buffer and
/// however the remote reader cuts the content into pieces, the bytes that
/// the reads fill, one after another, are the content, and the run ends
/// with the one read that meets the end of the stream.
pub proof fn reads_yield_the_content(content: Seq<u8>, buf_len: usize, counts: Seq<i32>)
    requires
        buf_len >= 1,
        conforming_run(content, buf_len, counts),
    ensures
        filled_by_run(content, buf_len, counts) == (content, true),
        counts.last() == -1,
        forall|i: int| 0 <= i < counts.len() - 1 ==> 1 <= #[trigger] counts[i] <= buf_len,
    decreases counts.len(),
{
    if content.len() > 0 {
        let count = counts[0];
        let rest = counts.drop_first();
        reads_yield_the_content(content.skip(count as int), buf_len, rest);
        read_delivers_next_bytes(content, Seq::new(buf_len as nat, |i: int| 0u8), count);
        assert forall|i: int| 0 <= i < counts.len() - 1 implies 1 <= #[trigger] counts[i]
            <= buf_len by {
            if i > 0 {
                assert(counts[i] == rest[i - 1]);
            }
        }
    }
}

/// Through a buffer of one byte, the end of a stream of `n` bytes is met
/// after exactly `n` reads that filled one byte each: a well-behaved remote
/// reader answers `n` times with a count of 1 and then with -1.
pub proof fn single_byte_reads_count(content: Seq<u8>, counts: Seq<i32>)
    requires
        conforming_run(content, 1, counts),
    ensures
        counts.len() == content.len() + 1,
        forall|i: int| 0 <= i < content.len() ==> #[trigger] counts[i] == 1,
        counts[content.len() as int] == -1,
    decreases counts.len(),
{
    if content.len() > 0 {
        let rest = counts.drop_first();
        single_byte_reads_count(content.skip(1), rest);
        assert forall|i: int| 0 <= i < content.len() implies #[trigger] counts[i] == 1 by {
            if i > 0 {
                assert(counts[i] == rest[i - 1]);
            }
        }
    }
}

} // verus!
