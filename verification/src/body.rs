//! Request bodies: the bytes of a body that was read to its end, held in
//! `bytes::Bytes`, and the buffer that collects them chunk by chunk.

use vstd::prelude::*;

verus! {

/// `bytes::Bytes`: a run of bytes that is cheap to copy.
#[verifier::external_type_specification]
#[verifier::external_body]
pub struct ExBytes(bytes::Bytes);

/// `bytes::BytesMut`: a run of bytes that can grow.
#[verifier::external_type_specification]
#[verifier::external_body]
pub struct ExBytesMut(bytes::BytesMut);

/// The bytes that a `Bytes` holds.
pub uninterp spec fn bytes_of(body: bytes::Bytes) -> Seq<u8>;

/// The bytes that a `BytesMut` holds.
pub uninterp spec fn collected(buf: bytes::BytesMut) -> Seq<u8>;

/// Calls `Bytes::new`. Trusted: the result holds no byte.
#[verifier::external_body]
pub(crate) fn empty_bytes() -> (body: bytes::Bytes)
    ensures
        bytes_of(body) == Seq::<u8>::empty(),
{
    bytes::Bytes::new()
}

/// Calls `Bytes::clone`. Trusted: the copy holds the same bytes.
#[verifier::external_body]
pub(crate) fn clone_bytes(body: &bytes::Bytes) -> (copy: bytes::Bytes)
    ensures
        bytes_of(copy) == bytes_of(*body),
{
    body.clone()
}

/// Calls `BytesMut::new`. Trusted: the result holds no byte.
#[verifier::external_body]
fn empty_buffer() -> (buf: bytes::BytesMut)
    ensures
        collected(buf) == Seq::<u8>::empty(),
{
    bytes::BytesMut::new()
}

/// Calls `BytesMut::extend_from_slice`. Trusted: the chunk is appended to
/// what the buffer held.
#[verifier::external_body]
fn append_chunk(buf: &mut bytes::BytesMut, chunk: &[u8])
    ensures
        collected(*final(buf)) == collected(*old(buf)) + chunk@,
{
    buf.extend_from_slice(chunk);
}

/// Calls `BytesMut::freeze`. Trusted: the result holds what the buffer held.
#[verifier::external_body]
fn freeze_buffer(buf: bytes::BytesMut) -> (body: bytes::Bytes)
    ensures
        bytes_of(body) == collected(buf),
{
    buf.freeze()
}

/// What reading a body yields next.
#[derive(Debug)]
pub enum BodyEvent {
    /// The next chunk of the body.
    Chunk(Vec<u8>),
    /// The body has ended.
    End,
    /// The body could not be read on; the text is the failure's message.
    Failed(String),
}

/// What reading a body yields next, as a value.
pub enum BodyEventParts {
    Chunk(Seq<u8>),
    End,
    Failed(Seq<char>),
}

impl View for BodyEvent {
    type V = BodyEventParts;

    open spec fn view(&self) -> BodyEventParts {
        match self {
            BodyEvent::Chunk(c) => BodyEventParts::Chunk(c@),
            BodyEvent::End => BodyEventParts::End,
            BodyEvent::Failed(m) => BodyEventParts::Failed(m@),
        }
    }
}

/// A buffer as a value: the bytes collected so far, and whether the buffer
/// has given its result.
pub struct BufferState {
    pub collected: Seq<u8>,
    pub complete: bool,
}

/// The buffer before the first chunk.
pub open spec fn fresh_buffer() -> BufferState {
    BufferState { collected: Seq::empty(), complete: false }
}

/// The buffer after an event: a chunk is appended, the end and a failure
/// complete the buffer, and the end empties it.
pub open spec fn buffer_after(b: BufferState, event: BodyEventParts) -> BufferState {
    match event {
        BodyEventParts::Chunk(c) => BufferState { collected: b.collected + c, complete: false },
        BodyEventParts::End => BufferState { collected: Seq::empty(), complete: true },
        BodyEventParts::Failed(_) => BufferState { collected: b.collected, complete: true },
    }
}

/// What a poll answers: nothing yet after a chunk, all the bytes in order at
/// the end, the failure's message after a failure.
pub open spec fn buffer_answer(b: BufferState, event: BodyEventParts) -> Option<
    Result<Seq<u8>, Seq<char>>,
> {
    match event {
        BodyEventParts::Chunk(_) => None,
        BodyEventParts::End => Some(Ok(b.collected)),
        BodyEventParts::Failed(m) => Some(Err(m)),
    }
}

/// Whether an executable answer is the one that the rules give.
pub open spec fn answers(
    r: Option<Result<bytes::Bytes, String>>,
    expected: Option<Result<Seq<u8>, Seq<char>>>,
) -> bool {
    match r {
        None => expected.is_none(),
        Some(Ok(body)) => expected == Some(Ok::<Seq<u8>, Seq<char>>(bytes_of(body))),
        Some(Err(m)) => expected == Some(Err::<Seq<u8>, Seq<char>>(m@)),
    }
}

/// Collects the chunks of a body into one run of bytes, once.
pub struct Buffer {
    buf: bytes::BytesMut,
    complete: bool,
}

impl View for Buffer {
    type V = BufferState;

    closed spec fn view(&self) -> BufferState {
        BufferState { collected: collected(self.buf), complete: self.complete }
    }
}

impl Buffer {
    /// A buffer that has collected nothing yet.
    pub fn new() -> (b: Buffer)
        ensures
            b@ == fresh_buffer(),
    {
        Buffer { buf: empty_buffer(), complete: false }
    }

    /// Whether the buffer has given its result.
    pub fn is_complete(&self) -> (b: bool)
        ensures
            b == self@.complete,
    {
        self.complete
    }

    /// Takes the next event of the body. A chunk is appended and the answer
    /// is `None`: more is to come. The end gives all the bytes, a failure its
    /// message; after either the buffer is complete and takes no more.
    pub fn poll(&mut self, event: BodyEvent) -> (r: Option<Result<bytes::Bytes, String>>)
        requires
            !old(self)@.complete,
        ensures
            final(self)@ == buffer_after(old(self)@, event@),
            answers(r, buffer_answer(old(self)@, event@)),
    {
        match event {
            BodyEvent::Chunk(chunk) => {
                append_chunk(&mut self.buf, chunk.as_slice());
                None
            },
            BodyEvent::End => {
                let mut taken = empty_buffer();
                core::mem::swap(&mut taken, &mut self.buf);
                self.complete = true;
                Some(Ok(freeze_buffer(taken)))
            },
            BodyEvent::Failed(message) => {
                self.complete = true;
                Some(Err(message))
            },
        }
    }
}

} // verus!
