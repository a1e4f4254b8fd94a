//! A bounded bridge that carries a byte stream from a writer to a body reader.
use vstd::prelude::*;

pub mod body_reader;
pub mod body_writer;
pub mod chunk;

pub use crate::body_reader::BodyReader;
pub use crate::body_writer::BodyWriter;

use crate::body_writer::sender_bound;

verus! {

/// The largest number of chunks a channel can be made to hold.
pub const MAX_CAPACITY: usize = usize::MAX / 8;

/// The error type of the frames a [`BodyReader`] yields. The bridge itself
/// never produces it: a writer that goes away ends the stream cleanly.
#[derive(Debug, Clone, Copy, PartialEq, Eq, Structural)]
pub struct BodyIoError;

impl BodyIoError {
    /// The error's text.
    pub fn message(&self) -> (r: String)
        ensures
            r@ == "BodyIoError"@,
    {
        "BodyIoError".to_owned()
    }
}

/// Whether a sender and a receiver are the two ends of one channel.
pub uninterp spec fn connected(
    s: tokio::sync::mpsc::Sender<bytes::Bytes>,
    r: tokio::sync::mpsc::Receiver<bytes::Bytes>,
) -> bool;

/// Relies on `tokio::sync::mpsc::channel`: a connected sender and receiver
/// of one new channel, which holds at most `buffer` messages. It panics on a `buffer` of 0
/// or above the semaphore's `MAX_PERMITS`, `usize::MAX >> 3`, which is
/// `usize::MAX / 8`.
#[verifier::external_body]
fn open_channel(buffer: usize) -> (r: (
    tokio::sync::mpsc::Sender<bytes::Bytes>,
    tokio::sync::mpsc::Receiver<bytes::Bytes>,
))
    requires
        0 < buffer <= MAX_CAPACITY,
    ensures
        sender_bound(r.0) == buffer,
        connected(r.0, r.1),
{
    tokio::sync::mpsc::channel(buffer)
}

/// Makes a reader and a writer on one new channel, which holds at most
/// `capacity` chunks that have not been read.
///
/// A capacity of zero is a configuration error, not a condition to recover
/// from: it is ruled out by the precondition.
pub fn channel_with_capacity(capacity: usize) -> (r: (BodyReader, BodyWriter))
    requires
        0 < capacity <= MAX_CAPACITY,
    ensures
        r.0.wf(),
        r.0.taken() == Seq::<Seq<u8>>::empty(),
        r.0.handed() == Seq::<Seq<u8>>::empty(),
        r.0.pending() == Seq::<u8>::empty(),
        !r.0.is_ended(),
        r.1.sent() == Seq::<Seq<u8>>::empty(),
        !r.1.is_broken(),
        r.1.bound() == capacity,
        r.1.pairs_with(&r.0),
{
    let (tx, rx) = open_channel(capacity);
    (BodyReader::new(rx), BodyWriter::new(tx))
}

/// Makes a reader and a writer on one new channel, which holds one chunk at a time.
pub fn channel() -> (r: (BodyReader, BodyWriter))
    ensures
        r.0.wf(),
        r.0.taken() == Seq::<Seq<u8>>::empty(),
        r.0.handed() == Seq::<Seq<u8>>::empty(),
        r.0.pending() == Seq::<u8>::empty(),
        !r.0.is_ended(),
        r.1.sent() == Seq::<Seq<u8>>::empty(),
        !r.1.is_broken(),
        r.1.bound() == 1,
        r.1.pairs_with(&r.0),
{
    channel_with_capacity(1)
}

/// The bytes of a sequence of chunks, one after the other.
pub open spec fn concat(s: Seq<Seq<u8>>) -> Seq<u8>
    decreases s.len(),
{
    if s.len() == 0 {
        Seq::empty()
    } else {
        concat(s.drop_last()) + s.last()
    }
}

/// Appending a chunk appends its bytes.
pub proof fn lemma_concat_push(s: Seq<Seq<u8>>, c: Seq<u8>)
    ensures
        concat(s.push(c)) == concat(s) + c,
{
    assert(s.push(c).drop_last() =~= s);
}

/// Once a reader has seen the end of the stream, it has handed out exactly the
/// bytes of the chunks it took off the channel: none lost, none twice.
pub proof fn lemma_ended_reader_handed_everything(r: BodyReader)
    requires
        r.wf(),
        r.is_ended(),
    ensures
        concat(r.handed()) == concat(r.taken()),
{
    assert(concat(r.handed()) + r.pending() =~= concat(r.handed()));
}

} // verus!
