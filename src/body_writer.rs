//! The producing end of the bridge.
use vstd::prelude::*;

use crate::body_reader::BodyReader;
use crate::chunk::{chunk_bytes, chunk_from_slice};
use crate::connected;

verus! {

#[verifier::external_type_specification]
#[verifier::external_body]
#[verifier::reject_recursive_types(T)]
pub struct ExSender<T>(tokio::sync::mpsc::Sender<T>);

/// The number of chunks that the channel behind a sender can hold at once.
pub uninterp spec fn sender_bound(s: tokio::sync::mpsc::Sender<bytes::Bytes>) -> nat;

/// What the channel did with a chunk offered to it.
#[derive(Debug, Clone, Copy, PartialEq, Eq, Structural)]
pub enum Delivery {
    /// The chunk is queued for the reader.
    Queued,
    /// The channel holds as many chunks as it can; the chunk was refused.
    Full,
    /// The reader is gone; the chunk was refused.
    Closed,
}

/// Relies on `tokio::sync::mpsc::Sender::try_send`: the chunk is queued at
/// once, or refused because the channel is full or its receiver is gone.
#[verifier::external_body]
pub(crate) fn offer(s: &tokio::sync::mpsc::Sender<bytes::Bytes>, c: bytes::Bytes) -> (r: Delivery) {
    match s.try_send(c) {
        Ok(()) => Delivery::Queued,
        Err(tokio::sync::mpsc::error::TrySendError::Full(_)) => Delivery::Full,
        Err(tokio::sync::mpsc::error::TrySendError::Closed(_)) => Delivery::Closed,
    }
}

/// Relies on `tokio::sync::mpsc::Sender::max_capacity`: the bound the channel was made with.
#[verifier::external_body]
pub(crate) fn bound_of(s: &tokio::sync::mpsc::Sender<bytes::Bytes>) -> (r: usize)
    ensures
        r == sender_bound(*s),
{
    s.max_capacity()
}

/// Why a write was not accepted.
#[derive(Debug, Clone, Copy, PartialEq, Eq, Structural)]
pub enum TryWriteError {
    /// The channel holds as many chunks as it can; the write may be tried again.
    Full,
    /// The reader has gone away; no later write can succeed.
    BrokenPipe,
}

/// The writing end of a body channel.
///
/// Every write becomes exactly one chunk, accepted whole or not at all.
/// Dropping the writer is what tells the reader that the stream has ended.
pub struct BodyWriter {
    sender: tokio::sync::mpsc::Sender<bytes::Bytes>,
    broken: bool,
    sent: Ghost<Seq<Seq<u8>>>,
}

impl BodyWriter {
    /// The chunks recorded as queued so far, in the order they were written.
    pub closed spec fn sent(&self) -> Seq<Seq<u8>> {
        self.sent@
    }

    /// Whether a write has found the reader gone.
    pub closed spec fn is_broken(&self) -> bool {
        self.broken
    }

    /// The handle on the channel this writer puts chunks into.
    pub closed spec fn sender_end(&self) -> tokio::sync::mpsc::Sender<bytes::Bytes> {
        self.sender
    }

    /// The number of chunks the channel can hold un-read.
    pub open spec fn bound(&self) -> nat {
        sender_bound(self.sender_end())
    }

    /// This writer feeds the channel that `r` reads from.
    pub open spec fn pairs_with(&self, r: &BodyReader) -> bool {
        connected(self.sender_end(), r.receiver_end())
    }

    pub(crate) fn new(sender: tokio::sync::mpsc::Sender<bytes::Bytes>) -> (w: BodyWriter)
        ensures
            w.sent() == Seq::<Seq<u8>>::empty(),
            !w.is_broken(),
            w.sender_end() == sender,
    {
        BodyWriter { sender, broken: false, sent: Ghost(Seq::empty()) }
    }

    /// The number of chunks the channel can hold before a write has to wait.
    pub fn max_capacity(&self) -> (r: usize)
        ensures
            r == self.bound(),
    {
        bound_of(&self.sender)
    }

    /// Whether a write has found the reader gone.
    pub fn broken(&self) -> (r: bool)
        ensures
            r == self.is_broken(),
    {
        self.broken
    }

    /// Records what the channel did with a chunk holding `offered`, `n` bytes
    /// written, and gives the write's result.
    fn record(&mut self, offered: Ghost<Seq<u8>>, n: usize, d: Delivery) -> (r: Result<usize, TryWriteError>)
        ensures
            final(self).sender_end() == old(self).sender_end(),
            old(self).is_broken() ==> r == Err::<usize, TryWriteError>(TryWriteError::BrokenPipe)
                && final(self).sent() == old(self).sent() && final(self).is_broken(),
            !old(self).is_broken() ==> match d {
                Delivery::Queued => r == Ok::<usize, TryWriteError>(n)
                    && final(self).sent() == old(self).sent().push(offered@) && !final(self).is_broken(),
                Delivery::Full => r == Err::<usize, TryWriteError>(TryWriteError::Full)
                    && final(self).sent() == old(self).sent() && !final(self).is_broken(),
                Delivery::Closed => r == Err::<usize, TryWriteError>(TryWriteError::BrokenPipe)
                    && final(self).sent() == old(self).sent() && final(self).is_broken(),
            },
    {
        if self.broken {
            return Err(TryWriteError::BrokenPipe);
        }
        match d {
            Delivery::Queued => {
                self.sent = Ghost(self.sent@.push(offered@));
                Ok(n)
            },
            Delivery::Full => Err(TryWriteError::Full),
            Delivery::Closed => {
                self.broken = true;
                Err(TryWriteError::BrokenPipe)
            },
        }
    }

    /// Records what the channel did with the chunk `buf` and gives the write's result.
    ///
    /// A queued chunk is a write of the whole of `buf`. A full channel leaves the
    /// writer as it was. A closed one breaks the writer for good: once broken,
    /// every write is a broken pipe, whatever the channel says.
    pub fn settle(&mut self, buf: &[u8], d: Delivery) -> (r: Result<usize, TryWriteError>)
        ensures
            final(self).sender_end() == old(self).sender_end(),
            old(self).is_broken() ==> r == Err::<usize, TryWriteError>(TryWriteError::BrokenPipe)
                && final(self).sent() == old(self).sent() && final(self).is_broken(),
            !old(self).is_broken() ==> match d {
                Delivery::Queued => r == Ok::<usize, TryWriteError>(buf.len())
                    && final(self).sent() == old(self).sent().push(buf@) && !final(self).is_broken(),
                Delivery::Full => r == Err::<usize, TryWriteError>(TryWriteError::Full)
                    && final(self).sent() == old(self).sent() && !final(self).is_broken(),
                Delivery::Closed => r == Err::<usize, TryWriteError>(TryWriteError::BrokenPipe)
                    && final(self).sent() == old(self).sent() && final(self).is_broken(),
            },
    {
        self.record(Ghost(buf@), buf.len(), d)
    }

    /// Tries once to hand `buf` to the reader as one chunk, without waiting.
    ///
    /// On success the whole of `buf` was taken and its length is returned.
    /// `Full` leaves the writer as it was, so the caller may wait and try again.
    /// Once `BrokenPipe` has been returned, every later write returns it too.
    pub fn try_write(&mut self, buf: &[u8]) -> (r: Result<usize, TryWriteError>)
        ensures
            final(self).sender_end() == old(self).sender_end(),
            old(self).is_broken() ==> r == Err::<usize, TryWriteError>(TryWriteError::BrokenPipe),
            r matches Ok(n) ==> n == buf@.len() && final(self).sent() == old(self).sent().push(buf@)
                && !final(self).is_broken(),
            r == Err::<usize, TryWriteError>(TryWriteError::Full) ==> final(self).sent() == old(self).sent()
                && final(self).is_broken() == old(self).is_broken() && !old(self).is_broken(),
            r == Err::<usize, TryWriteError>(TryWriteError::BrokenPipe) ==> final(self).sent() == old(self).sent()
                && final(self).is_broken(),
    {
        if self.broken {
            return Err(TryWriteError::BrokenPipe);
        }
        let c = chunk_from_slice(buf);
        let ghost offered = chunk_bytes(c);
        let d = offer(&self.sender, c);
        self.record(Ghost(offered), buf.len(), d)
    }

    /// Makes everything written so far visible to the reader: there is no
    /// buffer besides the channel, so this does nothing.
    pub fn flush(&mut self) -> (r: Result<(), TryWriteError>)
        ensures
            r == Ok::<(), TryWriteError>(()),
            *final(self) == *old(self),
    {
        Ok(())
    }
}

} // verus!
