//! The consuming end of the bridge.
use vstd::prelude::*;

use crate::chunk::{chunk_bytes, chunk_from_vec, chunk_into_vec};
use crate::{concat, lemma_concat_push};

verus! {

#[verifier::external_type_specification]
#[verifier::external_body]
#[verifier::reject_recursive_types(T)]
pub struct ExReceiver<T>(tokio::sync::mpsc::Receiver<T>);

/// What one look at the channel found.
pub enum Arrival {
    /// The next chunk in the channel.
    Chunk(bytes::Bytes),
    /// No chunk is queued now; the writer is still there.
    Empty,
    /// No chunk is queued and the writer is gone: none will ever come again.
    Disconnected,
}

/// Relies on `tokio::sync::mpsc::Receiver::try_recv`: the next queued chunk,
/// or word that none is queued now, or that none will ever come again. The call
/// changes the channel the handle refers to, not the handle itself.
#[verifier::external_body]
pub(crate) fn take(r: &mut tokio::sync::mpsc::Receiver<bytes::Bytes>) -> (a: Arrival)
    ensures
        *final(r) == *old(r),
{
    match r.try_recv() {
        Ok(c) => Arrival::Chunk(c),
        Err(tokio::sync::mpsc::error::TryRecvError::Empty) => Arrival::Empty,
        Err(tokio::sync::mpsc::error::TryRecvError::Disconnected) => Arrival::Disconnected,
    }
}

/// What one attempt to pull the next frame came to.
pub enum FrameAttempt {
    /// The bytes of one chunk, unchanged.
    Frame(bytes::Bytes),
    /// Nothing is queued yet; the writer is still there.
    Pending,
    /// The writer is gone and everything it wrote has been handed out.
    End,
}

/// What one attempt to read into a buffer came to.
pub enum ReadAttempt {
    /// Bytes to place in the caller's buffer.
    Data(Vec<u8>),
    /// Nothing is queued yet; the writer is still there.
    Pending,
    /// The writer is gone and everything it wrote has been handed out.
    End,
}

/// The reading end of a body channel.
///
/// Chunks come out in the order they went in. A chunk that a read could not
/// take whole is kept, and the next read or frame starts with what is left of it.
pub struct BodyReader {
    receiver: tokio::sync::mpsc::Receiver<bytes::Bytes>,
    leftover: Vec<u8>,
    ended: bool,
    taken: Ghost<Seq<Seq<u8>>>,
    handed: Ghost<Seq<Seq<u8>>>,
}

impl BodyReader {
    /// The handle on the channel this reader takes chunks from.
    pub closed spec fn receiver_end(&self) -> tokio::sync::mpsc::Receiver<bytes::Bytes> {
        self.receiver
    }

    /// The chunks taken off the channel so far, in order.
    pub closed spec fn taken(&self) -> Seq<Seq<u8>> {
        self.taken@
    }

    /// The pieces handed to the consumer so far, as frames or reads, in order.
    pub closed spec fn handed(&self) -> Seq<Seq<u8>> {
        self.handed@
    }

    /// The bytes of a chunk already taken that have not been handed out yet.
    pub closed spec fn pending(&self) -> Seq<u8> {
        self.leftover@
    }

    /// Whether the end of the stream has been seen.
    pub closed spec fn is_ended(&self) -> bool {
        self.ended
    }

    /// No byte taken off the channel is lost or handed out twice.
    pub open spec fn wf(&self) -> bool {
        &&& concat(self.handed()) + self.pending() == concat(self.taken())
        &&& self.is_ended() ==> self.pending().len() == 0
    }

    /// The reader's view of the stream is the same in `self` and `other`.
    pub open spec fn same_view(&self, other: &BodyReader) -> bool {
        &&& self.taken() == other.taken()
        &&& self.handed() == other.handed()
        &&& self.pending() == other.pending()
        &&& self.is_ended() == other.is_ended()
    }

    pub(crate) fn new(receiver: tokio::sync::mpsc::Receiver<bytes::Bytes>) -> (r: BodyReader)
        ensures
            r.wf(),
            r.receiver_end() == receiver,
            r.taken() == Seq::<Seq<u8>>::empty(),
            r.handed() == Seq::<Seq<u8>>::empty(),
            r.pending() == Seq::<u8>::empty(),
            !r.is_ended(),
    {
        let r = BodyReader {
            receiver,
            leftover: Vec::new(),
            ended: false,
            taken: Ghost(Seq::empty()),
            handed: Ghost(Seq::empty()),
        };
        assert(concat(r.handed@) + r.leftover@ =~= concat(r.taken@));
        r
    }

    /// Whether the end of the stream has been seen.
    pub fn ended(&self) -> (r: bool)
        ensures
            r == self.is_ended(),
    {
        self.ended
    }

    /// Hands out the first `room` bytes of what is left of the current chunk,
    /// or all of it if less is left.
    fn hand_out(&mut self, room: usize) -> (v: Vec<u8>)
        requires
            old(self).wf(),
            !old(self).is_ended(),
        ensures
            final(self).wf(),
            final(self).receiver_end() == old(self).receiver_end(),
            !final(self).is_ended(),
            final(self).taken() == old(self).taken(),
            final(self).handed() == old(self).handed().push(v@),
            v@ + final(self).pending() == old(self).pending(),
            v@.len() == if room < old(self).pending().len() { room as int } else { old(self).pending().len() as int },
    {
        let n: usize = if room < self.leftover.len() {
            room
        } else {
            self.leftover.len()
        };
        let ghost before = self.leftover@;
        let mut head = self.leftover.split_off(n);
        std::mem::swap(&mut head, &mut self.leftover);
        proof {
            assert(head@ + self.leftover@ =~= before);
            lemma_concat_push(self.handed@, head@);
            assert(concat(self.handed@.push(head@)) + self.leftover@ =~= concat(self.handed@) + before);
        }
        self.handed = Ghost(self.handed@.push(head@));
        head
    }

    /// Puts a chunk just taken off the channel in place as what is left to hand out.
    fn receive(&mut self, b: bytes::Bytes)
        requires
            old(self).wf(),
            !old(self).is_ended(),
            old(self).pending().len() == 0,
        ensures
            final(self).wf(),
            final(self).receiver_end() == old(self).receiver_end(),
            !final(self).is_ended(),
            final(self).taken() == old(self).taken().push(chunk_bytes(b)),
            final(self).handed() == old(self).handed(),
            final(self).pending() == chunk_bytes(b),
    {
        let v = chunk_into_vec(b);
        proof {
            lemma_concat_push(self.taken@, v@);
            assert(concat(self.handed@) + v@ =~= concat(self.taken@.push(v@)));
        }
        self.taken = Ghost(self.taken@.push(v@));
        self.leftover = v;
    }

    /// Gives the next frame, given what a look at the channel found, when
    /// nothing of an earlier chunk is left: a chunk is one frame, unchanged;
    /// an empty channel is `Pending`; a disconnected one is the end, for good.
    pub fn frame_from(&mut self, a: Arrival) -> (r: FrameAttempt)
        requires
            old(self).wf(),
            !old(self).is_ended(),
            old(self).pending().len() == 0,
        ensures
            final(self).wf(),
            final(self).receiver_end() == old(self).receiver_end(),
            final(self).pending().len() == 0,
            match a {
                Arrival::Chunk(b) => (r matches FrameAttempt::Frame(f) && f == b)
                    && final(self).taken() == old(self).taken().push(chunk_bytes(b))
                    && final(self).handed() == old(self).handed().push(chunk_bytes(b))
                    && !final(self).is_ended(),
                Arrival::Empty => r is Pending && final(self).same_view(old(self)),
                Arrival::Disconnected => r is End && final(self).is_ended()
                    && final(self).taken() == old(self).taken()
                    && final(self).handed() == old(self).handed(),
            },
    {
        match a {
            Arrival::Chunk(b) => {
                proof {
                    lemma_concat_push(self.handed@, chunk_bytes(b));
                    lemma_concat_push(self.taken@, chunk_bytes(b));
                    assert(concat(self.handed@.push(chunk_bytes(b))) + self.leftover@
                        =~= concat(self.taken@.push(chunk_bytes(b))));
                }
                self.handed = Ghost(self.handed@.push(chunk_bytes(b)));
                self.taken = Ghost(self.taken@.push(chunk_bytes(b)));
                FrameAttempt::Frame(b)
            },
            Arrival::Empty => FrameAttempt::Pending,
            Arrival::Disconnected => {
                self.ended = true;
                FrameAttempt::End
            },
        }
    }

    /// Tries once, without waiting, to pull the next frame.
    ///
    /// A frame is one chunk exactly as it was written, zero-length chunks
    /// included; only what a read left of a chunk comes first. Once `End` has
    /// been returned, it is returned for good.
    pub fn try_next_frame(&mut self) -> (r: FrameAttempt)
        requires
            old(self).wf(),
        ensures
            final(self).wf(),
            final(self).receiver_end() == old(self).receiver_end(),
            old(self).is_ended() ==> r is End && final(self).same_view(old(self)),
            old(self).pending().len() > 0 ==> r is Frame,
            r matches FrameAttempt::Frame(b) ==> final(self).handed() == old(self).handed().push(chunk_bytes(b))
                && final(self).pending().len() == 0 && !final(self).is_ended(),
            r matches FrameAttempt::Frame(b) ==> if old(self).pending().len() > 0 {
                chunk_bytes(b) == old(self).pending() && final(self).taken() == old(self).taken()
            } else {
                final(self).taken() == old(self).taken().push(chunk_bytes(b))
            },
            r is Pending ==> final(self).same_view(old(self)) && !old(self).is_ended(),
            r is End ==> final(self).is_ended() && final(self).taken() == old(self).taken()
                && final(self).handed() == old(self).handed(),
    {
        if self.ended {
            return FrameAttempt::End;
        }
        if self.leftover.len() > 0 {
            let len = self.leftover.len();
            let v = self.hand_out(len);
            return FrameAttempt::Frame(chunk_from_vec(v));
        }
        let a = take(&mut self.receiver);
        self.frame_from(a)
    }

    /// Gives at most `room` bytes, given what a look at the channel found, when
    /// nothing of an earlier chunk is left: the first bytes of a chunk, keeping
    /// the rest for later (with no room, the whole chunk is kept, and an empty
    /// chunk is used up); `Pending` for an empty channel; the end, for good, for
    /// a disconnected one.
    pub fn read_from(&mut self, room: usize, a: Arrival) -> (r: ReadAttempt)
        requires
            old(self).wf(),
            !old(self).is_ended(),
            old(self).pending().len() == 0,
        ensures
            final(self).wf(),
            final(self).receiver_end() == old(self).receiver_end(),
            match a {
                Arrival::Chunk(b) => (r matches ReadAttempt::Data(v)
                    && v@ == chunk_bytes(b).take(if room < chunk_bytes(b).len() { room as int } else { chunk_bytes(b).len() as int })
                    && final(self).pending() == chunk_bytes(b).skip(v@.len() as int)
                    && final(self).handed() == old(self).handed().push(v@))
                    && final(self).taken() == old(self).taken().push(chunk_bytes(b))
                    && !final(self).is_ended(),
                Arrival::Empty => r is Pending && final(self).same_view(old(self)),
                Arrival::Disconnected => r is End && final(self).is_ended()
                    && final(self).taken() == old(self).taken()
                    && final(self).handed() == old(self).handed(),
            },
    {
        match a {
            Arrival::Chunk(b) => {
                self.receive(b);
                let v = self.hand_out(room);
                proof {
                    assert(v@ =~= chunk_bytes(b).take(v@.len() as int));
                    assert(self.leftover@ =~= chunk_bytes(b).skip(v@.len() as int));
                }
                ReadAttempt::Data(v)
            },
            Arrival::Empty => ReadAttempt::Pending,
            Arrival::Disconnected => {
                self.ended = true;
                ReadAttempt::End
            },
        }
    }

    /// Tries once, without waiting, to read at most `room` bytes.
    ///
    /// The bytes come from what is left of the last chunk taken, or else from
    /// the next chunk on the channel; what does not fit stays for the next call.
    /// An empty channel is `Pending` whatever the room. Once `End` has been
    /// returned, it is returned for good.
    pub fn try_read(&mut self, room: usize) -> (r: ReadAttempt)
        requires
            old(self).wf(),
        ensures
            final(self).wf(),
            final(self).receiver_end() == old(self).receiver_end(),
            old(self).is_ended() ==> r is End && final(self).same_view(old(self)),
            !old(self).is_ended() && old(self).pending().len() > 0 ==> r is Data,
            r matches ReadAttempt::Data(v) ==> v@.len() <= room && !final(self).is_ended()
                && (v@.len() == room || final(self).pending().len() == 0),
            r matches ReadAttempt::Data(v) ==> if old(self).pending().len() > 0 {
                final(self).handed() == old(self).handed().push(v@)
                    && v@ + final(self).pending() == old(self).pending()
                    && final(self).taken() == old(self).taken()
            } else {
                final(self).handed() == old(self).handed().push(v@)
                    && final(self).taken() == old(self).taken().push(v@ + final(self).pending())
            },
            r is Pending ==> final(self).same_view(old(self)) && !old(self).is_ended()
                && old(self).pending().len() == 0,
            r is End ==> final(self).is_ended() && final(self).taken() == old(self).taken()
                && final(self).handed() == old(self).handed() && old(self).pending().len() == 0,
    {
        if self.ended {
            return ReadAttempt::End;
        }
        if self.leftover.len() > 0 {
            return ReadAttempt::Data(self.hand_out(room));
        }
        let a = take(&mut self.receiver);
        let ghost arrived = a;
        let r = self.read_from(room, a);
        proof {
            if r is Data && arrived is Chunk {
                assert(r->Data_0@ + self.leftover@ =~= chunk_bytes(arrived->Chunk_0));
            }
        }
        r
    }
}

} // verus!
