//! One direction of the byte relay, as a state machine over read events.
//!
//! The caller runs the loop: it reads up to [`RELAY_BUFFER_SIZE`] bytes
//! from its source, hands the outcome to [`RelayDirection::on_read`], and
//! performs the returned action — write the bytes onward, or stop and
//! close. The machine carries the whole stream in ghost state, so the
//! round-trip law — every byte read is forwarded unaltered and in order,
//! however the stream was chunked — is stated and proved here once and
//! holds of every run of the loop.

use vstd::prelude::*;

verus! {

/// How many bytes one read may return at most.
pub const RELAY_BUFFER_SIZE: usize = 1024;

/// The outcome of one read from the source socket: the bytes it
/// returned (none at all meaning a clean end of stream), or a read
/// error.
pub enum ReadEvent {
    Data(Vec<u8>),
    Failed,
}

/// What the caller must do next: write these bytes to the sink, or stop
/// the loop and close both sockets.
pub enum RelayAction {
    Forward(Vec<u8>),
    Stop,
}

/// The concatenation of a sequence of chunks.
pub open spec fn relay_stream(chunks: Seq<Seq<u8>>) -> Seq<u8>
    decreases chunks.len(),
{
    if chunks.len() == 0 {
        Seq::empty()
    } else {
        relay_stream(chunks.drop_last()) + chunks.last()
    }
}

/// One relay direction: whether it has ended, and — in ghost state — the
/// data chunks read so far and the bytes forwarded so far.
pub struct RelayDirection {
    done: bool,
    chunks: Ghost<Seq<Seq<u8>>>,
    forwarded: Ghost<Seq<u8>>,
}

impl RelayDirection {
    /// True when this direction has ended: its loop must not read again.
    pub closed spec fn spec_done(&self) -> bool {
        self.done
    }

    /// The data chunks the reads returned so far, in order.
    pub closed spec fn chunks_read(&self) -> Seq<Seq<u8>> {
        self.chunks@
    }

    /// The bytes this direction has told its caller to write, in order.
    pub closed spec fn stream_forwarded(&self) -> Seq<u8> {
        self.forwarded@
    }

    /// The relay round-trip law: the bytes forwarded are exactly the
    /// concatenation of the chunks read — unaltered, in order, whatever
    /// the chunk sizes were. It holds of a fresh direction and every
    /// step keeps it.
    pub open spec fn stream_matches_reads(&self) -> bool {
        self.stream_forwarded() == relay_stream(self.chunks_read())
    }

    /// A direction that has read and forwarded nothing yet.
    pub fn new() -> (d: RelayDirection)
        ensures
            !d.spec_done(),
            d.chunks_read() == Seq::<Seq<u8>>::empty(),
            d.stream_forwarded() == Seq::<u8>::empty(),
            d.stream_matches_reads(),
    {
        RelayDirection { done: false, chunks: Ghost(Seq::empty()), forwarded: Ghost(Seq::empty()) }
    }

    /// True when this direction has ended.
    pub fn is_done(&self) -> (r: bool)
        ensures
            r == self.spec_done(),
    {
        self.done
    }

    /// Advances the direction by one read outcome.
    ///
    /// Bytes are forwarded exactly as read; a read of no bytes is the
    /// clean end of the stream and a read error is the routine end of a
    /// proxied session — both stop the loop, and the caller then closes
    /// both sockets so the opposite direction cannot block forever.
    pub fn on_read(&mut self, event: ReadEvent) -> (action: RelayAction)
        requires
            !old(self).spec_done(),
        ensures
            event matches ReadEvent::Data(d) ==> (if d@.len() > 0 {
                &&& action == RelayAction::Forward(d)
                &&& !final(self).spec_done()
                &&& final(self).chunks_read() == old(self).chunks_read().push(d@)
                &&& final(self).stream_forwarded() == old(self).stream_forwarded() + d@
            } else {
                &&& action == RelayAction::Stop
                &&& final(self).spec_done()
                &&& final(self).chunks_read() == old(self).chunks_read()
                &&& final(self).stream_forwarded() == old(self).stream_forwarded()
            }),
            event is Failed ==> {
                &&& action == RelayAction::Stop
                &&& final(self).spec_done()
                &&& final(self).chunks_read() == old(self).chunks_read()
                &&& final(self).stream_forwarded() == old(self).stream_forwarded()
            },
            old(self).stream_matches_reads() ==> final(self).stream_matches_reads(),
    {
        match event {
            ReadEvent::Data(d) => {
                if d.len() == 0 {
                    self.done = true;
                    RelayAction::Stop
                } else {
                    let ghost old_chunks = self.chunks@;
                    self.chunks = Ghost(self.chunks@.push(d@));
                    self.forwarded = Ghost(self.forwarded@ + d@);
                    proof {
                        assert(self.chunks@.drop_last() =~= old_chunks);
                        assert(self.chunks@.last() == d@);
                    }
                    RelayAction::Forward(d)
                }
            },
            ReadEvent::Failed => {
                self.done = true;
                RelayAction::Stop
            },
        }
    }

    /// Ends the direction after the sink refused a write: the loop stops
    /// and the caller closes both sockets.
    pub fn on_write_error(&mut self)
        ensures
            final(self).spec_done(),
            final(self).chunks_read() == old(self).chunks_read(),
            final(self).stream_forwarded() == old(self).stream_forwarded(),
            old(self).stream_matches_reads() ==> final(self).stream_matches_reads(),
    {
        self.done = true;
    }
}

/// The two directions of one proxied connection. The relay stage is over
/// only when both have ended; the caller then closes both sockets.
pub struct RelayPair {
    pub client_to_upstream: RelayDirection,
    pub upstream_to_client: RelayDirection,
}

impl RelayPair {
    /// A pair of fresh directions.
    pub fn new() -> (p: RelayPair)
        ensures
            !p.client_to_upstream.spec_done(),
            !p.upstream_to_client.spec_done(),
            p.client_to_upstream.stream_matches_reads(),
            p.upstream_to_client.stream_matches_reads(),
    {
        RelayPair { client_to_upstream: RelayDirection::new(), upstream_to_client: RelayDirection::new() }
    }

    /// True when both directions have ended and the sockets are to be
    /// closed.
    pub fn finished(&self) -> (r: bool)
        ensures
            r == (self.client_to_upstream.spec_done() && self.upstream_to_client.spec_done()),
    {
        self.client_to_upstream.is_done() && self.upstream_to_client.is_done()
    }
}

} // verus!
