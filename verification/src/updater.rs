//! Pacing of the firmware upload: the body of the request is read in chunks,
//! and every fourth poll yields no chunk, so that the reader of the stream
//! never takes in the whole upload at once.

use vstd::prelude::*;

verus! {

/// How many bytes one chunk holds at most.
pub const CHUNK_SIZE: usize = 1024;

/// How many chunks are read between two polls that yield none.
pub const CHUNKS_PER_ROUND: u8 = 3;

/// What a poll of the stream is to do.
#[derive(Debug, Clone, Copy, PartialEq, Eq, Structural)]
pub enum ChunkPoll {
    /// Yield nothing this time.
    Pending,
    /// Read the next chunk from the connection.
    Read,
}

/// What a read from the connection means for the stream.
#[derive(Debug, Clone, Copy, PartialEq, Eq, Structural)]
pub enum Chunk {
    /// The connection gave nothing more: the stream ends.
    End,
    /// The first `len` bytes of the buffer are the next item.
    Data(usize),
}

/// The pacing state of an upload stream.
#[derive(Debug, Clone, Copy, PartialEq, Eq)]
pub struct StreamChunker {
    last_pending: u8,
    total_read: usize,
}

/// The mathematical value of a [`StreamChunker`].
pub struct StreamChunkerView {
    /// How many polls were answered with a read since the last one that
    /// was not.
    pub last_pending: u8,
    /// How many bytes were read in all.
    pub total_read: usize,
}

impl StreamChunkerView {
    /// What every stream satisfies: no more than three reads in a round.
    pub open spec fn wf(self) -> bool {
        self.last_pending <= CHUNKS_PER_ROUND
    }

    /// The stream after a poll, and what the poll is to do: after three
    /// reads the fourth poll yields nothing and the round starts again.
    pub open spec fn poll(self) -> (StreamChunkerView, ChunkPoll) {
        if self.last_pending >= CHUNKS_PER_ROUND {
            (StreamChunkerView { last_pending: 0, ..self }, ChunkPoll::Pending)
        } else {
            (
                StreamChunkerView { last_pending: (self.last_pending + 1) as u8, ..self },
                ChunkPoll::Read,
            )
        }
    }

    /// How many polls out of the next `polls` yield nothing.
    pub open spec fn pending_among(self, polls: nat) -> nat
        decreases polls,
    {
        if polls == 0 {
            0
        } else {
            let (next, poll) = self.poll();
            let one: nat = if poll == ChunkPoll::Pending {
                1
            } else {
                0
            };
            one + next.pending_among((polls - 1) as nat)
        }
    }
}

impl View for StreamChunker {
    type V = StreamChunkerView;

    closed spec fn view(&self) -> StreamChunkerView {
        StreamChunkerView { last_pending: self.last_pending, total_read: self.total_read }
    }
}

impl StreamChunker {
    #[verifier::type_invariant]
    spec fn valid(&self) -> bool {
        self@.wf()
    }

    /// A stream of which nothing was read yet.
    pub fn new() -> (stream: StreamChunker)
        ensures
            stream@ == (StreamChunkerView { last_pending: 0, total_read: 0 }),
    {
        StreamChunker { last_pending: 0, total_read: 0 }
    }

    /// How many bytes were read in all.
    pub fn total_read(&self) -> (total: usize)
        ensures
            total == self@.total_read,
    {
        self.total_read
    }

    /// Decides what this poll does.
    pub fn poll(&mut self) -> (poll: ChunkPoll)
        ensures
            (final(self)@, poll) == old(self)@.poll(),
            final(self)@.wf(),
    {
        proof {
            use_type_invariant(&*self);
        }
        if self.last_pending >= CHUNKS_PER_ROUND {
            self.last_pending = 0;
            ChunkPoll::Pending
        } else {
            self.last_pending = self.last_pending + 1;
            ChunkPoll::Read
        }
    }

    /// Takes in that the connection gave `read` bytes. No bytes end the
    /// stream; any other number is the length of the next item.
    pub fn record_read(&mut self, read: usize) -> (chunk: Chunk)
        requires
            old(self)@.total_read + read <= usize::MAX,
        ensures
            final(self)@ == (StreamChunkerView {
                total_read: (old(self)@.total_read + read) as usize,
                ..old(self)@
            }),
            chunk == if read == 0 {
                Chunk::End
            } else {
                Chunk::Data(read)
            },
    {
        proof {
            use_type_invariant(&*self);
        }
        self.total_read = self.total_read + read;
        if read == 0 {
            Chunk::End
        } else {
            Chunk::Data(read)
        }
    }
}

/// Of any four polls in a row exactly one yields nothing, so no more than
/// three chunks are ever read without a pause.
pub proof fn lemma_one_pause_in_four(stream: StreamChunkerView)
    requires
        stream.wf(),
    ensures
        stream.pending_among(4) == 1,
        stream.poll().0.wf(),
{
    reveal_with_fuel(StreamChunkerView::pending_among, 5);
}

} // verus!
