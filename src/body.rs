use vstd::prelude::*;
use crate::transport::TransportError;

verus! {

/// The bytes of `chunks` joined in order.
pub open spec fn flatten(chunks: Seq<Seq<u8>>) -> Seq<u8>
    decreases chunks.len(),
{
    if chunks.len() == 0 {
        Seq::empty()
    } else {
        flatten(chunks.drop_last()) + chunks.last()
    }
}

/// Joining two runs of chunks one after the other gives their two joins one
/// after the other: arrival order is kept byte for byte.
pub proof fn lemma_flatten_append(a: Seq<Seq<u8>>, b: Seq<Seq<u8>>)
    ensures
        flatten(a + b) == flatten(a) + flatten(b),
    decreases b.len(),
{
    if b.len() == 0 {
        assert(a + b =~= a);
        assert(flatten(a) + flatten(b) =~= flatten(a));
    } else {
        lemma_flatten_append(a, b.drop_last());
        assert((a + b).drop_last() =~= a + b.drop_last());
        assert(flatten(a) + (flatten(b.drop_last()) + b.last()) =~= (flatten(a) + flatten(
            b.drop_last(),
        )) + b.last());
    }
}

/// What reading the next chunk of a response body gave.
pub enum ChunkEvent {
    /// A chunk of bytes arrived.
    Data(Vec<u8>),
    /// The body has ended.
    End,
    /// Reading failed.
    Failed,
}

/// Where the reading of a body stands.
#[derive(Debug, Clone, Copy, PartialEq, Eq, Structural)]
pub enum BodyStatus {
    /// More chunks are awaited.
    Reading,
    /// The body ended; the buffer holds all of it.
    Complete,
    /// A chunk could not be read; the body is lost.
    Aborted,
}

/// Buffers a response body chunk by chunk, so that the response is only ever
/// handed on whole.
pub struct BodyReader {
    buf: Vec<u8>,
    status: BodyStatus,
    chunks: Ghost<Seq<Seq<u8>>>,
}

impl BodyReader {
    /// The chunks received so far, in arrival order.
    pub closed spec fn chunks(&self) -> Seq<Seq<u8>> {
        self.chunks@
    }

    pub closed spec fn status_spec(&self) -> BodyStatus {
        self.status
    }

    /// The buffer always holds the received chunks joined in order.
    pub closed spec fn wf(&self) -> bool {
        self.buf@ == flatten(self.chunks@)
    }

    pub fn new() -> (r: BodyReader)
        ensures
            r.wf(),
            r.chunks() == Seq::<Seq<u8>>::empty(),
            r.status_spec() == BodyStatus::Reading,
    {
        BodyReader { buf: Vec::new(), status: BodyStatus::Reading, chunks: Ghost(Seq::empty()) }
    }

    pub fn status(&self) -> (r: BodyStatus)
        ensures
            r == self.status_spec(),
    {
        self.status
    }

    /// Takes in what reading the next chunk gave, and says whether to read on.
    pub fn feed(&mut self, event: ChunkEvent) -> (r: BodyStatus)
        requires
            old(self).wf(),
            old(self).status_spec() == BodyStatus::Reading,
        ensures
            final(self).wf(),
            r == final(self).status_spec(),
            match event {
                ChunkEvent::Data(c) => {
                    &&& r == BodyStatus::Reading
                    &&& final(self).chunks() == old(self).chunks().push(c@)
                },
                ChunkEvent::End => {
                    &&& r == BodyStatus::Complete
                    &&& final(self).chunks() == old(self).chunks()
                },
                ChunkEvent::Failed => {
                    &&& r == BodyStatus::Aborted
                    &&& final(self).chunks() == old(self).chunks()
                },
            },
    {
        match event {
            ChunkEvent::Data(c) => {
                let mut c = c;
                let ghost old_chunks = self.chunks@;
                let ghost piece = c@;
                self.buf.append(&mut c);
                self.chunks = Ghost(old_chunks.push(piece));
                proof {
                    assert(self.chunks@.drop_last() =~= old_chunks);
                }
                BodyStatus::Reading
            },
            ChunkEvent::End => {
                self.status = BodyStatus::Complete;
                BodyStatus::Complete
            },
            ChunkEvent::Failed => {
                self.status = BodyStatus::Aborted;
                BodyStatus::Aborted
            },
        }
    }

    /// The whole body once it ended; `BodyRead` if reading failed or has not
    /// finished.
    pub fn into_body(self) -> (r: Result<Vec<u8>, TransportError>)
        requires
            self.wf(),
        ensures
            self.status_spec() == BodyStatus::Complete <==> r is Ok,
            r matches Ok(b) ==> b@ == flatten(self.chunks()),
            r is Err ==> r == Err::<Vec<u8>, TransportError>(TransportError::BodyRead),
    {
        match self.status {
            BodyStatus::Complete => Ok(self.buf),
            _ => Err(TransportError::BodyRead),
        }
    }
}

} // verus!
