use vstd::prelude::*;

verus! {

/// The bytes of a stream's chunks, one after the other.
pub open spec fn concat_chunks(chunks: Seq<Seq<u8>>) -> Seq<u8>
    decreases chunks.len(),
{
    if chunks.len() == 0 {
        Seq::empty()
    } else {
        concat_chunks(chunks.drop_last()) + chunks.last()
    }
}

/// `s` cut down to at most `n` bytes.
pub open spec fn bounded(s: Seq<u8>, n: nat) -> Seq<u8> {
    if s.len() <= n {
        s
    } else {
        s.take(n as int)
    }
}

/// How a body that stopped short of its declared length ended: with a
/// transport error, or cleanly.
pub open spec fn short_body_error(stream_failed: bool) -> BodyError {
    if stream_failed {
        BodyError::StreamReadFailure
    } else {
        BodyError::BodyShorterThanDeclared
    }
}

/// What a body of `declared` bytes materializes to from a stream that
/// yields `chunks` and then ends, with a transport error where
/// `stream_failed`: its first `declared` bytes, if the stream holds as many.
pub open spec fn materialized(declared: nat, chunks: Seq<Seq<u8>>, stream_failed: bool) -> Result<
    Seq<u8>,
    BodyError,
> {
    if concat_chunks(chunks).len() >= declared {
        Ok(concat_chunks(chunks).take(declared as int))
    } else {
        Err(short_body_error(stream_failed))
    }
}

/// Why a body could not be materialized.
#[derive(Debug, Clone, Copy, PartialEq, Eq, Structural)]
pub enum BodyError {
    /// The stream ended before the declared number of bytes arrived.
    BodyShorterThanDeclared,
    /// The stream failed at the transport level before the body was complete.
    StreamReadFailure,
}

/// Collects a body chunk by chunk, never holding more than the declared
/// number of bytes.
pub struct BodyAccumulator {
    declared: usize,
    buffer: Vec<u8>,
}

impl BodyAccumulator {
    pub closed spec fn declared(&self) -> nat {
        self.declared as nat
    }

    /// The bytes collected so far.
    pub closed spec fn collected(&self) -> Seq<u8> {
        self.buffer@
    }

    pub open spec fn wf(&self) -> bool {
        self.collected().len() <= self.declared()
    }

    pub open spec fn complete(&self) -> bool {
        self.collected().len() == self.declared()
    }

    /// An empty accumulator for a body of `declared` bytes.
    pub fn new(declared: usize) -> (r: BodyAccumulator)
        ensures
            r.wf(),
            r.declared() == declared,
            r.collected() == Seq::<u8>::empty(),
    {
        BodyAccumulator { declared, buffer: Vec::new() }
    }

    /// Whether all the declared bytes have arrived.
    pub fn is_complete(&self) -> (r: bool)
        requires
            self.wf(),
        ensures
            r == self.complete(),
    {
        self.buffer.len() == self.declared
    }

    /// Adds the bytes of one chunk, dropping any beyond the declared length.
    pub fn push_chunk(&mut self, chunk: &[u8])
        requires
            old(self).wf(),
        ensures
            final(self).wf(),
            final(self).declared() == old(self).declared(),
            final(self).collected() == bounded(old(self).collected() + chunk@, old(self).declared()),
    {
        let ghost start = self.buffer@;
        let ghost declared = self.declared;
        let mut j: usize = 0;
        while j < chunk.len() && self.buffer.len() < self.declared
            invariant
                self.declared == declared,
                j <= chunk@.len(),
                start.len() <= self.declared,
                self.buffer@ == start + chunk@.take(j as int),
                self.buffer@.len() <= self.declared,
            decreases chunk@.len() - j,
        {
            self.buffer.push(chunk[j]);
            assert(chunk@.take(j + 1) =~= chunk@.take(j as int).push(chunk@[j as int]));
            j += 1;
        }
        let ghost all = start + chunk@;
        if j == chunk.len() {
            assert(chunk@.take(j as int) =~= chunk@);
        } else {
            assert(self.buffer@ =~= all.take(self.declared as int));
        }
    }

    /// The collected body, if every declared byte arrived; otherwise the
    /// way the stream ended, a transport error where `stream_failed`.
    pub fn finish(self, stream_failed: bool) -> (r: Result<Vec<u8>, BodyError>)
        requires
            self.wf(),
        ensures
            match r {
                Ok(v) => self.complete() && v@ == self.collected(),
                Err(e) => !self.complete() && e == short_body_error(stream_failed),
            },
    {
        if self.buffer.len() == self.declared {
            Ok(self.buffer)
        } else if stream_failed {
            Err(BodyError::StreamReadFailure)
        } else {
            Err(BodyError::BodyShorterThanDeclared)
        }
    }
}

/// A body stream whose chunks are known in advance, read front to back;
/// after the last chunk it ends cleanly or with a transport error.
pub struct BodyChunks {
    chunks: Vec<Vec<u8>>,
    position: usize,
    fails: bool,
}

impl BodyChunks {
    /// Every chunk of the stream, read or not.
    pub closed spec fn chunks(&self) -> Seq<Seq<u8>> {
        self.chunks@.map_values(|c: Vec<u8>| c@)
    }

    /// How many chunks have been read.
    pub closed spec fn position(&self) -> nat {
        self.position as nat
    }

    /// Whether the stream ends with a transport error after its chunks.
    pub closed spec fn ends_with_failure(&self) -> bool {
        self.fails
    }

    pub open spec fn wf(&self) -> bool {
        self.position() <= self.chunks().len()
    }

    /// The chunks not read yet.
    pub open spec fn remaining(&self) -> Seq<Seq<u8>> {
        self.chunks().subrange(self.position() as int, self.chunks().len() as int)
    }

    /// A stream that yields `chunks` in order, then ends cleanly.
    pub fn new(chunks: Vec<Vec<u8>>) -> (r: BodyChunks)
        ensures
            r.wf(),
            r.position() == 0,
            r.chunks() == chunks@.map_values(|c: Vec<u8>| c@),
            !r.ends_with_failure(),
    {
        BodyChunks { chunks, position: 0, fails: false }
    }

    /// A stream that yields `chunks` in order, then fails.
    pub fn failing(chunks: Vec<Vec<u8>>) -> (r: BodyChunks)
        ensures
            r.wf(),
            r.position() == 0,
            r.chunks() == chunks@.map_values(|c: Vec<u8>| c@),
            r.ends_with_failure(),
    {
        BodyChunks { chunks, position: 0, fails: true }
    }

    /// How many chunks have been read.
    pub fn chunks_read(&self) -> (r: usize)
        ensures
            r == self.position(),
    {
        self.position
    }
}

/// The bytes of the first `k` chunks are a prefix of the bytes of all of them.
proof fn lemma_concat_prefix(chunks: Seq<Seq<u8>>, k: int)
    requires
        0 <= k <= chunks.len(),
    ensures
        concat_chunks(chunks.take(k)).len() <= concat_chunks(chunks).len(),
        concat_chunks(chunks.take(k)) == concat_chunks(chunks).take(
            concat_chunks(chunks.take(k)).len() as int,
        ),
    decreases chunks.len() - k,
{
    if k == chunks.len() {
        assert(chunks.take(k) =~= chunks);
        assert(concat_chunks(chunks) =~= concat_chunks(chunks).take(concat_chunks(chunks).len() as int));
    } else {
        lemma_concat_prefix(chunks, k + 1);
        assert(chunks.take(k + 1).drop_last() =~= chunks.take(k));
        let a = concat_chunks(chunks.take(k));
        let b = concat_chunks(chunks.take(k + 1));
        assert(b == a + chunks[k]);
        assert(a =~= b.take(a.len() as int));
        assert(a =~= concat_chunks(chunks).take(a.len() as int));
    }
}

/// Reads chunks from `source` until `declared` bytes have arrived or the
/// stream ends; reading stops as soon as the body is complete.
pub fn materialize_body(declared: usize, source: &mut BodyChunks) -> (r: Result<Vec<u8>, BodyError>)
    requires
        old(source).wf(),
    ensures
        final(source).wf(),
        final(source).chunks() == old(source).chunks(),
        final(source).ends_with_failure() == old(source).ends_with_failure(),
        old(source).position() <= final(source).position(),
        match (r, materialized(declared as nat, old(source).remaining(), old(source).ends_with_failure())) {
            (Ok(v), Ok(b)) => v@ == b,
            (Err(e), Err(f)) => e == f,
            _ => false,
        },
{
    let ghost rem = source.remaining();
    let ghost start = source.position as int;
    let mut acc = BodyAccumulator::new(declared);
    while !acc.is_complete() && source.position < source.chunks.len()
        invariant
            acc.wf(),
            acc.declared() == declared,
            source.wf(),
            source.chunks() == old(source).chunks(),
            source.ends_with_failure() == old(source).ends_with_failure(),
            start <= source.position(),
            rem == old(source).remaining(),
            start == old(source).position(),
            acc.collected() == bounded(
                concat_chunks(rem.take(source.position() - start)),
                declared as nat,
            ),
        decreases source.chunks().len() - source.position(),
    {
        let ghost k = source.position() - start;
        let ghost before = concat_chunks(rem.take(k));
        assert(rem[k] == source.chunks()[source.position as int]);
        assert(source.chunks[source.position as int]@ == rem[k]);
        acc.push_chunk(source.chunks[source.position].as_slice());
        assert(rem.take(k + 1).drop_last() =~= rem.take(k));
        assert(before.len() <= declared);
        source.position = source.position + 1;
    }
    let ghost k = source.position() - start;
    proof {
        lemma_concat_prefix(rem, k);
        if k == rem.len() {
            assert(rem.take(k) =~= rem);
        }
    }
    let stream_failed = source.fails && source.position == source.chunks.len();
    acc.finish(stream_failed)
}

} // verus!
