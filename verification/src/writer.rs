//! The sequential writer over a read/write mapped view: it copies each chunk
//! at a cursor, doubles the view's capacity whenever a chunk would overflow
//! it, and on disposal truncates the view to exactly the bytes written.
use vstd::prelude::*;

use crate::growth::growth_target;
use crate::growth::required_capacity;
use crate::view::IoError;
use crate::view::MmapMutFile;
use crate::view::resized_bytes;
use crate::view::spliced;

verus! {

/// A stream writer over a read/write mapped view. The cursor counts the
/// bytes of real content written so far; the view's capacity may exceed it
/// because growth over-allocates, and disposal truncates the excess away.
pub struct MmappedWriter {
    inner: MmapMutFile,
    pos: usize,
}

impl MmapMutFile {
    /// Converts the view into a writer whose cursor starts at zero: bytes
    /// the view already holds are logically discarded content, to be
    /// overwritten or truncated away.
    pub fn into_writer(self) -> (w: MmappedWriter)
        requires
            1 <= self@.len(),
        ensures
            w.wf(),
            w.buffer() == self@,
            w.spec_pos() == 0,
            w.content() == Seq::<u8>::empty(),
    {
        proof {
            assert(self@.take(0) =~= Seq::<u8>::empty());
        }
        MmappedWriter { inner: self, pos: 0 }
    }
}

impl MmappedWriter {
    /// The bytes of the underlying read/write view: the file's full current
    /// extent, over-allocated capacity included.
    pub closed spec fn buffer(&self) -> Seq<u8> {
        self.inner@
    }

    /// The cursor: how many bytes of real content have been written.
    pub closed spec fn spec_pos(&self) -> nat {
        self.pos as nat
    }

    /// The view's capacity in bytes.
    pub open spec fn spec_capacity(&self) -> nat {
        self.buffer().len()
    }

    /// The logical content: the first `spec_pos` bytes of the buffer.
    pub open spec fn content(&self) -> Seq<u8> {
        self.buffer().take(self.spec_pos() as int)
    }

    /// Well-formed: positive capacity, cursor inside the buffer.
    pub open spec fn wf(&self) -> bool {
        1 <= self.spec_capacity() && self.spec_pos() <= self.spec_capacity()
    }

    /// The cursor's current byte offset.
    pub fn pos(&self) -> (n: usize)
        ensures
            n == self.spec_pos(),
    {
        self.pos
    }

    /// The view's current capacity in bytes.
    pub fn capacity(&self) -> (n: usize)
        ensures
            n == self.spec_capacity(),
    {
        self.inner.len()
    }

    /// Writes the whole of `buf` at the cursor and advances the cursor by
    /// its length. When the chunk would overflow the capacity, the capacity
    /// is first doubled repeatedly until the chunk fits; a chunk that fits
    /// leaves the capacity untouched, and an empty chunk changes nothing.
    /// Never a short write: the full chunk is written and its length
    /// returned.
    pub fn write(&mut self, buf: &[u8]) -> (r: Result<usize, IoError>)
        requires
            old(self).wf(),
            old(self).spec_pos() + buf@.len() <= usize::MAX / 2,
        ensures
            final(self).wf(),
            r matches Ok(n) && n == buf@.len(),
            final(self).spec_pos() == old(self).spec_pos() + buf@.len(),
            final(self).content() == old(self).content() + buf@,
            final(self).spec_capacity() == growth_target(
                old(self).spec_capacity(),
                old(self).spec_pos() + buf@.len(),
            ),
            final(self).buffer() == spliced(
                resized_bytes(old(self).buffer(), final(self).spec_capacity()),
                old(self).spec_pos(),
                buf@,
            ),
            buf@.len() == 0 ==> final(self).buffer() == old(self).buffer()
                && final(self).spec_pos() == old(self).spec_pos(),
    {
        let need = self.pos + buf.len();
        if need > self.inner.len() {
            let target = required_capacity(self.inner.len(), need);
            self.inner.resize(target);
        }
        self.inner.write_at(self.pos, buf);
        self.pos = need;
        proof {
            let oldbuf = old(self).buffer();
            let cap = old(self).spec_capacity();
            let at = old(self).spec_pos();
            let need_n = at + buf@.len();
            if need_n <= cap {
                assert(growth_target(cap, need_n) == cap);
                assert(resized_bytes(oldbuf, cap) =~= oldbuf);
            }
            let presplice = resized_bytes(oldbuf, growth_target(cap, need_n));
            assert(self.inner@ == spliced(presplice, at, buf@));
            assert(presplice.take(at as int) =~= oldbuf.take(at as int));
            assert(self.inner@.take(need_n as int) =~= oldbuf.take(at as int) + buf@);
            if buf@.len() == 0 {
                assert(self.inner@ =~= oldbuf);
            }
        }
        Ok(buf.len())
    }

    /// Writes the whole of `buf`, exactly as `write` does, reporting only
    /// success. `write` already writes the full chunk or fails, so no retry
    /// loop is needed.
    pub fn write_all(&mut self, buf: &[u8]) -> (r: Result<(), IoError>)
        requires
            old(self).wf(),
            old(self).spec_pos() + buf@.len() <= usize::MAX / 2,
        ensures
            final(self).wf(),
            r is Ok,
            final(self).spec_pos() == old(self).spec_pos() + buf@.len(),
            final(self).content() == old(self).content() + buf@,
            final(self).spec_capacity() == growth_target(
                old(self).spec_capacity(),
                old(self).spec_pos() + buf@.len(),
            ),
            final(self).buffer() == spliced(
                resized_bytes(old(self).buffer(), final(self).spec_capacity()),
                old(self).spec_pos(),
                buf@,
            ),
    {
        match self.write(buf) {
            Ok(_) => Ok(()),
            Err(e) => Err(e),
        }
    }

    /// Asks for the view's dirty bytes to be scheduled for write-back: a
    /// best-effort durability hint that changes neither the bytes nor the
    /// cursor. The OS call behind the hint is the unverified layer's
    /// concern.
    pub fn flush(&self) -> (r: Result<(), IoError>)
        ensures
            r is Ok,
    {
        Ok(())
    }

    /// Disposal: truncates the view down to exactly the cursor, in order
    /// truncation first and the write-back hint after it, and hands the view
    /// back. The file's final length equals the total bytes written, never
    /// the over-allocated capacity. The writer is consumed, so disposal runs
    /// once.
    pub fn finish(self) -> (f: MmapMutFile)
        requires
            self.wf(),
        ensures
            f@ == self.content(),
            f@.len() == self.spec_pos(),
    {
        let MmappedWriter { mut inner, pos } = self;
        inner.resize(pos);
        inner
    }
}

/// The content that sequential writes of `chunks` leave behind when the
/// writer's content starts as `init`: each write appends its whole chunk, as
/// the contract of `write` states.
pub open spec fn content_after_writes(init: Seq<u8>, chunks: Seq<Seq<u8>>) -> Seq<u8>
    decreases chunks.len(),
{
    if chunks.len() == 0 {
        init
    } else {
        content_after_writes(init + chunks.first(), chunks.drop_first())
    }
}

/// The total number of bytes in a sequence of chunks.
pub open spec fn total_len(chunks: Seq<Seq<u8>>) -> nat
    decreases chunks.len(),
{
    if chunks.len() == 0 {
        0
    } else {
        chunks.first().len() + total_len(chunks.drop_first())
    }
}

proof fn lemma_content_after_writes(init: Seq<u8>, chunks: Seq<Seq<u8>>)
    ensures
        content_after_writes(init, chunks) == init + chunks.flatten(),
        chunks.flatten().len() == total_len(chunks),
    decreases chunks.len(),
{
    if chunks.len() == 0 {
        assert(init + chunks.flatten() =~= init);
    } else {
        lemma_content_after_writes(init + chunks.first(), chunks.drop_first());
        assert((init + chunks.first()) + chunks.drop_first().flatten() =~= init
            + chunks.flatten());
    }
}

/// Round trip: a writer opened on a fresh view starts with empty content;
/// writing any chunks in sequence appends each one, so after disposal the
/// file's bytes are exactly the concatenation of the chunks and the file's
/// length is the sum of the chunks' lengths.
pub proof fn lemma_round_trip(chunks: Seq<Seq<u8>>)
    ensures
        content_after_writes(Seq::<u8>::empty(), chunks) == chunks.flatten(),
        content_after_writes(Seq::<u8>::empty(), chunks).len() == total_len(chunks),
{
    lemma_content_after_writes(Seq::<u8>::empty(), chunks);
    assert(Seq::<u8>::empty() + chunks.flatten() =~= chunks.flatten());
}

} // verus!
