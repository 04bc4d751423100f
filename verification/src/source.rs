//! Sources of bytes: the one capability that every stage of a transfer offers
//! to the stage above it.

use vstd::prelude::*;

verus! {

/// The failure of a read or a seek, `std::io::Error`: a value that is
/// carried through and never looked into.
#[verifier::external_type_specification]
#[verifier::external_body]
pub struct ExIoError(std::io::Error);

/// A source that bytes are pulled from, a buffer at a time.
///
/// A call of [`ByteSource::read`] fills a prefix of the buffer and says how
/// long it is. `Ok(0)` stands for the end of the stream, or for an empty
/// buffer. A failure hands out no byte.
pub trait ByteSource {
    /// What the source needs to hold to be read from. Nothing, unless a
    /// source says otherwise.
    open spec fn wf(&self) -> bool {
        true
    }

    /// Whether one call of `read` can take the source from `self` to `next`
    /// while it turns a buffer holding `before` into one holding `after` and
    /// returns `outcome`. A source that says nothing of itself admits every
    /// step.
    open spec fn read_step(
        &self,
        next: &Self,
        before: Seq<u8>,
        after: Seq<u8>,
        outcome: Result<usize, std::io::Error>,
    ) -> bool {
        true
    }

    /// Pulls bytes into `buf` and returns how many there are: never more
    /// than the buffer takes. The bytes stand at the start of the buffer.
    fn read(&mut self, buf: &mut [u8]) -> (r: Result<usize, std::io::Error>)
        requires
            old(self).wf(),
        ensures
            final(self).wf(),
            final(buf)@.len() == old(buf)@.len(),
            r matches Ok(n) ==> n <= old(buf)@.len(),
            old(self).read_step(final(self), old(buf)@, final(buf)@, r),
    ;
}

/// The place that a seek moves to, `std::io::SeekFrom`: a value that is
/// carried through and never looked into.
#[verifier::external_type_specification]
#[verifier::external_body]
pub struct ExSeekFrom(std::io::SeekFrom);

/// A source of bytes in which the place of the next read can be moved.
pub trait SeekSource: ByteSource {
    /// Whether one call of `seek` to `pos` can take the source from `self`
    /// to `next` and return `outcome`. A source that says nothing of itself
    /// admits every step.
    open spec fn seek_step(
        &self,
        next: &Self,
        pos: std::io::SeekFrom,
        outcome: Result<u64, std::io::Error>,
    ) -> bool {
        true
    }

    /// Moves the place of the next read to `pos` and returns the new place,
    /// counted from the start.
    fn seek(&mut self, pos: std::io::SeekFrom) -> (r: Result<u64, std::io::Error>)
        requires
            old(self).wf(),
        ensures
            final(self).wf(),
            old(self).seek_step(final(self), pos, r),
    ;
}

/// The smaller of two lengths.
pub open spec fn shorter(a: int, b: int) -> int {
    if a <= b {
        a
    } else {
        b
    }
}

/// A source that hands out the bytes of a vector held in memory.
pub struct MemorySource {
    data: Vec<u8>,
    position: usize,
}

impl MemorySource {
    /// The bytes that the source was made of.
    pub closed spec fn data(&self) -> Seq<u8> {
        self.data@
    }

    /// How many of its bytes the source has handed out.
    pub closed spec fn position(&self) -> int {
        self.position as int
    }

    /// The bytes that are still to come.
    pub open spec fn remaining(&self) -> Seq<u8> {
        self.data().skip(self.position())
    }

    /// A source that holds `data` and has handed out nothing yet.
    pub fn new(data: Vec<u8>) -> (source: Self)
        ensures
            source.wf(),
            source.data() == data@,
            source.position() == 0,
    {
        MemorySource { data, position: 0 }
    }
}

impl ByteSource for MemorySource {
    open spec fn wf(&self) -> bool {
        0 <= self.position() <= self.data().len()
    }

    open spec fn read_step(
        &self,
        next: &Self,
        before: Seq<u8>,
        after: Seq<u8>,
        outcome: Result<usize, std::io::Error>,
    ) -> bool {
        let count = shorter(before.len() as int, self.remaining().len() as int);
        &&& outcome matches Ok(n)
        &&& n == count
        &&& next.data() == self.data()
        &&& next.position() == self.position() + count
        &&& after == self.remaining().take(count) + before.skip(count)
    }

    fn read(&mut self, buf: &mut [u8]) -> (r: Result<usize, std::io::Error>) {
        let left = self.data.len() - self.position;
        let count = if buf.len() <= left {
            buf.len()
        } else {
            left
        };
        let mut i: usize = 0;
        while i < count
            invariant
                i <= count,
                count <= buf@.len(),
                self.position + count <= self.data@.len() <= usize::MAX,
                buf@.len() == old(buf)@.len(),
                self.data@ == old(self).data@,
                self.position == old(self).position,
                buf@ == old(self).remaining().take(i as int) + old(buf)@.skip(i as int),
            decreases count - i,
        {
            buf[i] = self.data[self.position + i];
            assert(buf@ =~= old(self).remaining().take(i + 1) + old(buf)@.skip(i + 1));
            i = i + 1;
        }
        self.position = self.position + count;
        Ok(count)
    }
}

} // verus!
