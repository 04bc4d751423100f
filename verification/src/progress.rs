//! A reader that reports incremental progress while reading.

use vstd::prelude::*;
use crate::source::{ByteSource, MemorySource, SeekSource};

verus! {

/// A reader that reports incremental progress while reading.
///
/// It wraps a source of bytes and hands every byte on unchanged. After each
/// read that the source answers, it calls the progress callback with the
/// accumulator and the number of bytes read, and keeps what the callback
/// returns as the new accumulator.
#[verifier::reject_recursive_types(T)]
pub struct ProgressRead<R: ByteSource, T, F: Fn(&T, usize) -> T> {
    source: R,
    accumulator: T,
    progress: F,
    lengths: Ghost<Seq<usize>>,
    states: Ghost<Seq<T>>,
    passed: Ghost<Seq<u8>>,
}

/// Whether `states` are the accumulators that `progress` can run through
/// when it is called once for each length in `lengths`, in order: each call
/// gets the accumulator that the call before returned, the first one gets
/// `states[0]`.
pub open spec fn traces<T, F: Fn(&T, usize) -> T>(
    progress: F,
    lengths: Seq<usize>,
    states: Seq<T>,
) -> bool {
    &&& states.len() == lengths.len() + 1
    &&& forall|i: int|
        0 <= i < lengths.len() ==> call_ensures(
            progress,
            (&states[i], #[trigger] lengths[i]),
            states[i + 1],
        )
}

/// One more call of the callback extends a trace by one length and one
/// accumulator.
pub proof fn lemma_trace_step<T, F: Fn(&T, usize) -> T>(
    progress: F,
    lengths: Seq<usize>,
    states: Seq<T>,
    length: usize,
    result: T,
)
    requires
        traces(progress, lengths, states),
        call_ensures(progress, (&states.last(), length), result),
    ensures
        traces(progress, lengths.push(length), states.push(result)),
{
    let longer = lengths.push(length);
    let further = states.push(result);
    assert forall|i: int| 0 <= i < longer.len() implies call_ensures(
        progress,
        (&further[i], #[trigger] longer[i]),
        further[i + 1],
    ) by {
        if i < lengths.len() {
            assert(call_ensures(progress, (&states[i], lengths[i]), states[i + 1]));
        }
    }
}

/// Where the callback computes a function `step` of the accumulator and the
/// length, the accumulator at the end of a trace is `step` folded over the
/// lengths of the reads, from the first accumulator on.
pub proof fn lemma_trace_is_fold<T, F: Fn(&T, usize) -> T>(
    progress: F,
    step: spec_fn(T, usize) -> T,
    lengths: Seq<usize>,
    states: Seq<T>,
)
    requires
        traces(progress, lengths, states),
        forall|accumulator: T, length: usize, result: T|
            call_ensures(progress, (&accumulator, length), result) ==> result == step(
                accumulator,
                length,
            ),
    ensures
        states.last() == lengths.fold_left(states[0], step),
    decreases lengths.len(),
{
    if lengths.len() > 0 {
        let shorter = lengths.drop_last();
        let earlier = states.drop_last();
        assert forall|i: int| 0 <= i < shorter.len() implies call_ensures(
            progress,
            (&earlier[i], #[trigger] shorter[i]),
            earlier[i + 1],
        ) by {
            assert(call_ensures(progress, (&states[i], lengths[i]), states[i + 1]));
        }
        lemma_trace_is_fold(progress, step, shorter, earlier);
        let at = lengths.len() - 1;
        assert(call_ensures(progress, (&states[at], lengths[at]), states[at + 1]));
        assert(earlier.last() == states[at]);
        assert(earlier[0] == states[0]);
    }
}

impl<R: ByteSource, T, F: Fn(&T, usize) -> T> ProgressRead<R, T, F> {
    /// The source that the reader wraps.
    pub closed spec fn inner(&self) -> R {
        self.source
    }

    /// The accumulator as it stands.
    pub closed spec fn state(&self) -> T {
        self.accumulator
    }

    /// The progress callback.
    pub closed spec fn callback(&self) -> F {
        self.progress
    }

    /// The accumulators that the reader has held, from the one it was made
    /// with to the one it holds now.
    pub closed spec fn states(&self) -> Seq<T> {
        self.states@
    }

    /// The accumulator that the reader was made with.
    pub open spec fn initial(&self) -> T {
        self.states()[0]
    }

    /// The lengths of the reads that the source has answered, in order.
    pub closed spec fn lengths(&self) -> Seq<usize> {
        self.lengths@
    }

    /// The bytes that this reader has handed to its callers, in order.
    pub closed spec fn passed(&self) -> Seq<u8> {
        self.passed@
    }

    /// What holds of a reader that can be read from: its source is in order,
    /// the callback takes every accumulator with every length, and the
    /// accumulators held so far are a trace of the callback over the lengths
    /// of the reads.
    pub open spec fn valid(&self) -> bool {
        &&& self.inner().wf()
        &&& forall|accumulator: T, length: usize|
            call_requires(self.callback(), (&accumulator, length))
        &&& traces(self.callback(), self.lengths(), self.states())
        &&& self.states().last() == self.state()
    }

    /// Construct a new progress reader with the specified underlying reader,
    /// initial value for an accumulator, and progress callback.
    pub fn new(source: R, init: T, progress: F) -> (reader: ProgressRead<R, T, F>)
        ensures
            reader.inner() == source,
            reader.state() == init,
            reader.callback() == progress,
            reader.states() == Seq::<T>::empty().push(init),
            reader.lengths() == Seq::<usize>::empty(),
            reader.passed() == Seq::<u8>::empty(),
    {
        ProgressRead {
            lengths: Ghost(Seq::empty()),
            states: Ghost(Seq::empty().push(init)),
            passed: Ghost(Seq::empty()),
            source,
            accumulator: init,
            progress,
        }
    }

    /// The accumulator as it stands.
    pub fn accumulator(&self) -> (accumulator: &T)
        ensures
            *accumulator == self.state(),
    {
        &self.accumulator
    }

    /// The source that the reader wraps.
    pub fn get_ref(&self) -> (source: &R)
        ensures
            *source == self.inner(),
    {
        &self.source
    }

    /// Gives up the reader for its source and its accumulator.
    pub fn into_parts(self) -> (parts: (R, T))
        ensures
            parts.0 == self.inner(),
            parts.1 == self.state(),
    {
        (self.source, self.accumulator)
    }

    /// Whether one read can take the reader from `self` to `next` while it
    /// turns a buffer holding `before` into one holding `after` and returns
    /// `outcome`: the underlying reader makes that very step, with the same
    /// buffer and the same outcome, and where it answered, the callback has
    /// taken the accumulator on and the bytes count as passed.
    pub open spec fn reads(
        &self,
        next: &Self,
        before: Seq<u8>,
        after: Seq<u8>,
        outcome: Result<usize, std::io::Error>,
    ) -> bool {
        &&& self.inner().read_step(&next.inner(), before, after, outcome)
        &&& next.callback() == self.callback()
        &&& match outcome {
            Ok(length) => {
                &&& call_ensures(self.callback(), (&self.state(), length), next.state())
                &&& next.lengths() == self.lengths().push(length)
                &&& next.states() == self.states().push(next.state())
                &&& next.passed() == self.passed() + after.take(length as int)
            },
            Err(_) => {
                &&& next.state() == self.state()
                &&& next.lengths() == self.lengths()
                &&& next.states() == self.states()
                &&& next.passed() == self.passed()
            },
        }
    }

    /// Read some bytes from the underlying reader into the specified buffer,
    /// and report progress to the progress callback. The progress callback is
    /// passed the current value of the accumulator as its first argument and
    /// the number of bytes read as its second argument. The result of the
    /// progress callback is stored as the updated value of the accumulator,
    /// to be passed to the next invocation of the callback.
    ///
    /// A failure of the underlying reader is handed on as it is; the callback
    /// is not called for it and the accumulator stays.
    pub fn read(&mut self, buf: &mut [u8]) -> (r: Result<usize, std::io::Error>)
        requires
            old(self).valid(),
        ensures
            final(self).valid(),
            final(buf)@.len() == old(buf)@.len(),
            r matches Ok(n) ==> n <= old(buf)@.len(),
            old(self).reads(final(self), old(buf)@, final(buf)@, r),
    {
        match self.source.read(buf) {
            Ok(length) => {
                let next = (self.progress)(&self.accumulator, length);
                proof {
                    lemma_trace_step(self.progress, self.lengths@, self.states@, length, next);
                    self.lengths@ = self.lengths@.push(length);
                    self.states@ = self.states@.push(next);
                    self.passed@ = self.passed@ + buf@.take(length as int);
                }
                self.accumulator = next;
                Ok(length)
            },
            Err(failure) => Err(failure),
        }
    }
}

impl<R: SeekSource, T, F: Fn(&T, usize) -> T> ProgressRead<R, T, F> {
    /// Whether one seek to `pos` can take the reader from `self` to `next`
    /// and return `outcome`: the underlying reader makes that very step, and
    /// nothing else changes.
    pub open spec fn seeks(
        &self,
        next: &Self,
        pos: std::io::SeekFrom,
        outcome: Result<u64, std::io::Error>,
    ) -> bool {
        &&& self.inner().seek_step(&next.inner(), pos, outcome)
        &&& next.callback() == self.callback()
        &&& next.state() == self.state()
        &&& next.lengths() == self.lengths()
        &&& next.states() == self.states()
        &&& next.passed() == self.passed()
    }

    /// Moves the place of the next read in the underlying reader. The
    /// callback is not called and the accumulator stays as it is, whatever
    /// the move skips or repeats.
    pub fn seek(&mut self, pos: std::io::SeekFrom) -> (r: Result<u64, std::io::Error>)
        requires
            old(self).valid(),
        ensures
            final(self).valid(),
            old(self).seeks(final(self), pos, r),
    {
        self.source.seek(pos)
    }
}

impl<R: ByteSource, T, F: Fn(&T, usize) -> T> ByteSource for ProgressRead<R, T, F> {
    open spec fn wf(&self) -> bool {
        self.valid()
    }

    open spec fn read_step(
        &self,
        next: &Self,
        before: Seq<u8>,
        after: Seq<u8>,
        outcome: Result<usize, std::io::Error>,
    ) -> bool {
        self.reads(next, before, after, outcome)
    }

    fn read(&mut self, buf: &mut [u8]) -> (r: Result<usize, std::io::Error>) {
        ProgressRead::read(self, buf)
    }
}

impl<R: SeekSource, T, F: Fn(&T, usize) -> T> SeekSource for ProgressRead<R, T, F> {
    open spec fn seek_step(
        &self,
        next: &Self,
        pos: std::io::SeekFrom,
        outcome: Result<u64, std::io::Error>,
    ) -> bool {
        self.seeks(next, pos, outcome)
    }

    fn seek(&mut self, pos: std::io::SeekFrom) -> (r: Result<u64, std::io::Error>) {
        ProgressRead::seek(self, pos)
    }
}

/// The accumulator of a reader is its callback folded over the lengths of
/// the reads that its source has answered, one call for each read as it
/// happened, from the accumulator that the reader was made with: where the
/// callback computes the function `step`, the accumulator is that fold.
pub proof fn lemma_accumulator_is_fold<R: ByteSource, T, F: Fn(&T, usize) -> T>(
    reader: ProgressRead<R, T, F>,
    step: spec_fn(T, usize) -> T,
)
    requires
        reader.valid(),
        forall|accumulator: T, length: usize, result: T|
            call_ensures(reader.callback(), (&accumulator, length), result) ==> result == step(
                accumulator,
                length,
            ),
    ensures
        reader.state() == reader.lengths().fold_left(reader.initial(), step),
{
    lemma_trace_is_fold(reader.callback(), step, reader.lengths(), reader.states());
}

/// Whether what a reader over a source in memory has passed on so far is
/// the stretch of the source's bytes from `start` up to the place that the
/// source has come to. It holds of a new reader with the place of its source
/// as `start`.
pub open spec fn in_order<T, F: Fn(&T, usize) -> T>(
    reader: ProgressRead<MemorySource, T, F>,
    start: int,
) -> bool {
    &&& reader.inner().wf()
    &&& 0 <= start <= reader.inner().position()
    &&& reader.passed() == reader.inner().data().subrange(start, reader.inner().position())
}

/// Bytes that go through a progress reader come out as they went in: none is
/// lost, none comes twice, and their order stays, whatever the sizes of the
/// buffers that the caller reads with.
///
/// Stated over a source held in memory: where the bytes passed on so far are
/// those of the source from `start` up to its place, they still are after
/// one more read with any buffer. That read cannot fail, and where it finds
/// nothing for a buffer that has room, all bytes from `start` on have been
/// passed on.
pub proof fn lemma_passes_in_order<T, F: Fn(&T, usize) -> T>(
    reader: ProgressRead<MemorySource, T, F>,
    next: ProgressRead<MemorySource, T, F>,
    before: Seq<u8>,
    after: Seq<u8>,
    outcome: Result<usize, std::io::Error>,
    start: int,
)
    requires
        in_order(reader, start),
        reader.reads(&next, before, after, outcome),
    ensures
        outcome is Ok,
        in_order(next, start),
        next.inner().data() == reader.inner().data(),
        before.len() > 0 && outcome->Ok_0 == 0 ==> next.passed() == next.inner().data().skip(start),
{
    let data = reader.inner().data();
    let position = reader.inner().position();
    let length = outcome->Ok_0 as int;
    assert(after.take(length) =~= data.subrange(position, position + length));
    assert(next.passed() =~= data.subrange(start, position + length));
    if before.len() > 0 && length == 0 {
        assert(data.subrange(start, position) =~= data.skip(start));
    }
}

} // verus!
