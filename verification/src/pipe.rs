//! An in-process byte pipe with a fixed capacity.
//!
//! A pipe carries bytes from one producer to one consumer. It never waits: where the
//! producer would have to wait for room, or the consumer for bytes, the pipe says so, and the
//! caller suspends until the other end has moved. The bytes come out in the order in which
//! they went in, each of them once.

use crate::error::ErrorKind;
use std::collections::VecDeque;
use vstd::prelude::*;

verus! {

/// The capacity of a pipe that is made without naming one.
pub const DEFAULT_CAPACITY: usize = 16384;

/// The state of the writing end of a pipe.
#[derive(Clone, Copy, Debug, PartialEq, Eq, Structural)]
pub enum WriterEnd {
    /// The writer may still write.
    Open,
    /// The writer has closed its end after the last byte.
    Closed,
    /// The writer has closed its end because of a failure.
    Failed(ErrorKind),
}

/// What a write into a pipe came to.
#[derive(Clone, Copy, Debug, PartialEq, Eq, Structural)]
pub enum PipeWrite {
    /// All the bytes are in the pipe.
    Written,
    /// There is not enough room for the bytes; none of them is in the pipe.
    Pending,
    /// An end of the pipe is closed; none of the bytes is in the pipe.
    BrokenPipe,
}

/// What a read from a pipe came to.
#[derive(Clone, Copy, Debug, PartialEq, Eq, Structural)]
pub enum PipeRead {
    /// So many bytes were taken out of the pipe. Zero stands for the end of the stream,
    /// unless no byte was asked for.
    Ready(usize),
    /// The pipe is empty and the writer has not closed its end.
    Pending,
    /// The writer has closed its end with this failure.
    Failed(ErrorKind),
}

/// A pipe as a mathematical value.
pub struct PipeView {
    /// The bytes that are in the pipe, oldest first.
    pub buffered: Seq<u8>,
    /// The number of bytes that the pipe has room for.
    pub capacity: nat,
    /// The state of the writing end.
    pub writer: WriterEnd,
    /// Whether the reading end is open.
    pub reader_open: bool,
    /// All the bytes that were ever written into the pipe, in order.
    pub written: Seq<u8>,
    /// All the bytes that were ever read from the pipe, in order.
    pub taken: Seq<u8>,
}

impl PipeView {
    /// The number of bytes that the pipe has room for at the moment.
    pub open spec fn free(self) -> nat {
        (self.capacity - self.buffered.len()) as nat
    }

    /// The pipe after a write of `bytes` that found both ends open and room enough.
    pub open spec fn after_write(self, bytes: Seq<u8>) -> PipeView {
        PipeView { buffered: self.buffered + bytes, written: self.written + bytes, ..self }
    }

    /// The pipe after a read that took `n` bytes out.
    pub open spec fn after_read(self, n: int) -> PipeView {
        PipeView {
            buffered: self.buffered.skip(n),
            taken: self.taken + self.buffered.take(n),
            ..self
        }
    }

    /// What a write of `bytes` comes to.
    pub open spec fn write_result(self, bytes: Seq<u8>) -> PipeWrite {
        if !self.reader_open || self.writer != WriterEnd::Open {
            PipeWrite::BrokenPipe
        } else if bytes.len() <= self.free() {
            PipeWrite::Written
        } else {
            PipeWrite::Pending
        }
    }

    /// What a read of at most `max` bytes comes to.
    pub open spec fn read_result(self, max: nat) -> PipeRead {
        if !self.reader_open {
            PipeRead::Ready(0)
        } else if let WriterEnd::Failed(kind) = self.writer {
            PipeRead::Failed(kind)
        } else if self.buffered.len() > 0 || max == 0 {
            PipeRead::Ready(
                if max <= self.buffered.len() {
                    max as usize
                } else {
                    self.buffered.len() as usize
                },
            )
        } else if self.writer == WriterEnd::Closed {
            PipeRead::Ready(0)
        } else {
            PipeRead::Pending
        }
    }

    /// Whether the consumer has reached the end of the stream: the writer has closed its
    /// end after the last byte, and no byte is left in the pipe.
    pub open spec fn at_end(self) -> bool {
        self.writer == WriterEnd::Closed && self.buffered.len() == 0
    }
}

/// A byte pipe with a fixed capacity.
pub struct Pipe {
    buffer: VecDeque<u8>,
    capacity: usize,
    writer: WriterEnd,
    reader_open: bool,
    written: Ghost<Seq<u8>>,
    taken: Ghost<Seq<u8>>,
}

impl View for Pipe {
    type V = PipeView;

    closed spec fn view(&self) -> PipeView {
        PipeView {
            buffered: self.buffer@,
            capacity: self.capacity as nat,
            writer: self.writer,
            reader_open: self.reader_open,
            written: self.written@,
            taken: self.taken@,
        }
    }
}

impl Pipe {
    /// The invariant of a pipe: it holds no more bytes than it has room for, and the bytes
    /// that were written are those that were read, followed by those that are in the pipe.
    pub closed spec fn wf(&self) -> bool {
        &&& self.buffer@.len() <= self.capacity
        &&& self.written@ == self.taken@ + self.buffer@
    }

    /// Every byte that was written has been read or is still in the pipe, and nothing else
    /// was read or is in the pipe: the bytes read so far, followed by the bytes in the pipe,
    /// are the bytes written so far, in their order. A consumer that has reached the end
    /// of the stream has read exactly what was written.
    pub proof fn lemma_bytes_preserved(&self)
        requires
            self.wf(),
        ensures
            self@.buffered.len() <= self@.capacity,
            self@.taken + self@.buffered == self@.written,
            self@.at_end() ==> self@.taken == self@.written,
    {
        if self@.at_end() {
            assert(self@.taken + self@.buffered =~= self@.taken);
        }
    }

    /// Creates an empty pipe with room for `capacity` bytes and both ends open.
    pub fn with_capacity(capacity: usize) -> (pipe: Pipe)
        ensures
            pipe.wf(),
            pipe@ == (PipeView {
                buffered: Seq::empty(),
                capacity: capacity as nat,
                writer: WriterEnd::Open,
                reader_open: true,
                written: Seq::empty(),
                taken: Seq::empty(),
            }),
    {
        let pipe = Pipe {
            buffer: VecDeque::new(),
            capacity,
            writer: WriterEnd::Open,
            reader_open: true,
            written: Ghost(Seq::empty()),
            taken: Ghost(Seq::empty()),
        };
        assert(pipe.written@ =~= pipe.taken@ + pipe.buffer@);
        pipe
    }

    /// Creates an empty pipe with room for [`DEFAULT_CAPACITY`] bytes and both ends open.
    pub fn new() -> (pipe: Pipe)
        ensures
            pipe.wf(),
            pipe@ == (PipeView {
                buffered: Seq::empty(),
                capacity: DEFAULT_CAPACITY as nat,
                writer: WriterEnd::Open,
                reader_open: true,
                written: Seq::empty(),
                taken: Seq::empty(),
            }),
    {
        Pipe::with_capacity(DEFAULT_CAPACITY)
    }

    /// Returns the number of bytes that the pipe has room for.
    pub fn capacity(&self) -> (capacity: usize)
        ensures
            capacity == self@.capacity,
    {
        self.capacity
    }

    /// Returns the number of bytes that are in the pipe.
    pub fn len(&self) -> (len: usize)
        ensures
            len == self@.buffered.len(),
    {
        self.buffer.len()
    }

    /// Returns whether no byte is in the pipe.
    pub fn is_empty(&self) -> (empty: bool)
        ensures
            empty == (self@.buffered.len() == 0),
    {
        self.buffer.len() == 0
    }

    /// Returns the state of the writing end.
    pub fn writer(&self) -> (writer: WriterEnd)
        ensures
            writer == self@.writer,
    {
        self.writer
    }

    /// Returns whether the reading end is closed.
    pub fn is_reader_closed(&self) -> (closed: bool)
        ensures
            closed == !self@.reader_open,
    {
        !self.reader_open
    }

    /// Returns whether the consumer has reached the end of the stream.
    pub fn is_at_end(&self) -> (at_end: bool)
        ensures
            at_end == self@.at_end(),
    {
        self.writer == WriterEnd::Closed && self.buffer.len() == 0
    }

    /// Writes all of `bytes` into the pipe, or none of them.
    ///
    /// The write succeeds where both ends are open and the pipe has room for all the bytes.
    /// Where it has not, the write is pending: the producer tries again when the consumer
    /// has read. A write of more bytes than the pipe's capacity is pending for ever. Where an
    /// end is closed, the pipe is broken.
    pub fn write(&mut self, bytes: &[u8]) -> (result: PipeWrite)
        requires
            old(self).wf(),
        ensures
            final(self).wf(),
            result == old(self)@.write_result(bytes@),
            final(self)@ == if result == PipeWrite::Written {
                old(self)@.after_write(bytes@)
            } else {
                old(self)@
            },
    {
        if !self.reader_open || self.writer != WriterEnd::Open {
            return PipeWrite::BrokenPipe;
        }
        if bytes.len() > self.capacity - self.buffer.len() {
            return PipeWrite::Pending;
        }
        let mut i: usize = 0;
        while i < bytes.len()
            invariant
                i <= bytes.len(),
                self.buffer@ == old(self).buffer@ + bytes@.take(i as int),
                self.capacity == old(self).capacity,
                self.writer == old(self).writer,
                self.reader_open == old(self).reader_open,
                self.written == old(self).written,
                self.taken == old(self).taken,
            decreases bytes.len() - i,
        {
            self.buffer.push_back(bytes[i]);
            proof {
                assert(bytes@.take(i + 1) =~= bytes@.take(i as int).push(bytes@[i as int]));
                assert(self.buffer@ =~= old(self).buffer@ + bytes@.take(i + 1));
            }
            i = i + 1;
        }
        proof {
            assert(bytes@.take(bytes.len() as int) =~= bytes@);
        }
        self.written = Ghost(self.written@ + bytes@);
        proof {
            assert(self.written@ =~= self.taken@ + self.buffer@);
        }
        PipeWrite::Written
    }

    /// Reads bytes from the pipe into the front of `buf`: as many as there are, and at most
    /// as many as `buf` holds.
    ///
    /// The read is ready as soon as one byte is in the pipe. Where the pipe is empty, it is
    /// pending until the writer writes or closes its end; after that it is ready with zero
    /// bytes, the end of the stream. Once the writer has closed its end with a failure,
    /// every read fails with that failure. A read through a reading end that is closed
    /// takes nothing.
    pub fn read(&mut self, buf: &mut [u8]) -> (result: PipeRead)
        requires
            old(self).wf(),
        ensures
            final(self).wf(),
            final(buf)@.len() == old(buf)@.len(),
            result == old(self)@.read_result(old(buf)@.len()),
            match result {
                PipeRead::Ready(n) => {
                    &&& final(self)@ == old(self)@.after_read(n as int)
                    &&& final(buf)@.take(n as int) == old(self)@.buffered.take(n as int)
                    &&& final(buf)@.skip(n as int) == old(buf)@.skip(n as int)
                },
                _ => final(self)@ == old(self)@ && final(buf)@ == old(buf)@,
            },
    {
        if !self.reader_open {
            proof {
                assert(self.buffer@.skip(0) =~= self.buffer@);
                assert(self.taken@ + self.buffer@.take(0) =~= self.taken@);
                assert(buf@.take(0) =~= self.buffer@.take(0));
                assert(buf@.skip(0) =~= old(buf)@.skip(0));
            }
            return PipeRead::Ready(0);
        }
        if let WriterEnd::Failed(kind) = self.writer {
            return PipeRead::Failed(kind);
        }
        if self.buffer.len() == 0 && buf.len() > 0 {
            if self.writer == WriterEnd::Closed {
                proof {
                    assert(self.buffer@.skip(0) =~= self.buffer@);
                    assert(self.taken@ + self.buffer@.take(0) =~= self.taken@);
                    assert(buf@.take(0) =~= self.buffer@.take(0));
                }
                return PipeRead::Ready(0);
            } else {
                return PipeRead::Pending;
            }
        }
        let n: usize = if buf.len() <= self.buffer.len() {
            buf.len()
        } else {
            self.buffer.len()
        };
        let mut i: usize = 0;
        while i < n
            invariant
                i <= n,
                n <= old(self).buffer@.len(),
                n <= buf@.len(),
                buf@.len() == old(buf)@.len(),
                self.buffer@ == old(self).buffer@.skip(i as int),
                buf@.take(i as int) == old(self).buffer@.take(i as int),
                buf@.skip(i as int) == old(buf)@.skip(i as int),
                self.capacity == old(self).capacity,
                self.writer == old(self).writer,
                self.reader_open == old(self).reader_open,
                self.written == old(self).written,
                self.taken == old(self).taken,
            decreases n - i,
        {
            let ghost before = buf@;
            let byte = self.buffer.pop_front();
            match byte {
                Some(byte) => {
                    buf[i] = byte;
                },
                None => {},
            }
            proof {
                let all = old(self).buffer@;
                assert(byte == Some(all[i as int]));
                assert(buf@ == before.update(i as int, all[i as int]));
                assert(self.buffer@ =~= all.skip(i + 1));
                let got = buf@.take(i + 1);
                let want = all.take(i + 1);
                assert(got =~= want) by {
                    assert forall|j: int| 0 <= j < got.len() implies got[j] == want[j] by {
                        if j < i {
                            assert(before.take(i as int)[j] == all.take(i as int)[j]);
                        }
                    }
                }
                let rest = buf@.skip(i + 1);
                let kept = old(buf)@.skip(i + 1);
                assert(rest =~= kept) by {
                    assert forall|j: int| 0 <= j < rest.len() implies rest[j] == kept[j] by {
                        assert(before.skip(i as int)[j + 1] == old(buf)@.skip(i as int)[j + 1]);
                    }
                }
            }
            i = i + 1;
        }
        self.taken = Ghost(self.taken@ + old(self).buffer@.take(n as int));
        proof {
            let all = old(self).buffer@;
            assert(all =~= all.take(n as int) + all.skip(n as int));
            assert(self.written@ =~= self.taken@ + self.buffer@);
        }
        PipeRead::Ready(n)
    }

    /// Closes the writing end, after the last byte or with a failure. The first closing
    /// counts: a pipe whose writing end is closed stays as it is.
    pub fn close_writer(&mut self, failure: Option<ErrorKind>)
        requires
            old(self).wf(),
        ensures
            final(self).wf(),
            final(self)@ == if old(self)@.writer == WriterEnd::Open {
                PipeView {
                    writer: match failure {
                        Some(kind) => WriterEnd::Failed(kind),
                        None => WriterEnd::Closed,
                    },
                    ..old(self)@
                }
            } else {
                old(self)@
            },
    {
        if self.writer == WriterEnd::Open {
            self.writer = match failure {
                Some(kind) => WriterEnd::Failed(kind),
                None => WriterEnd::Closed,
            };
        }
    }

    /// Closes the reading end. Every write after that finds the pipe broken.
    pub fn close_reader(&mut self)
        requires
            old(self).wf(),
        ensures
            final(self).wf(),
            final(self)@ == (PipeView { reader_open: false, ..old(self)@ }),
    {
        self.reader_open = false;
    }
}

} // verus!
