//! The body of a request or of a response.
//!
//! A body is nothing at all, a region of memory, or a stream of bytes that is read from a
//! [`Source`]. A body that is read synchronously is turned into one that never blocks by
//! [`Body::into_async`]: the bytes of a stream then go through a [`Pipe`], which a
//! [`Writer`] fills from the source.

use crate::error::{io_error_from, io_error_kind, io_error_of_kind, IoErrorKind};
use crate::pipe::{Pipe, PipeRead, PipeView, PipeWrite, WriterEnd, DEFAULT_CAPACITY};
use vstd::prelude::*;
use vstd::slice::slice_subrange;
use vstd::std_specs::convert::FromSpecImpl;
use vstd::string::*;

verus! {

/// A source of bytes that is read synchronously, such as a file or a socket.
pub trait Source: Send + Sync {
    /// Pulls some bytes from this source into the front of `buf` and returns how many there
    /// are. Zero bytes stand for the end of the source, unless `buf` is empty.
    ///
    /// The call may block. An error of the kind `Interrupted` says that nothing was read
    /// and that the call can be made again.
    fn read(&mut self, buf: &mut [u8]) -> (result: Result<usize, std::io::Error>)
        ensures
            final(buf)@.len() == old(buf)@.len(),
            result matches Ok(n) ==> n <= old(buf)@.len(),
    ;
}

/// The smaller of two numbers.
pub open spec fn min(a: int, b: int) -> int {
    if a <= b {
        a
    } else {
        b
    }
}

/// A region of memory that is read from front to back.
pub struct Cursor {
    bytes: Vec<u8>,
    position: usize,
}

impl Cursor {
    #[verifier::type_invariant]
    spec fn in_bounds(self) -> bool {
        self.position <= self.bytes@.len()
    }

    /// All the bytes of the region.
    pub closed spec fn bytes(&self) -> Seq<u8> {
        self.bytes@
    }

    /// The number of bytes that were read since the cursor was made or reset.
    pub closed spec fn position(&self) -> nat {
        if self.position <= self.bytes@.len() {
            self.position as nat
        } else {
            self.bytes@.len()
        }
    }

    /// A cursor never stands behind the last byte of its region.
    pub proof fn lemma_position_in_bounds(&self)
        ensures
            self.position() <= self.bytes().len(),
    {
    }

    /// The bytes that are still to be read.
    pub open spec fn remaining(&self) -> Seq<u8> {
        self.bytes().skip(self.position() as int)
    }

    /// Creates a cursor at the front of the bytes.
    pub fn new(bytes: Vec<u8>) -> (cursor: Cursor)
        ensures
            cursor.bytes() == bytes@,
            cursor.position() == 0,
    {
        Cursor { bytes, position: 0 }
    }

    /// Returns the number of bytes of the region.
    pub fn len(&self) -> (len: usize)
        ensures
            len == self.bytes().len(),
            self.position() <= len,
    {
        proof {
            use_type_invariant(self);
        }
        self.bytes.len()
    }

    /// Moves the cursor behind the last byte and returns how many bytes it passed.
    pub fn skip_rest(&mut self) -> (n: usize)
        ensures
            n == old(self).remaining().len(),
            old(self).position() <= old(self).bytes().len(),
            final(self).bytes() == old(self).bytes(),
            final(self).position() == old(self).bytes().len(),
    {
        proof {
            use_type_invariant(&*self);
        }
        let n = self.bytes.len() - self.position;
        self.position = self.bytes.len();
        n
    }

    /// Gives the bytes of the region back.
    pub fn into_inner(self) -> (bytes: Vec<u8>)
        ensures
            bytes@ == self.bytes(),
    {
        self.bytes
    }

    /// Puts the cursor back to the front of the bytes.
    pub fn reset(&mut self)
        ensures
            final(self).bytes() == old(self).bytes(),
            final(self).position() == 0,
    {
        self.position = 0;
    }

    /// Copies the bytes that are still to be read into the front of `buf`, as far as `buf`
    /// has room, and moves the cursor behind them.
    pub fn take(&mut self, buf: &mut [u8]) -> (n: usize)
        ensures
            n == min(old(buf)@.len() as int, old(self).remaining().len() as int),
            final(buf)@.len() == old(buf)@.len(),
            final(buf)@.take(n as int) == old(self).remaining().take(n as int),
            final(buf)@.skip(n as int) == old(buf)@.skip(n as int),
            final(self).bytes() == old(self).bytes(),
            final(self).position() == old(self).position() + n,
            final(self).position() <= final(self).bytes().len(),
    {
        proof {
            use_type_invariant(&*self);
        }
        let left = self.bytes.len() - self.position;
        let n: usize = if buf.len() <= left {
            buf.len()
        } else {
            left
        };
        let start = self.position;
        let mut i: usize = 0;
        while i < n
            invariant
                i <= n,
                n <= buf@.len(),
                start + n <= self.bytes.len(),
                start == old(self).position,
                self.position == start,
                self.bytes == old(self).bytes,
                buf@.len() == old(buf)@.len(),
                buf@.take(i as int) == self.bytes@.skip(start as int).take(i as int),
                buf@.skip(i as int) == old(buf)@.skip(i as int),
            decreases n - i,
        {
            let ghost before = buf@;
            buf[i] = self.bytes[start + i];
            proof {
                let rest = self.bytes@.skip(start as int);
                let got = buf@.take(i + 1);
                let want = rest.take(i + 1);
                assert(got =~= want) by {
                    assert forall|j: int| 0 <= j < got.len() implies got[j] == want[j] by {
                        if j < i {
                            assert(before.take(i as int)[j] == rest.take(i as int)[j]);
                        }
                    }
                }
                let tail = buf@.skip(i + 1);
                let kept = old(buf)@.skip(i + 1);
                assert(tail =~= kept) by {
                    assert forall|j: int| 0 <= j < tail.len() implies tail[j] == kept[j] by {
                        assert(before.skip(i as int)[j + 1] == old(buf)@.skip(i as int)[j + 1]);
                    }
                }
            }
            i = i + 1;
        }
        self.position = start + n;
        n
    }
}

impl Source for Cursor {
    /// Reading from memory never fails and never blocks.
    fn read(&mut self, buf: &mut [u8]) -> (result: Result<usize, std::io::Error>)
        ensures
            result matches Ok(n) && n == min(
                old(buf)@.len() as int,
                old(self).remaining().len() as int,
            ),
    {
        Ok(self.take(buf))
    }
}

/// What a [`Body`] is made of.
enum Inner {
    /// No body at all.
    Empty,
    /// A body that lies in memory.
    Buffer(Cursor),
    /// A body that is read from a source, with its length where that is known.
    Reader(Box<dyn Source>, Option<u64>),
}

/// A [`Body`] as a mathematical value.
pub enum BodyView {
    /// No body at all.
    Empty,
    /// A body that lies in memory: all its bytes, and how many of them were read.
    Buffer { bytes: Seq<u8>, position: nat },
    /// A body that is read from a source: its length where that is known, and how many
    /// bytes it has yielded so far.
    Reader { length: Option<u64>, yielded: nat },
}

/// Contains the body of a synchronous HTTP request or response.
///
/// This type is used to encapsulate the underlying stream or region of memory where the
/// contents of the body are stored. A [`Body`] can be created from many types of sources
/// using [`From`] or one of its constructor functions.
///
/// A body whose length is known never yields more bytes than that: where its source has
/// more, they are not read.
pub struct Body {
    inner: Inner,
    /// The number of bytes that a stream of known length may still yield.
    left: u64,
    /// The number of bytes that a stream has yielded.
    yielded: Ghost<nat>,
}

impl View for Body {
    type V = BodyView;

    closed spec fn view(&self) -> BodyView {
        match self.inner {
            Inner::Empty => BodyView::Empty,
            Inner::Buffer(cursor) => BodyView::Buffer {
                bytes: cursor.bytes(),
                position: cursor.position(),
            },
            Inner::Reader(_, length) => BodyView::Reader {
                length,
                yielded: match length {
                    Some(l) => (l - min(self.left as int, l as int)) as nat,
                    None => self.yielded@,
                },
            },
        }
    }
}

impl BodyView {
    /// The number of bytes of the body, where it is known before the body is read.
    pub open spec fn len(self) -> Option<u64> {
        match self {
            BodyView::Empty => Some(0),
            BodyView::Buffer { bytes, position } => Some(bytes.len() as u64),
            BodyView::Reader { length, yielded } => length,
        }
    }

    /// The bytes that reading the body to its end yields, where the body lies in memory.
    pub open spec fn remaining(self) -> Seq<u8> {
        match self {
            BodyView::Buffer { bytes, position } => bytes.skip(position as int),
            _ => Seq::empty(),
        }
    }

    /// The body after `n` of its bytes were read.
    pub open spec fn advanced(self, n: nat) -> BodyView {
        match self {
            BodyView::Empty => self,
            BodyView::Buffer { bytes, position } => BodyView::Buffer {
                bytes,
                position: position + n,
            },
            BodyView::Reader { length, yielded } => BodyView::Reader {
                length,
                yielded: yielded + n,
            },
        }
    }

    /// Whether the body has yielded no more bytes than it has.
    pub open spec fn in_bounds(self) -> bool {
        match self {
            BodyView::Empty => true,
            BodyView::Buffer { bytes, position } => position <= bytes.len(),
            BodyView::Reader { length, yielded } => length matches Some(l) ==> yielded <= l,
        }
    }

    /// Whether the body may yield `n` bytes more: a stream of known length yields no more
    /// bytes than its length.
    pub open spec fn may_yield(self, n: nat) -> bool {
        self matches BodyView::Reader { length: Some(l), yielded } ==> yielded + n <= l
    }

    /// Whether the body is a stream of known length that has yielded all its bytes.
    pub open spec fn is_exhausted(self) -> bool {
        self matches BodyView::Reader { length: Some(l), yielded } && yielded >= l
    }
}

/// What follows one read of a body that is read to its end.
#[derive(Debug)]
pub enum ReadStep {
    /// So many bytes were read: they are taken, and the body is read again.
    Bytes(usize),
    /// The body has ended.
    End,
    /// The read was interrupted: it is made again.
    Retry,
    /// The read has failed: the reading ends with this error.
    Fail(std::io::Error),
}

/// What follows a read that came to `outcome`, where `kind` is the kind of the error of a
/// read that failed, and `retries` is the number of reads that were made again so far.
///
/// A read without bytes is the end. A read that was interrupted is made again, as long as
/// the reads that are made again can be counted. Any other error ends the reading, and is
/// handed on as it is.
pub open spec fn decided(
    outcome: Result<usize, std::io::Error>,
    kind: IoErrorKind,
    retries: usize,
) -> ReadStep {
    match outcome {
        Ok(n) => if n == 0 {
            ReadStep::End
        } else {
            ReadStep::Bytes(n)
        },
        Err(e) => if kind == IoErrorKind::Interrupted && retries < usize::MAX {
            ReadStep::Retry
        } else {
            ReadStep::Fail(e)
        },
    }
}

/// Says what follows a read that came to `outcome`, as [`decided`] has it.
pub fn read_step(outcome: Result<usize, std::io::Error>, kind: IoErrorKind, retries: usize) -> (step: ReadStep)
    ensures
        step == decided(outcome, kind, retries),
{
    match outcome {
        Ok(n) => {
            if n == 0 {
                ReadStep::End
            } else {
                ReadStep::Bytes(n)
            }
        },
        Err(e) => {
            if kind == IoErrorKind::Interrupted && retries < usize::MAX {
                ReadStep::Retry
            } else {
                ReadStep::Fail(e)
            }
        },
    }
}

/// Puts the first `n` bytes of `chunk` behind the bytes of `out`.
pub fn gather(out: &mut Vec<u8>, chunk: &[u8], n: usize)
    requires
        n <= chunk@.len(),
    ensures
        final(out)@ == old(out)@ + chunk@.take(n as int),
{
    let mut i: usize = 0;
    assert(out@ =~= old(out)@ + chunk@.take(0));
    while i < n
        invariant
            i <= n,
            n <= chunk@.len(),
            out@ == old(out)@ + chunk@.take(i as int),
        decreases n - i,
    {
        out.push(chunk[i]);
        proof {
            assert(chunk@.take(i + 1) =~= chunk@.take(i as int).push(chunk@[i as int]));
            assert(out@ =~= old(out)@ + chunk@.take(i + 1));
        }
        i = i + 1;
    }
}

impl Body {
    /// Creates an empty body.
    ///
    /// An empty body represents the *absence* of a body, which is semantically different
    /// than the presence of a body of zero length.
    pub fn empty() -> (body: Body)
        ensures
            body@ == BodyView::Empty,
    {
        Body { inner: Inner::Empty, left: 0, yielded: Ghost(0) }
    }

    /// Creates a body from a region of memory.
    pub fn from_bytes_static(bytes: Vec<u8>) -> (body: Body)
        ensures
            body@ == (BodyView::Buffer { bytes: bytes@, position: 0 }),
    {
        Body { inner: Inner::Buffer(Cursor::new(bytes)), left: 0, yielded: Ghost(0) }
    }

    /// Creates a body from a source of bytes of unknown length.
    pub fn from_reader<R: Source + 'static>(reader: R) -> (body: Body)
        ensures
            body@ == (BodyView::Reader { length: None, yielded: 0 }),
    {
        Body { inner: Inner::Reader(Box::new(reader), None), left: 0, yielded: Ghost(0) }
    }

    /// Creates a body from a source of bytes with a known length.
    ///
    /// The body yields no more than `length` bytes, whatever the source has. Giving a length
    /// that is greater than the number of bytes that the source yields is likely to fail
    /// the request, or to have it end early.
    pub fn from_reader_sized<R: Source + 'static>(reader: R, length: u64) -> (body: Body)
        ensures
            body@ == (BodyView::Reader { length: Some(length), yielded: 0 }),
    {
        Body {
            inner: Inner::Reader(Box::new(reader), Some(length)),
            left: length,
            yielded: Ghost(0),
        }
    }

    /// A body never yields more bytes than it has: a body in memory is read up to its last
    /// byte, and a stream of known length has yielded no more bytes than its length.
    pub proof fn lemma_within_length(&self)
        ensures
            self@.in_bounds(),
    {
        match self.inner {
            Inner::Buffer(cursor) => {
                cursor.lemma_position_in_bounds();
            },
            _ => {},
        }
    }

    /// Reports whether there is no body at all, which is not the same as a body of zero
    /// length.
    pub fn is_empty(&self) -> (empty: bool)
        ensures
            empty == (self@ is Empty),
    {
        match &self.inner {
            Inner::Empty => true,
            _ => false,
        }
    }

    /// Gets the size of the body, if known.
    ///
    /// The size is known of a body that is absent or lies in memory, and of a stream that
    /// was made with its length.
    pub fn len(&self) -> (len: Option<u64>)
        ensures
            len == self@.len(),
            self@ matches BodyView::Buffer { bytes, position } ==> position <= bytes.len()
                <= u64::MAX,
    {
        match &self.inner {
            Inner::Empty => Some(0),
            Inner::Buffer(cursor) => Some(cursor.len() as u64),
            Inner::Reader(_, len) => *len,
        }
    }

    /// If this body is repeatable, reset the body stream back to the start of the content.
    /// Returns `false` if the body cannot be reset, which is so for every stream.
    pub fn reset(&mut self) -> (repeatable: bool)
        ensures
            repeatable == !(old(self)@ is Reader),
            final(self)@ == match old(self)@ {
                BodyView::Buffer { bytes, position } => BodyView::Buffer { bytes, position: 0 },
                other => other,
            },
    {
        match &mut self.inner {
            Inner::Empty => true,
            Inner::Buffer(cursor) => {
                cursor.reset();
                true
            },
            Inner::Reader(_, _) => false,
        }
    }

    /// Reads bytes of the body into the front of `buf` and returns how many there are. Zero
    /// bytes stand for the end of the body, unless `buf` is empty.
    ///
    /// A body that lies in memory yields as many bytes as are left, and at most as many as
    /// `buf` holds; reading it never fails. Of a stream, what its source yields is handed
    /// on. A stream of known length is read no further than its length: its source is asked
    /// for no more bytes than the stream may still yield, and not at all when the stream has
    /// yielded them all.
    pub fn read(&mut self, buf: &mut [u8]) -> (result: Result<usize, std::io::Error>)
        ensures
            final(buf)@.len() == old(buf)@.len(),
            result matches Ok(n) ==> n <= old(buf)@.len() && final(self)@ == old(self)@.advanced(
                n as nat,
            ),
            result is Err ==> final(self)@ == old(self)@,
            old(self)@.in_bounds(),
            final(self)@.in_bounds(),
            old(self)@.is_exhausted() ==> (result matches Ok(n) && n == 0
                && final(buf)@ == old(buf)@),
            match old(self)@ {
                BodyView::Empty => {
                    &&& result matches Ok(n) && n == 0
                    &&& final(buf)@ == old(buf)@
                },
                BodyView::Buffer { bytes, position } => {
                    &&& result matches Ok(n) && n == min(
                        old(buf)@.len() as int,
                        bytes.len() - position,
                    )
                    &&& final(buf)@.take(result->Ok_0 as int) == old(self)@.remaining().take(
                        result->Ok_0 as int,
                    )
                    &&& final(buf)@.skip(result->Ok_0 as int) == old(buf)@.skip(
                        result->Ok_0 as int,
                    )
                },
                BodyView::Reader { length, yielded } => true,
            },
    {
        proof {
            self.lemma_within_length();
        }
        let length = match &self.inner {
            Inner::Reader(_, length) => *length,
            _ => None,
        };
        if let Some(l) = length {
            let allowance = if self.left <= l {
                self.left
            } else {
                l
            };
            if allowance == 0 {
                return Ok(0);
            }
            if allowance < buf.len() as u64 {
                let room = allowance as usize;
                let mut short: Vec<u8> = vec![0u8; room];
                let outcome = match &mut self.inner {
                    Inner::Reader(reader, _) => reader.read(short.as_mut_slice()),
                    _ => Ok(0),
                };
                match &outcome {
                    Ok(n) => {
                        let n: usize = *n;
                        let mut i: usize = 0;
                        while i < n
                            invariant
                                i <= n,
                                n <= short@.len(),
                                short@.len() < buf@.len(),
                                buf@.len() == old(buf)@.len(),
                            decreases n - i,
                        {
                            buf[i] = short[i];
                            i = i + 1;
                        }
                    },
                    Err(_) => {},
                }
                return self.after_read(outcome);
            }
        }
        match &mut self.inner {
            Inner::Empty => Ok(0),
            Inner::Buffer(cursor) => Ok(cursor.take(buf)),
            Inner::Reader(reader, _) => {
                let outcome = reader.read(buf);
                self.after_read(outcome)
            },
        }
    }

    /// Takes what one read of the source of a stream came to: the bytes that were read are
    /// counted as yielded, and the outcome is handed on as it is.
    pub fn after_read(&mut self, outcome: Result<usize, std::io::Error>) -> (result: Result<
        usize,
        std::io::Error,
    >)
        requires
            old(self)@ is Reader,
            outcome matches Ok(n) ==> old(self)@.may_yield(n as nat),
        ensures
            result == outcome,
            result matches Ok(n) ==> final(self)@ == old(self)@.advanced(n as nat),
            result is Err ==> final(self)@ == old(self)@,
    {
        match &outcome {
            Ok(n) => {
                let length = match &self.inner {
                    Inner::Reader(_, length) => *length,
                    _ => None,
                };
                match length {
                    Some(l) => {
                        let allowance = if self.left <= l {
                            self.left
                        } else {
                            l
                        };
                        self.left = allowance - *n as u64;
                    },
                    None => {
                        self.yielded = Ghost(self.yielded@ + *n as nat);
                    },
                }
            },
            Err(_) => {},
        }
        outcome
    }

    /// Reads the body to its end and returns the bytes that were read.
    ///
    /// A body that lies in memory yields all the bytes that were not read before, which for
    /// a body that is new or was reset are as many as [`Body::len`] says. A stream is
    /// read until it ends or fails; what follows each read is said by [`read_step`], and
    /// the bytes that were read are put together by [`gather`]. Where a stream fails, the
    /// bytes that were read before are lost.
    pub fn drain(&mut self) -> (result: Result<Vec<u8>, std::io::Error>)
        ensures
            result matches Ok(bytes) ==> final(self)@ == old(self)@.advanced(bytes@.len()),
            exists|n: nat| final(self)@ == old(self)@.advanced(n),
            final(self)@.in_bounds(),
            !(old(self)@ is Reader) ==> (result matches Ok(bytes) && bytes@
                == old(self)@.remaining()),
    {
        let mut out: Vec<u8> = Vec::new();
        let mut chunk: Vec<u8> = vec![0u8; 16384];
        let mut interruptions: usize = 0;
        let ghost start = self@;
        if let Some(len) = self.len() {
            if len <= usize::MAX as u64 {
                let _ = out.try_reserve(len as usize);
            }
        }
        proof {
            self.lemma_within_length();
            assert(out@ =~= start.remaining().take(0));
            assert(start.advanced(0) == start);
        }
        loop
            invariant
                chunk@.len() == 16384,
                out@.len() <= usize::MAX,
                start == old(self)@,
                self@ == start.advanced(out@.len()),
                self@.in_bounds(),
                start is Empty ==> out@.len() == 0,
                start matches BodyView::Buffer { bytes, position } ==> {
                    &&& position + out@.len() <= bytes.len()
                    &&& out@ == start.remaining().take(out@.len() as int)
                },
            decreases (usize::MAX - out@.len()) + (usize::MAX - interruptions),
        {
            let ghost before = out@;
            let ghost body_before = self@;
            let outcome = self.read(chunk.as_mut_slice());
            let kind = match &outcome {
                Err(e) => io_error_kind(e),
                Ok(_) => IoErrorKind::Other,
            };
            match read_step(outcome, kind, interruptions) {
                ReadStep::End => {
                    proof {
                        if let BodyView::Buffer { bytes, position } = start {
                            assert(start.remaining().take(out@.len() as int)
                                =~= start.remaining());
                        }
                        if start is Empty {
                            assert(out@ =~= start.remaining());
                        }
                        assert(body_before.advanced(0) == body_before);
                    }
                    return Ok(out);
                },
                ReadStep::Bytes(n) => {
                    proof {
                        assert(start.advanced(before.len()).advanced(n as nat) == start.advanced(
                            (before.len() + n) as nat,
                        ));
                    }
                    if n > usize::MAX - out.len() {
                        return Err(io_error_of_kind(IoErrorKind::Other));
                    }
                    gather(&mut out, chunk.as_slice(), n);
                    proof {
                        if let BodyView::Buffer { bytes, position } = start {
                            let rest = start.remaining();
                            let done = before.len() as int;
                            assert(body_before.remaining() =~= rest.skip(done));
                            assert(rest.take(done + n) =~= rest.take(done) + rest.skip(done).take(
                                n as int,
                            ));
                            assert(out@ =~= rest.take(done + n));
                        }
                    }
                },
                ReadStep::Retry => {
                    interruptions = interruptions + 1;
                },
                ReadStep::Fail(e) => {
                    return Err(e);
                },
            }
        }
    }

    /// Reads the body to its end and throws its bytes away. Returns how many bytes were
    /// read.
    ///
    /// A body that lies in memory yields all the bytes that were not read before. A stream is
    /// read until it ends or fails; what follows each read is said by [`read_step`].
    pub fn skip_to_end(&mut self) -> (result: Result<u64, std::io::Error>)
        ensures
            result matches Ok(n) ==> final(self)@ == old(self)@.advanced(n as nat),
            exists|n: nat| final(self)@ == old(self)@.advanced(n),
            final(self)@.in_bounds(),
            !(old(self)@ is Reader) ==> (result matches Ok(n) && n
                == old(self)@.remaining().len()),
    {
        proof {
            self.lemma_within_length();
            assert(self@.advanced(0) == self@);
        }
        match &mut self.inner {
            Inner::Empty => {
                return Ok(0);
            },
            Inner::Buffer(cursor) => {
                return Ok(cursor.skip_rest() as u64);
            },
            Inner::Reader(_, _) => {},
        }
        let mut total: u64 = 0;
        let mut chunk: Vec<u8> = vec![0u8; 16384];
        let mut interruptions: usize = 0;
        loop
            invariant
                chunk@.len() == 16384,
                self@ == old(self)@.advanced(total as nat),
                self@.in_bounds(),
                self@ is Reader,
            decreases (u64::MAX - total) + (usize::MAX - interruptions),
        {
            let ghost body_before = self@;
            let outcome = self.read(chunk.as_mut_slice());
            let kind = match &outcome {
                Err(e) => io_error_kind(e),
                Ok(_) => IoErrorKind::Other,
            };
            match read_step(outcome, kind, interruptions) {
                ReadStep::End => {
                    proof {
                        assert(body_before.advanced(0) == body_before);
                    }
                    return Ok(total);
                },
                ReadStep::Bytes(n) => {
                    proof {
                        let start = old(self)@;
                        assert(start.advanced(total as nat).advanced(n as nat)
                            == start.advanced((total + n) as nat));
                    }
                    if n as u64 > u64::MAX - total {
                        return Err(io_error_of_kind(IoErrorKind::Other));
                    }
                    total = total + n as u64;
                },
                ReadStep::Retry => {
                    interruptions = interruptions + 1;
                },
                ReadStep::Fail(e) => {
                    return Err(e);
                },
            }
        }
    }

    /// Reports whether the body is read from a source.
    pub fn is_stream(&self) -> (stream: bool)
        ensures
            stream == (self@ is Reader),
    {
        match &self.inner {
            Inner::Reader(_, _) => true,
            _ => false,
        }
    }
}


/// A body that is absent or lies in memory, and of which nothing was read yet, yields as
/// many bytes when it is read to its end as it says that it has.
pub proof fn lemma_drained_length(body: BodyView, n: u64)
    requires
        !(body is Reader),
        body matches BodyView::Buffer { bytes, position } ==> position == 0 && bytes.len()
            <= u64::MAX,
        body.len() == Some(n),
    ensures
        body.remaining().len() == n,
{
}

/// A body of known length of which nothing was read yet yields no more bytes than its
/// length, however it is read: a body that has yielded `k` bytes since then, and is in
/// bounds as every body is, has not yielded more than `n`.
pub proof fn lemma_yields_at_most_length(body: BodyView, n: u64, k: nat)
    requires
        body.len() == Some(n),
        body matches BodyView::Buffer { bytes, position } ==> position == 0 && bytes.len()
            <= u64::MAX,
        body matches BodyView::Reader { length, yielded } ==> yielded == 0,
        !(body is Empty),
        body.advanced(k).in_bounds(),
    ensures
        k <= n,
{
}

impl From<()> for Body {
    /// The body of zero length that lies in memory.
    fn from(unit: ()) -> (body: Body)
        ensures
            body@ == (BodyView::Buffer { bytes: Seq::empty(), position: 0 }),
    {
        Body::from_bytes_static(Vec::new())
    }
}

impl FromSpecImpl<()> for Body {
    open spec fn obeys_from_spec() -> bool {
        false
    }

    open spec fn from_spec(unit: ()) -> Body {
        arbitrary()
    }
}

impl From<Vec<u8>> for Body {
    fn from(body: Vec<u8>) -> (result: Body)
        ensures
            result@ == (BodyView::Buffer { bytes: body@, position: 0 }),
    {
        Body::from_bytes_static(body)
    }
}

impl FromSpecImpl<Vec<u8>> for Body {
    open spec fn obeys_from_spec() -> bool {
        false
    }

    open spec fn from_spec(body: Vec<u8>) -> Body {
        arbitrary()
    }
}

impl From<&[u8]> for Body {
    fn from(body: &[u8]) -> (result: Body)
        ensures
            result@ == (BodyView::Buffer { bytes: body@, position: 0 }),
    {
        Body::from_bytes_static(vstd::slice::slice_to_vec(body))
    }
}

impl FromSpecImpl<&[u8]> for Body {
    open spec fn obeys_from_spec() -> bool {
        false
    }

    open spec fn from_spec(body: &[u8]) -> Body {
        arbitrary()
    }
}

impl From<String> for Body {
    /// The body holds the bytes of the text in UTF-8.
    fn from(body: String) -> (result: Body)
        ensures
            result@ == (BodyView::Buffer { bytes: vstd::utf8::encode_utf8(body@), position: 0 }),
    {
        Body::from_bytes_static(body.as_str().as_bytes_vec())
    }
}

impl FromSpecImpl<String> for Body {
    open spec fn obeys_from_spec() -> bool {
        false
    }

    open spec fn from_spec(body: String) -> Body {
        arbitrary()
    }
}

impl From<&str> for Body {
    /// The body holds the bytes of the text in UTF-8.
    fn from(body: &str) -> (result: Body)
        ensures
            result@ == (BodyView::Buffer { bytes: vstd::utf8::encode_utf8(body@), position: 0 }),
    {
        Body::from_bytes_static(body.as_bytes_vec())
    }
}

impl FromSpecImpl<&str> for Body {
    open spec fn obeys_from_spec() -> bool {
        false
    }

    open spec fn from_spec(body: &str) -> Body {
        arbitrary()
    }
}

/// The number of bytes that a [`Writer`] reads from its source at once.
pub const BUF_SIZE: usize = 16384;

/// How far a [`Writer`] got.
#[derive(Debug)]
pub enum Copying {
    /// The source has ended, all its bytes are in the pipe, and the writing end is closed.
    Done,
    /// The pipe has no room for the bytes that were read last. They are kept, and the
    /// writer goes on when it is called after the consumer has read.
    Pending,
    /// A read was interrupted. The writer goes on when it is called again.
    Interrupted,
    /// The source has failed, or the pipe is broken. The writing end is closed.
    Failed(std::io::Error),
}

/// A [`Writer`] as a mathematical value.
pub struct WriterView {
    /// The bytes that were read from the source and are not in the pipe yet.
    pub waiting: Seq<u8>,
    /// All the bytes that were ever read from the source, in order.
    pub pulled: Seq<u8>,
    /// The number of bytes that may still be read from the source, where the stream has a
    /// known length.
    pub allowance: Option<nat>,
}

impl WriterView {
    /// Whether `n` bytes more may be read from the source.
    pub open spec fn may_pull(self, n: nat) -> bool {
        self.allowance matches Some(a) ==> n <= a
    }

    /// The allowance after `n` bytes more were read from the source.
    pub open spec fn allowance_after(self, n: nat) -> Option<nat> {
        match self.allowance {
            Some(a) => Some((a - n) as nat),
            None => None,
        }
    }

    /// The writer after a read that has put `bytes` into its buffer: they are what is
    /// waiting, and they are the last of the bytes that were read.
    pub open spec fn with_read(self, bytes: Seq<u8>) -> WriterView {
        WriterView {
            waiting: bytes,
            pulled: self.pulled + bytes,
            allowance: self.allowance_after(bytes.len()),
        }
    }
}

/// The pipe after its writer has closed its end, cleanly or with a failure. An end that is
/// closed stays as it is.
pub open spec fn writer_closed(pipe: PipeView, failure: Option<crate::error::ErrorKind>) -> PipeView {
    if pipe.writer == WriterEnd::Open {
        PipeView {
            writer: match failure {
                Some(kind) => WriterEnd::Failed(kind),
                None => WriterEnd::Closed,
            },
            ..pipe
        }
    } else {
        pipe
    }
}

/// Whether a writer and a pipe are left as `after` and `piped` by a run of the writer that
/// found them as `before` and `pipe` and came to `result`.
///
/// Whatever the source yields: the consumer's end of the pipe is untouched, and the bytes
/// that were read from the source are in the pipe, but for the piece that is waiting, and in
/// the order in which they were read. The piece that is waiting is no longer than
/// [`BUF_SIZE`]. Of a stream of known length no more bytes were read than its allowance.
/// When the writer is done, nothing is waiting and the writing end is closed. When it is
/// pending, the piece that is waiting does not fit into the pipe. When it has failed, an
/// end of the pipe is closed.
pub open spec fn copied(
    before: WriterView,
    pipe: PipeView,
    after: WriterView,
    piped: PipeView,
    result: Copying,
) -> bool {
    &&& piped.capacity == pipe.capacity
    &&& piped.taken == pipe.taken
    &&& piped.reader_open == pipe.reader_open
    &&& after.waiting.len() <= BUF_SIZE
    &&& before.pulled.len() <= after.pulled.len()
    &&& after.pulled.take(before.pulled.len() as int) == before.pulled
    &&& piped.written + after.waiting == pipe.written + before.waiting + after.pulled.skip(
        before.pulled.len() as int,
    )
    &&& before.may_pull((after.pulled.len() - before.pulled.len()) as nat)
    &&& after.allowance == before.allowance_after(
        (after.pulled.len() - before.pulled.len()) as nat,
    )
    &&& match result {
        Copying::Done => {
            &&& after.waiting.len() == 0
            &&& piped.writer == if pipe.writer == WriterEnd::Open {
                WriterEnd::Closed
            } else {
                pipe.writer
            }
        },
        Copying::Pending => {
            &&& piped.writer == WriterEnd::Open
            &&& piped.reader_open
            &&& after.waiting.len() > piped.free()
        },
        Copying::Interrupted => {
            &&& after.waiting.len() == 0
            &&& piped.writer == pipe.writer
        },
        Copying::Failed(_) => piped.writer != WriterEnd::Open || !piped.reader_open,
    }
}

/// A writer that is done has put into the pipe exactly the bytes that it has read from its
/// source, in the order in which it has read them, behind the bytes that were waiting: no
/// byte is lost, none is there twice.
pub proof fn lemma_copied_in_order(
    before: WriterView,
    pipe: PipeView,
    after: WriterView,
    piped: PipeView,
    result: Copying,
)
    requires
        copied(before, pipe, after, piped, result),
        result is Done || result is Interrupted,
    ensures
        piped.written == pipe.written + before.waiting + after.pulled.skip(
            before.pulled.len() as int,
        ),
        after.pulled == before.pulled + after.pulled.skip(before.pulled.len() as int),
{
    assert(piped.written + after.waiting =~= piped.written);
    assert(after.pulled =~= after.pulled.take(before.pulled.len() as int) + after.pulled.skip(
        before.pulled.len() as int,
    ));
}

/// Copies the bytes of a synchronous source into a pipe.
pub struct Writer {
    reader: Box<dyn Source>,
    waiting: Vec<u8>,
    pulled: Ghost<Seq<u8>>,
    /// The number of bytes that may still be read, where the stream has a known length.
    left: Option<u64>,
}

impl View for Writer {
    type V = WriterView;

    closed spec fn view(&self) -> WriterView {
        WriterView {
            waiting: self.waiting@,
            pulled: self.pulled@,
            allowance: match self.left {
                Some(left) => Some(left as nat),
                None => None,
            },
        }
    }
}

impl Writer {
    /// The invariant of a writer: it keeps no more bytes than it reads at once.
    pub closed spec fn wf(&self) -> bool {
        self.waiting@.len() <= BUF_SIZE
    }

    /// Creates a writer that has read nothing from the source so far, and reads it to its
    /// end.
    pub fn new(reader: Box<dyn Source>) -> (writer: Writer)
        ensures
            writer.wf(),
            writer@ == (WriterView {
                waiting: Seq::empty(),
                pulled: Seq::empty(),
                allowance: None,
            }),
    {
        Writer { reader, waiting: Vec::new(), pulled: Ghost(Seq::empty()), left: None }
    }

    /// Creates a writer that has read nothing from the source so far, and reads no more
    /// than `limit` bytes from it.
    pub fn bounded(reader: Box<dyn Source>, limit: u64) -> (writer: Writer)
        ensures
            writer.wf(),
            writer@ == (WriterView {
                waiting: Seq::empty(),
                pulled: Seq::empty(),
                allowance: Some(limit as nat),
            }),
    {
        Writer { reader, waiting: Vec::new(), pulled: Ghost(Seq::empty()), left: Some(limit) }
    }

    /// Writes the bytes that are waiting into the pipe, and says how the copying ends where
    /// it ends here.
    ///
    /// Where nothing is waiting, nothing is done. Where the pipe takes the bytes, nothing
    /// is waiting any more, and the copying goes on. Where the pipe has no room for them,
    /// the copying is pending, and nothing has changed. Where the pipe is broken, the
    /// writing end is closed with the failure `Io`, and the copying has failed with an
    /// error of the kind `BrokenPipe`.
    pub fn flush(&mut self, pipe: &mut Pipe) -> (end: Option<Copying>)
        requires
            old(self).wf(),
            old(pipe).wf(),
        ensures
            final(self).wf(),
            final(pipe).wf(),
            old(self)@.waiting.len() == 0 ==> {
                &&& end is None
                &&& final(self)@ == old(self)@
                &&& final(pipe)@ == old(pipe)@
            },
            old(self)@.waiting.len() > 0 ==> match old(pipe)@.write_result(old(self)@.waiting) {
                PipeWrite::Written => {
                    &&& end is None
                    &&& final(self)@ == (WriterView { waiting: Seq::empty(), ..old(self)@ })
                    &&& final(pipe)@ == old(pipe)@.after_write(old(self)@.waiting)
                },
                PipeWrite::Pending => {
                    &&& end matches Some(Copying::Pending)
                    &&& final(self)@ == old(self)@
                    &&& final(pipe)@ == old(pipe)@
                },
                PipeWrite::BrokenPipe => {
                    &&& end == Some(Copying::Failed(io_error_from(IoErrorKind::BrokenPipe)))
                    &&& final(self)@ == old(self)@
                    &&& final(pipe)@ == writer_closed(
                        old(pipe)@,
                        Some(crate::error::ErrorKind::Io),
                    )
                },
            },
    {
        if self.waiting.len() == 0 {
            return None;
        }
        match pipe.write(self.waiting.as_slice()) {
            PipeWrite::Written => {
                self.waiting.clear();
                assert(self.waiting@ =~= Seq::<u8>::empty());
                None
            },
            PipeWrite::Pending => Some(Copying::Pending),
            PipeWrite::BrokenPipe => {
                pipe.close_writer(Some(crate::error::ErrorKind::Io));
                Some(Copying::Failed(io_error_of_kind(IoErrorKind::BrokenPipe)))
            },
        }
    }

    /// Takes what one read of the source came to, and says how the copying ends where it
    /// ends here. The read has put its bytes into the front of `chunk`; `kind` is the kind
    /// of the error of a read that failed.
    ///
    /// A read without bytes is the end of the source: the writing end of the pipe is closed
    /// cleanly, and the copying is done. The bytes of any other read are all that is
    /// waiting now, they are taken off the allowance of a stream of known length, and the
    /// copying goes on. A read that was interrupted changes nothing:
    /// the copying is interrupted, and goes on when the writer is called again. Any other
    /// error closes the writing end with the failure `Io`, and the copying has failed with
    /// that same error.
    pub fn receive(
        &mut self,
        pipe: &mut Pipe,
        chunk: &[u8],
        outcome: Result<usize, std::io::Error>,
        kind: IoErrorKind,
    ) -> (end: Option<Copying>)
        requires
            old(self).wf(),
            old(pipe).wf(),
            old(self)@.waiting.len() == 0,
            chunk@.len() <= BUF_SIZE,
            outcome matches Ok(n) ==> n <= chunk@.len() && old(self)@.may_pull(n as nat),
        ensures
            final(self).wf(),
            final(pipe).wf(),
            match outcome {
                Ok(n) => if n == 0 {
                    &&& end matches Some(Copying::Done)
                    &&& final(self)@ == old(self)@
                    &&& final(pipe)@ == writer_closed(old(pipe)@, None)
                } else {
                    &&& end is None
                    &&& final(self)@ == old(self)@.with_read(chunk@.take(n as int))
                    &&& final(pipe)@ == old(pipe)@
                },
                Err(e) => if kind == IoErrorKind::Interrupted {
                    &&& end matches Some(Copying::Interrupted)
                    &&& final(self)@ == old(self)@
                    &&& final(pipe)@ == old(pipe)@
                } else {
                    &&& end == Some(Copying::Failed(e))
                    &&& final(self)@ == old(self)@
                    &&& final(pipe)@ == writer_closed(
                        old(pipe)@,
                        Some(crate::error::ErrorKind::Io),
                    )
                },
            },
    {
        match outcome {
            Ok(n) => {
                if n == 0 {
                    pipe.close_writer(None);
                    return Some(Copying::Done);
                }
                assert(self.waiting@ =~= Seq::<u8>::empty());
                gather(&mut self.waiting, chunk, n);
                self.pulled = Ghost(self.pulled@ + chunk@.take(n as int));
                self.left = match self.left {
                    Some(left) => Some(left - n as u64),
                    None => None,
                };
                assert(self.waiting@ =~= chunk@.take(n as int));
                None
            },
            Err(e) => {
                if kind == IoErrorKind::Interrupted {
                    return Some(Copying::Interrupted);
                }
                pipe.close_writer(Some(crate::error::ErrorKind::Io));
                Some(Copying::Failed(e))
            },
        }
    }

    /// Copies bytes from the source into the pipe until the source ends or fails, the pipe
    /// is full or broken, or a read is interrupted.
    ///
    /// The bytes that are waiting are written first, as [`Writer::flush`] says. Then the
    /// source is read into a buffer of [`BUF_SIZE`] bytes, and what the read came to is
    /// taken as [`Writer::receive`] says; this is done again and again. Reading the source
    /// may block. A stream of known length is read no further than its length: the buffer
    /// is no longer than its allowance, and a stream without allowance has ended.
    ///
    /// Where bytes are waiting and the pipe does not take them, the source is not read: the
    /// copying is pending and nothing has changed, or the pipe is broken and the copying has
    /// failed. What is known in every case, whatever the source yields, is said by
    /// [`copied`].
    pub fn write(&mut self, pipe: &mut Pipe) -> (result: Copying)
        requires
            old(self).wf(),
            old(pipe).wf(),
        ensures
            final(self).wf(),
            final(pipe).wf(),
            copied(old(self)@, old(pipe)@, final(self)@, final(pipe)@, result),
            old(self)@.waiting.len() > 0 && old(pipe)@.write_result(old(self)@.waiting)
                == PipeWrite::Pending ==> {
                &&& result is Pending
                &&& final(self)@ == old(self)@
                &&& final(pipe)@ == old(pipe)@
            },
            old(self)@.waiting.len() > 0 && old(pipe)@.write_result(old(self)@.waiting)
                == PipeWrite::BrokenPipe ==> {
                &&& result == Copying::Failed(io_error_from(IoErrorKind::BrokenPipe))
                &&& final(self)@ == old(self)@
                &&& final(pipe)@ == writer_closed(old(pipe)@, Some(crate::error::ErrorKind::Io))
            },
    {
        let mut chunk: Vec<u8> = vec![0u8; 16384];
        let ghost mut first = true;
        proof {
            assert(self@.pulled.skip(self@.pulled.len() as int) =~= Seq::<u8>::empty());
            assert(self@.pulled.take(self@.pulled.len() as int) =~= self@.pulled);
            assert(pipe@.written + self@.waiting =~= pipe@.written + self@.waiting
                + Seq::<u8>::empty());
        }
        loop
            invariant
                chunk@.len() <= BUF_SIZE,
                self.wf(),
                pipe.wf(),
                first ==> self@ == old(self)@ && pipe@ == old(pipe)@,
                !first ==> !(old(self)@.waiting.len() > 0 && old(pipe)@.write_result(
                    old(self)@.waiting,
                ) != PipeWrite::Written),
                pipe@.capacity == old(pipe)@.capacity,
                pipe@.taken == old(pipe)@.taken,
                pipe@.reader_open == old(pipe)@.reader_open,
                pipe@.writer == old(pipe)@.writer,
                old(self)@.pulled.len() <= self@.pulled.len(),
                self@.pulled.take(old(self)@.pulled.len() as int) == old(self)@.pulled,
                pipe@.written + self@.waiting == old(pipe)@.written + old(self)@.waiting
                    + self@.pulled.skip(old(self)@.pulled.len() as int),
                old(self)@.may_pull((self@.pulled.len() - old(self)@.pulled.len()) as nat),
                self@.allowance == old(self)@.allowance_after(
                    (self@.pulled.len() - old(self)@.pulled.len()) as nat,
                ),
            decreases pipe@.free(), (if self@.waiting.len() > 0 { 0int } else { 1int }),
        {
            let ghost pipe_before = pipe@;
            let ghost self_before = self@;
            proof {
                pipe.lemma_bytes_preserved();
            }
            match self.flush(pipe) {
                Some(end) => {
                    return end;
                },
                None => {},
            }
            proof {
                first = false;
                assert(self@.waiting =~= Seq::<u8>::empty());
                assert(pipe@.written + self@.waiting =~= pipe_before.written
                    + self_before.waiting);
                pipe.lemma_bytes_preserved();
            }
            let ghost pulled_before = self@.pulled;
            let outcome = match self.left {
                Some(left) => {
                    if left == 0 {
                        Ok(0)
                    } else {
                        if left < chunk.len() as u64 {
                            chunk = vec![0u8; left as usize];
                        }
                        self.reader.read(chunk.as_mut_slice())
                    }
                },
                None => self.reader.read(chunk.as_mut_slice()),
            };
            let kind = match &outcome {
                Err(e) => io_error_kind(e),
                Ok(_) => IoErrorKind::Other,
            };
            match self.receive(pipe, chunk.as_slice(), outcome, kind) {
                Some(end) => {
                    return end;
                },
                None => {},
            }
            proof {
                let base = old(self)@.pulled.len() as int;
                assert(self@.pulled.take(base) =~= pulled_before.take(base));
                assert(self@.pulled.skip(base) =~= pulled_before.skip(base) + self@.waiting);
                assert(pipe@.written + self@.waiting =~= old(pipe)@.written + old(self)@.waiting
                    + self@.pulled.skip(base));
            }
        }
    }
}

/// What an [`AsyncBody`] is made of.
enum AsyncInner {
    /// No body at all.
    Empty,
    /// A body that lies in memory.
    Buffer(Cursor),
    /// A body whose bytes come through a pipe, with its length where that is known.
    Piped(Pipe, Option<u64>),
}

/// An [`AsyncBody`] as a mathematical value.
pub enum AsyncBodyView {
    /// No body at all.
    Empty,
    /// A body that lies in memory: all its bytes, and how many of them were read.
    Buffer { bytes: Seq<u8>, position: nat },
    /// A body whose bytes come through a pipe, with its length where that is known.
    Piped { pipe: PipeView, length: Option<u64> },
}

/// Contains the body of an asynchronous HTTP request or response.
///
/// Reading such a body never blocks: where no byte is there yet, the read is pending.
pub struct AsyncBody {
    inner: AsyncInner,
}

impl View for AsyncBody {
    type V = AsyncBodyView;

    closed spec fn view(&self) -> AsyncBodyView {
        match self.inner {
            AsyncInner::Empty => AsyncBodyView::Empty,
            AsyncInner::Buffer(cursor) => AsyncBodyView::Buffer {
                bytes: cursor.bytes(),
                position: cursor.position(),
            },
            AsyncInner::Piped(pipe, length) => AsyncBodyView::Piped { pipe: pipe@, length },
        }
    }
}

impl AsyncBodyView {
    /// The number of bytes of the body, where it is known before the body is read.
    pub open spec fn len(self) -> Option<u64> {
        match self {
            AsyncBodyView::Empty => Some(0),
            AsyncBodyView::Buffer { bytes, position } => Some(bytes.len() as u64),
            AsyncBodyView::Piped { pipe, length } => length,
        }
    }

    /// The bytes of the body that are there to be read next.
    pub open spec fn unread(self) -> Seq<u8> {
        match self {
            AsyncBodyView::Empty => Seq::empty(),
            AsyncBodyView::Buffer { bytes, position } => bytes.skip(position as int),
            AsyncBodyView::Piped { pipe, length } => pipe.buffered,
        }
    }

    /// What a read of at most `room` bytes comes to. A body that lies in memory is always
    /// ready; of a body whose bytes come through a pipe, the read is what the pipe says.
    pub open spec fn read_result(self, room: nat) -> PipeRead {
        match self {
            AsyncBodyView::Empty => PipeRead::Ready(0),
            AsyncBodyView::Buffer { bytes, position } => PipeRead::Ready(
                min(room as int, bytes.len() - position) as usize,
            ),
            AsyncBodyView::Piped { pipe, length } => pipe.read_result(room),
        }
    }

    /// Whether a writer and this body are left as `after` and `filled` by a run of the
    /// writer that came to `result`: a body without a pipe takes nothing, and the writer is
    /// done at once.
    pub open spec fn filled(
        self,
        before: WriterView,
        after: WriterView,
        filled: AsyncBodyView,
        result: Copying,
    ) -> bool {
        match self {
            AsyncBodyView::Piped { pipe, length } => filled matches AsyncBodyView::Piped {
                pipe: piped,
                length: same,
            } && same == length && copied(before, pipe, after, piped, result),
            _ => result is Done && filled == self && after == before,
        }
    }

    /// The body after `n` of its bytes were read.
    pub open spec fn after_read(self, n: nat) -> AsyncBodyView {
        match self {
            AsyncBodyView::Empty => self,
            AsyncBodyView::Buffer { bytes, position } => AsyncBodyView::Buffer {
                bytes,
                position: position + n,
            },
            AsyncBodyView::Piped { pipe, length } => AsyncBodyView::Piped {
                pipe: pipe.after_read(n as int),
                length,
            },
        }
    }
}

impl AsyncBody {
    /// The invariant of a body: its pipe, where it has one, is well formed.
    pub closed spec fn wf(&self) -> bool {
        match self.inner {
            AsyncInner::Piped(pipe, _) => pipe.wf(),
            _ => true,
        }
    }

    /// Creates an empty body.
    pub fn empty() -> (body: AsyncBody)
        ensures
            body.wf(),
            body@ == AsyncBodyView::Empty,
    {
        AsyncBody { inner: AsyncInner::Empty }
    }

    /// Creates a body from a region of memory.
    pub fn from_bytes_static(bytes: Vec<u8>) -> (body: AsyncBody)
        ensures
            body.wf(),
            body@ == (AsyncBodyView::Buffer { bytes: bytes@, position: 0 }),
    {
        AsyncBody { inner: AsyncInner::Buffer(Cursor::new(bytes)) }
    }

    /// Reports whether there is no body at all.
    pub fn is_empty(&self) -> (empty: bool)
        ensures
            empty == (self@ is Empty),
    {
        match &self.inner {
            AsyncInner::Empty => true,
            _ => false,
        }
    }

    /// Gets the size of the body, if known.
    pub fn len(&self) -> (len: Option<u64>)
        ensures
            len == self@.len(),
    {
        match &self.inner {
            AsyncInner::Empty => Some(0),
            AsyncInner::Buffer(cursor) => Some(cursor.len() as u64),
            AsyncInner::Piped(_, len) => *len,
        }
    }

    /// If this body is repeatable, reset the body stream back to the start of the content.
    /// Returns `false` if the body cannot be reset, which is so where its bytes come
    /// through a pipe.
    pub fn reset(&mut self) -> (repeatable: bool)
        requires
            old(self).wf(),
        ensures
            final(self).wf(),
            repeatable == !(old(self)@ is Piped),
            final(self)@ == match old(self)@ {
                AsyncBodyView::Buffer { bytes, position } => AsyncBodyView::Buffer {
                    bytes,
                    position: 0,
                },
                other => other,
            },
    {
        match &mut self.inner {
            AsyncInner::Empty => true,
            AsyncInner::Buffer(cursor) => {
                cursor.reset();
                true
            },
            AsyncInner::Piped(_, _) => false,
        }
    }

    /// Reads bytes of the body into the front of `buf`, without blocking.
    ///
    /// A body that lies in memory is always ready. Of a body whose bytes come through a
    /// pipe, the read is what [`Pipe::read`] says.
    pub fn read(&mut self, buf: &mut [u8]) -> (result: PipeRead)
        requires
            old(self).wf(),
        ensures
            final(self).wf(),
            final(buf)@.len() == old(buf)@.len(),
            result == old(self)@.read_result(old(buf)@.len()),
            match result {
                PipeRead::Ready(n) => {
                    &&& n <= old(buf)@.len()
                    &&& final(self)@ == old(self)@.after_read(n as nat)
                    &&& final(buf)@.take(n as int) == old(self)@.unread().take(n as int)
                    &&& final(buf)@.skip(n as int) == old(buf)@.skip(n as int)
                },
                _ => final(self)@ == old(self)@ && final(buf)@ == old(buf)@,
            },
    {
        match &mut self.inner {
            AsyncInner::Empty => {
                proof {
                    assert(buf@.take(0) =~= Seq::<u8>::empty().take(0));
                }
                PipeRead::Ready(0)
            },
            AsyncInner::Buffer(cursor) => PipeRead::Ready(cursor.take(buf)),
            AsyncInner::Piped(pipe, _) => pipe.read(buf),
        }
    }

    /// Lets the writer copy bytes of its source into the pipe of this body, as
    /// [`Writer::write`] does. A body that has no pipe takes nothing, and the writer is done.
    pub fn fill(&mut self, writer: &mut Writer) -> (result: Copying)
        requires
            old(self).wf(),
            old(writer).wf(),
        ensures
            final(self).wf(),
            final(writer).wf(),
            old(self)@.filled(old(writer)@, final(writer)@, final(self)@, result),
    {
        match &mut self.inner {
            AsyncInner::Piped(pipe, _) => writer.write(pipe),
            _ => Copying::Done,
        }
    }
}

impl Body {
    /// Convert this body into an asynchronous one.
    ///
    /// If this body lies in memory, the asynchronous body holds the same bytes, and is read
    /// from their start. If this body is read from a source, the asynchronous body gets a
    /// new pipe, and with it comes a [`Writer`] that copies the bytes of the source into a
    /// pipe in a blocking fashion; it is to be run with [`AsyncBody::fill`] where blocking
    /// does no harm. The writer of a stream of known length reads no more bytes than the
    /// stream may still yield.
    pub fn into_async(self) -> (parts: (AsyncBody, Option<Writer>))
        ensures
            parts.0.wf(),
            match self@ {
                BodyView::Empty => parts.0@ == AsyncBodyView::Empty && parts.1 is None,
                BodyView::Buffer { bytes, position } => {
                    &&& parts.0@ == (AsyncBodyView::Buffer { bytes, position: 0 })
                    &&& parts.1 is None
                },
                BodyView::Reader { length, yielded } => {
                    &&& parts.0@ == (AsyncBodyView::Piped {
                        pipe: PipeView {
                            buffered: Seq::empty(),
                            capacity: DEFAULT_CAPACITY as nat,
                            writer: WriterEnd::Open,
                            reader_open: true,
                            written: Seq::empty(),
                            taken: Seq::empty(),
                        },
                        length,
                    })
                    &&& parts.1 matches Some(writer) && writer.wf() && writer@ == (WriterView {
                        waiting: Seq::empty(),
                        pulled: Seq::empty(),
                        allowance: match length {
                            Some(l) => Some((l - yielded) as nat),
                            None => None,
                        },
                    })
                },
            },
    {
        proof {
            self.lemma_within_length();
        }
        let left = self.left;
        match self.inner {
            Inner::Empty => (AsyncBody::empty(), None),
            Inner::Buffer(cursor) => (AsyncBody::from_bytes_static(cursor.into_inner()), None),
            Inner::Reader(reader, len) => {
                let pipe = Pipe::new();
                let writer = match len {
                    Some(l) => Writer::bounded(
                        reader,
                        if left <= l {
                            left
                        } else {
                            l
                        },
                    ),
                    None => Writer::new(reader),
                };
                (AsyncBody { inner: AsyncInner::Piped(pipe, len) }, Some(writer))
            },
        }
    }
}

} // verus!
