use isahc::body::{
    gather, read_step, AsyncBody, Body, Copying, Cursor, ReadStep, Source, Writer, BUF_SIZE,
};
use isahc::error::{ErrorKind, IoErrorKind};
use std::sync::atomic::{AtomicUsize, Ordering};
use std::sync::Arc;
use isahc::pipe::{Pipe, PipeRead, WriterEnd};
use std::io;

/// Yields its bytes in pieces of at most `step` bytes.
struct Pieces {
    data: Vec<u8>,
    pos: usize,
    step: usize,
}

impl Pieces {
    fn new(data: Vec<u8>, step: usize) -> Pieces {
        Pieces { data, pos: 0, step }
    }
}

impl Source for Pieces {
    fn read(&mut self, buf: &mut [u8]) -> io::Result<usize> {
        let n = self.step.min(buf.len()).min(self.data.len() - self.pos);
        buf[..n].copy_from_slice(&self.data[self.pos..self.pos + n]);
        self.pos += n;
        Ok(n)
    }
}

/// Is interrupted once before each piece.
struct Interrupted {
    inner: Pieces,
    interrupt: bool,
}

impl Source for Interrupted {
    fn read(&mut self, buf: &mut [u8]) -> io::Result<usize> {
        self.interrupt = !self.interrupt;
        if self.interrupt {
            Err(io::Error::from(io::ErrorKind::Interrupted))
        } else {
            self.inner.read(buf)
        }
    }
}

/// Yields some bytes and then fails.
struct Failing {
    inner: Pieces,
}

impl Source for Failing {
    fn read(&mut self, buf: &mut [u8]) -> io::Result<usize> {
        match self.inner.read(buf) {
            Ok(0) => Err(io::Error::new(io::ErrorKind::UnexpectedEof, "gone")),
            other => other,
        }
    }
}

fn numbers(n: usize) -> Vec<u8> {
    (0..n).map(|i| (i % 251) as u8).collect()
}

#[test]
fn empty_body_is_absent_and_has_length_zero() {
    let mut body = Body::empty();
    assert!(body.is_empty());
    assert!(!body.is_stream());
    assert_eq!(body.len(), Some(0));
    let mut buf = [7u8; 4];
    assert_eq!(body.read(&mut buf).unwrap(), 0);
    assert_eq!(buf, [7u8; 4]);
    assert!(body.reset());
    assert_eq!(body.drain().unwrap(), Vec::<u8>::new());
}

#[test]
fn body_of_the_unit_is_present_with_length_zero() {
    let body = Body::from(());
    assert!(!body.is_empty());
    assert_eq!(body.len(), Some(0));
}

#[test]
fn memory_body_knows_its_length() {
    assert_eq!(Body::from(vec![1u8, 2, 3]).len(), Some(3));
    assert_eq!(Body::from(&b"hello"[..]).len(), Some(5));
    assert_eq!(Body::from("hello").len(), Some(5));
    assert_eq!(Body::from(String::from("h\u{e9}llo")).len(), Some(6));
    assert_eq!(Body::from_bytes_static(Vec::new()).len(), Some(0));
}

#[test]
fn memory_body_is_read_front_to_back() {
    let mut body = Body::from(vec![10u8, 20, 30, 40, 50]);
    let mut buf = [0u8; 2];
    assert_eq!(body.read(&mut buf).unwrap(), 2);
    assert_eq!(buf, [10, 20]);
    assert_eq!(body.read(&mut buf).unwrap(), 2);
    assert_eq!(buf, [30, 40]);
    assert_eq!(body.read(&mut buf).unwrap(), 1);
    assert_eq!(buf, [50, 40]);
    assert_eq!(body.read(&mut buf).unwrap(), 0);
    assert_eq!(body.len(), Some(5));
}

#[test]
fn read_into_empty_buffer_takes_nothing() {
    let mut body = Body::from(vec![1u8, 2]);
    let mut buf = [0u8; 0];
    assert_eq!(body.read(&mut buf).unwrap(), 0);
    assert_eq!(body.drain().unwrap(), vec![1, 2]);
}

#[test]
fn memory_body_can_be_reset() {
    let mut body = Body::from(vec![1u8, 2, 3]);
    let mut buf = [0u8; 2];
    assert_eq!(body.read(&mut buf).unwrap(), 2);
    assert!(body.reset());
    assert_eq!(body.drain().unwrap(), vec![1, 2, 3]);
    assert!(body.reset());
    assert_eq!(body.skip_to_end().unwrap(), 3);
    assert_eq!(body.skip_to_end().unwrap(), 0);
}

#[test]
fn stream_body_cannot_be_reset() {
    let mut body = Body::from_reader(Pieces::new(vec![1, 2, 3], 2));
    assert!(body.is_stream());
    assert!(!body.is_empty());
    assert_eq!(body.len(), None);
    assert!(!body.reset());
    let mut sized = Body::from_reader_sized(Pieces::new(vec![1, 2, 3], 2), 3);
    assert_eq!(sized.len(), Some(3));
    assert!(!sized.reset());
}

#[test]
fn draining_yields_as_many_bytes_as_the_length_says() {
    for n in [0usize, 1, 5, 16384, 16385, 40000] {
        let mut body = Body::from(numbers(n));
        assert_eq!(body.len(), Some(n as u64));
        let bytes = body.drain().unwrap();
        assert_eq!(bytes.len(), n);
        assert_eq!(bytes, numbers(n));
        assert_eq!(body.drain().unwrap().len(), 0);
    }
}

#[test]
fn draining_a_body_that_was_partly_read_yields_the_rest() {
    let mut body = Body::from(vec![1u8, 2, 3, 4]);
    let mut buf = [0u8; 1];
    body.read(&mut buf).unwrap();
    assert_eq!(body.drain().unwrap(), vec![2, 3, 4]);
}

#[test]
fn stream_is_drained_to_its_end() {
    let mut body = Body::from_reader(Pieces::new(numbers(50000), 7000));
    assert_eq!(body.drain().unwrap(), numbers(50000));
    let mut body = Body::from_reader(Pieces::new(numbers(50000), 7000));
    assert_eq!(body.skip_to_end().unwrap(), 50000);
}

#[test]
fn interrupted_reads_are_made_again() {
    let source = Interrupted { inner: Pieces::new(numbers(100), 30), interrupt: false };
    let mut body = Body::from_reader(source);
    assert_eq!(body.drain().unwrap(), numbers(100));
    let source = Interrupted { inner: Pieces::new(numbers(100), 30), interrupt: false };
    let mut body = Body::from_reader(source);
    assert_eq!(body.skip_to_end().unwrap(), 100);
}

#[test]
fn failure_of_a_stream_is_handed_on() {
    let mut body = Body::from_reader(Failing { inner: Pieces::new(numbers(10), 4) });
    let error = body.drain().unwrap_err();
    assert_eq!(error.kind(), io::ErrorKind::UnexpectedEof);
    let mut body = Body::from_reader(Failing { inner: Pieces::new(numbers(10), 4) });
    assert_eq!(body.skip_to_end().unwrap_err().kind(), io::ErrorKind::UnexpectedEof);
}

#[test]
fn cursor_is_a_source() {
    let mut cursor = Cursor::new(vec![1, 2, 3]);
    assert_eq!(cursor.len(), 3);
    let mut buf = [0u8; 2];
    assert_eq!(Source::read(&mut cursor, &mut buf).unwrap(), 2);
    assert_eq!(buf, [1, 2]);
    assert_eq!(cursor.take(&mut buf), 1);
    assert_eq!(buf, [3, 2]);
    assert_eq!(cursor.take(&mut buf), 0);
    cursor.reset();
    assert_eq!(cursor.skip_rest(), 3);
    assert_eq!(cursor.skip_rest(), 0);
    assert_eq!(cursor.into_inner(), vec![1, 2, 3]);
}

#[test]
fn memory_body_becomes_async_without_a_writer() {
    let mut body = Body::from(vec![1u8, 2, 3]);
    let mut buf = [0u8; 2];
    body.read(&mut buf).unwrap();
    let (mut body, writer) = body.into_async();
    assert!(writer.is_none());
    assert!(!body.is_empty());
    assert_eq!(body.len(), Some(3));
    let mut buf = [0u8; 8];
    assert_eq!(body.read(&mut buf), PipeRead::Ready(3));
    assert_eq!(&buf[..3], &[1, 2, 3]);
    assert_eq!(body.read(&mut buf), PipeRead::Ready(0));
    assert!(body.reset());
    assert_eq!(body.read(&mut buf), PipeRead::Ready(3));
}

#[test]
fn empty_body_becomes_empty_async_body() {
    let (mut body, writer) = Body::empty().into_async();
    assert!(writer.is_none());
    assert!(body.is_empty());
    assert_eq!(body.len(), Some(0));
    let mut buf = [0u8; 8];
    assert_eq!(body.read(&mut buf), PipeRead::Ready(0));
    let mut spare = Writer::new(Box::new(Pieces::new(vec![1], 1)));
    assert!(matches!(body.fill(&mut spare), Copying::Done));
    assert!(AsyncBody::empty().is_empty());
    assert_eq!(AsyncBody::from_bytes_static(vec![1, 2]).len(), Some(2));
}

#[test]
fn stream_body_becomes_async_with_a_writer() {
    let data = numbers(40000);
    let body = Body::from_reader_sized(Pieces::new(data.clone(), 5000), 40000);
    let (mut body, writer) = body.into_async();
    let mut writer = writer.unwrap();
    assert_eq!(body.len(), Some(40000));
    assert!(!body.reset());
    let mut out = Vec::new();
    let mut buf = [0u8; 3000];
    assert_eq!(body.read(&mut buf), PipeRead::Pending);
    loop {
        match body.fill(&mut writer) {
            Copying::Pending | Copying::Done => {}
            other => panic!("writer stopped with {:?}", other),
        }
        loop {
            match body.read(&mut buf) {
                PipeRead::Ready(0) => {
                    assert_eq!(out, data);
                    return;
                }
                PipeRead::Ready(n) => out.extend_from_slice(&buf[..n]),
                PipeRead::Pending => break,
                PipeRead::Failed(kind) => panic!("read failed with {:?}", kind),
            }
        }
    }
}

#[test]
fn writer_reads_in_pieces_of_the_buffer_size() {
    assert_eq!(BUF_SIZE, 16384);
    let mut pipe = Pipe::with_capacity(100000);
    let mut writer = Writer::new(Box::new(Pieces::new(numbers(40000), 40000)));
    assert!(matches!(writer.write(&mut pipe), Copying::Done));
    assert_eq!(pipe.len(), 40000);
    assert_eq!(pipe.writer(), WriterEnd::Closed);
    let mut buf = vec![0u8; 50000];
    assert_eq!(pipe.read(&mut buf), PipeRead::Ready(40000));
    assert_eq!(&buf[..40000], &numbers(40000)[..]);
    assert!(pipe.is_at_end());
}

#[test]
fn writer_waits_for_room_and_goes_on() {
    let mut pipe = Pipe::with_capacity(10);
    let mut writer = Writer::new(Box::new(Pieces::new(numbers(25), 10)));
    assert!(matches!(writer.write(&mut pipe), Copying::Pending));
    assert_eq!(pipe.len(), 10);
    assert!(matches!(writer.write(&mut pipe), Copying::Pending));
    assert_eq!(pipe.len(), 10);
    let mut buf = [0u8; 10];
    assert_eq!(pipe.read(&mut buf), PipeRead::Ready(10));
    assert_eq!(&buf[..], &numbers(25)[..10]);
    assert!(matches!(writer.write(&mut pipe), Copying::Pending));
    assert_eq!(pipe.read(&mut buf), PipeRead::Ready(10));
    assert_eq!(&buf[..], &numbers(25)[10..20]);
    assert!(matches!(writer.write(&mut pipe), Copying::Done));
    assert_eq!(pipe.read(&mut buf), PipeRead::Ready(5));
    assert_eq!(&buf[..5], &numbers(25)[20..]);
    assert_eq!(pipe.read(&mut buf), PipeRead::Ready(0));
}

#[test]
fn writer_yields_when_interrupted() {
    let mut pipe = Pipe::new();
    let source = Interrupted { inner: Pieces::new(vec![1, 2, 3], 2), interrupt: false };
    let mut writer = Writer::new(Box::new(source));
    assert!(matches!(writer.write(&mut pipe), Copying::Interrupted));
    assert_eq!(pipe.len(), 0);
    assert_eq!(pipe.writer(), WriterEnd::Open);
    assert!(matches!(writer.write(&mut pipe), Copying::Interrupted));
    assert_eq!(pipe.len(), 2);
    assert!(matches!(writer.write(&mut pipe), Copying::Interrupted));
    assert_eq!(pipe.len(), 3);
    assert!(matches!(writer.write(&mut pipe), Copying::Done));
    assert_eq!(pipe.writer(), WriterEnd::Closed);
}

#[test]
fn writer_closes_the_pipe_when_the_source_fails() {
    let mut pipe = Pipe::new();
    let mut writer = Writer::new(Box::new(Failing { inner: Pieces::new(vec![1, 2, 3], 2) }));
    match writer.write(&mut pipe) {
        Copying::Failed(error) => assert_eq!(error.kind(), io::ErrorKind::UnexpectedEof),
        other => panic!("writer stopped with {:?}", other),
    }
    assert_eq!(pipe.writer(), WriterEnd::Failed(ErrorKind::Io));
    let mut buf = [0u8; 8];
    assert_eq!(pipe.read(&mut buf), PipeRead::Failed(ErrorKind::Io));
}

#[test]
fn writer_fails_when_nobody_reads() {
    let mut pipe = Pipe::new();
    pipe.close_reader();
    let mut writer = Writer::new(Box::new(Pieces::new(vec![1, 2, 3], 2)));
    match writer.write(&mut pipe) {
        Copying::Failed(error) => assert_eq!(error.kind(), io::ErrorKind::BrokenPipe),
        other => panic!("writer stopped with {:?}", other),
    }
    assert_eq!(pipe.len(), 0);
}

/// Counts how often it is read, and how many bytes it was asked for at most.
struct Counted {
    inner: Pieces,
    reads: Arc<AtomicUsize>,
    widest: Arc<AtomicUsize>,
}

impl Source for Counted {
    fn read(&mut self, buf: &mut [u8]) -> io::Result<usize> {
        self.reads.fetch_add(1, Ordering::SeqCst);
        self.widest.fetch_max(buf.len(), Ordering::SeqCst);
        self.inner.read(buf)
    }
}

#[test]
fn stream_of_known_length_yields_no_more_than_its_length() {
    let mut body = Body::from_reader_sized(Pieces::new(numbers(100), 7), 40);
    assert_eq!(body.len(), Some(40));
    assert_eq!(body.drain().unwrap(), numbers(40));
    let mut buf = [9u8; 8];
    assert_eq!(body.read(&mut buf).unwrap(), 0);
    assert_eq!(buf, [9u8; 8]);
    let mut body = Body::from_reader_sized(Pieces::new(numbers(100), 64), 10);
    let mut buf = [0u8; 64];
    assert_eq!(body.read(&mut buf).unwrap(), 10);
    assert_eq!(&buf[..10], &numbers(10)[..]);
    assert_eq!(body.read(&mut buf).unwrap(), 0);
    let mut body = Body::from_reader_sized(Pieces::new(numbers(100), 64), 100);
    assert_eq!(body.skip_to_end().unwrap(), 100);
    let mut body = Body::from_reader_sized(Pieces::new(numbers(100), 64), 0);
    assert_eq!(body.drain().unwrap(), Vec::<u8>::new());
}

#[test]
fn stream_of_known_length_may_end_before_its_length() {
    let mut body = Body::from_reader_sized(Pieces::new(numbers(3), 2), 5);
    assert_eq!(body.len(), Some(5));
    assert_eq!(body.drain().unwrap(), numbers(3));
}

#[test]
fn stream_that_has_yielded_its_length_is_not_read_again() {
    let reads = Arc::new(AtomicUsize::new(0));
    let widest = Arc::new(AtomicUsize::new(0));
    let source = Counted {
        inner: Pieces::new(numbers(100), 100),
        reads: reads.clone(),
        widest: widest.clone(),
    };
    let mut body = Body::from_reader_sized(source, 6);
    let mut buf = [0u8; 4];
    assert_eq!(body.read(&mut buf).unwrap(), 4);
    assert_eq!(body.read(&mut buf).unwrap(), 2);
    assert_eq!(&buf[..2], &[4u8, 5u8]);
    assert_eq!(reads.load(Ordering::SeqCst), 2);
    assert_eq!(body.read(&mut buf).unwrap(), 0);
    assert_eq!(body.read(&mut buf).unwrap(), 0);
    assert_eq!(reads.load(Ordering::SeqCst), 2);
    assert_eq!(widest.load(Ordering::SeqCst), 4);
}

#[test]
fn stream_of_unknown_length_hands_on_what_its_source_yields() {
    let reads = Arc::new(AtomicUsize::new(0));
    let widest = Arc::new(AtomicUsize::new(0));
    let source = Counted {
        inner: Pieces::new(numbers(10), 3),
        reads: reads.clone(),
        widest: widest.clone(),
    };
    let mut body = Body::from_reader(source);
    assert_eq!(reads.load(Ordering::SeqCst), 0);
    let mut buf = [0u8; 8];
    assert_eq!(body.read(&mut buf).unwrap(), 3);
    assert_eq!(&buf[..3], &[0u8, 1, 2]);
    assert_eq!(reads.load(Ordering::SeqCst), 1);
    assert_eq!(widest.load(Ordering::SeqCst), 8);
    assert_eq!(body.drain().unwrap(), &numbers(10)[3..]);
}

#[test]
fn step_after_a_read_follows_its_outcome() {
    let gone = || io::Error::new(io::ErrorKind::UnexpectedEof, "gone");
    assert!(matches!(read_step(Ok(0), IoErrorKind::Other, 0), ReadStep::End));
    assert!(matches!(read_step(Ok(5), IoErrorKind::Other, 0), ReadStep::Bytes(5)));
    assert!(matches!(read_step(Ok(16384), IoErrorKind::Interrupted, 9), ReadStep::Bytes(16384)));
    assert!(matches!(read_step(Err(gone()), IoErrorKind::Interrupted, 0), ReadStep::Retry));
    assert!(matches!(
        read_step(Err(gone()), IoErrorKind::Interrupted, usize::MAX - 1),
        ReadStep::Retry
    ));
    match read_step(Err(gone()), IoErrorKind::Interrupted, usize::MAX) {
        ReadStep::Fail(e) => assert_eq!(e.kind(), io::ErrorKind::UnexpectedEof),
        other => panic!("{:?}", other),
    }
    match read_step(Err(gone()), IoErrorKind::Other, 0) {
        ReadStep::Fail(e) => {
            assert_eq!(e.kind(), io::ErrorKind::UnexpectedEof);
            assert_eq!(e.to_string(), "gone");
        }
        other => panic!("{:?}", other),
    }
    assert!(matches!(read_step(Err(gone()), IoErrorKind::BrokenPipe, 0), ReadStep::Fail(_)));
    assert!(matches!(read_step(Err(gone()), IoErrorKind::TimedOut, 0), ReadStep::Fail(_)));
}

#[test]
fn bytes_of_a_read_are_put_behind_the_others() {
    let mut out = vec![1u8, 2];
    gather(&mut out, &[3, 4, 5, 6], 3);
    assert_eq!(out, vec![1, 2, 3, 4, 5]);
    gather(&mut out, &[7, 8], 0);
    assert_eq!(out, vec![1, 2, 3, 4, 5]);
    gather(&mut out, &[7, 8], 2);
    assert_eq!(out, vec![1, 2, 3, 4, 5, 7, 8]);
    let mut empty = Vec::new();
    gather(&mut empty, &[], 0);
    assert!(empty.is_empty());
}

#[test]
fn writer_takes_what_a_read_came_to() {
    let gone = || io::Error::new(io::ErrorKind::UnexpectedEof, "gone");
    let mut pipe = Pipe::with_capacity(8);
    let mut writer = Writer::new(Box::new(Pieces::new(vec![], 1)));
    assert!(writer.flush(&mut pipe).is_none());
    assert_eq!(pipe.len(), 0);
    assert!(writer.receive(&mut pipe, &[1, 2, 3, 4], Ok(3), IoErrorKind::Other).is_none());
    assert_eq!(pipe.len(), 0);
    assert!(writer.flush(&mut pipe).is_none());
    assert_eq!(pipe.len(), 3);
    let interrupted = io::Error::from(io::ErrorKind::Interrupted);
    assert!(matches!(
        writer.receive(&mut pipe, &[9; 4], Err(interrupted), IoErrorKind::Interrupted),
        Some(Copying::Interrupted)
    ));
    assert_eq!(pipe.writer(), WriterEnd::Open);
    assert_eq!(pipe.len(), 3);
    assert!(writer.receive(&mut pipe, &[5, 6, 7, 8, 9, 10], Ok(6), IoErrorKind::Other).is_none());
    assert!(matches!(writer.flush(&mut pipe), Some(Copying::Pending)));
    assert_eq!(pipe.len(), 3);
    let mut buf = [0u8; 3];
    assert_eq!(pipe.read(&mut buf), PipeRead::Ready(3));
    assert_eq!(buf, [1, 2, 3]);
    assert!(writer.flush(&mut pipe).is_none());
    let mut buf = [0u8; 8];
    assert_eq!(pipe.read(&mut buf), PipeRead::Ready(6));
    assert_eq!(&buf[..6], &[5, 6, 7, 8, 9, 10]);
    assert!(matches!(
        writer.receive(&mut pipe, &[0; 4], Ok(0), IoErrorKind::Other),
        Some(Copying::Done)
    ));
    assert_eq!(pipe.writer(), WriterEnd::Closed);

    let mut pipe = Pipe::with_capacity(8);
    let mut writer = Writer::new(Box::new(Pieces::new(vec![], 1)));
    match writer.receive(&mut pipe, &[0; 4], Err(gone()), IoErrorKind::Other) {
        Some(Copying::Failed(e)) => {
            assert_eq!(e.kind(), io::ErrorKind::UnexpectedEof);
            assert_eq!(e.to_string(), "gone");
        }
        other => panic!("{:?}", other),
    }
    assert_eq!(pipe.writer(), WriterEnd::Failed(ErrorKind::Io));

    let mut pipe = Pipe::with_capacity(8);
    let mut writer = Writer::new(Box::new(Pieces::new(vec![], 1)));
    assert!(writer.receive(&mut pipe, &[1, 2], Ok(2), IoErrorKind::Other).is_none());
    pipe.close_reader();
    match writer.flush(&mut pipe) {
        Some(Copying::Failed(e)) => assert_eq!(e.kind(), io::ErrorKind::BrokenPipe),
        other => panic!("{:?}", other),
    }
    assert_eq!(pipe.writer(), WriterEnd::Failed(ErrorKind::Io));
}

#[test]
fn writer_that_waits_for_room_does_not_read_its_source() {
    let reads = Arc::new(AtomicUsize::new(0));
    let widest = Arc::new(AtomicUsize::new(0));
    let source = Counted {
        inner: Pieces::new(numbers(20), 6),
        reads: reads.clone(),
        widest: widest.clone(),
    };
    let mut pipe = Pipe::with_capacity(8);
    let mut writer = Writer::new(Box::new(source));
    assert!(matches!(writer.write(&mut pipe), Copying::Pending));
    assert_eq!(reads.load(Ordering::SeqCst), 2);
    assert_eq!(widest.load(Ordering::SeqCst), BUF_SIZE);
    assert_eq!(pipe.len(), 6);
    assert!(matches!(writer.write(&mut pipe), Copying::Pending));
    assert!(matches!(writer.write(&mut pipe), Copying::Pending));
    assert_eq!(reads.load(Ordering::SeqCst), 2);
    assert_eq!(pipe.len(), 6);
    pipe.close_reader();
    match writer.write(&mut pipe) {
        Copying::Failed(e) => assert_eq!(e.kind(), io::ErrorKind::BrokenPipe),
        other => panic!("{:?}", other),
    }
    assert_eq!(reads.load(Ordering::SeqCst), 2);
    assert_eq!(pipe.writer(), WriterEnd::Failed(ErrorKind::Io));
}

#[test]
fn outcome_of_a_read_is_counted_and_handed_on() {
    let mut body = Body::from_reader_sized(Pieces::new(numbers(10), 3), 5);
    assert_eq!(body.after_read(Ok(3)).unwrap(), 3);
    let error = body.after_read(Err(io::Error::new(io::ErrorKind::NotFound, "lost"))).unwrap_err();
    assert_eq!(error.kind(), io::ErrorKind::NotFound);
    assert_eq!(error.to_string(), "lost");
    assert_eq!(body.after_read(Ok(0)).unwrap(), 0);
    let mut buf = [0u8; 8];
    assert_eq!(body.read(&mut buf).unwrap(), 2);
    assert_eq!(&buf[..2], &[0u8, 1]);
    assert_eq!(body.read(&mut buf).unwrap(), 0);
    let mut body = Body::from_reader(Pieces::new(numbers(4), 4));
    assert_eq!(body.after_read(Ok(1000)).unwrap(), 1000);
    assert_eq!(body.drain().unwrap(), numbers(4));
}

#[test]
fn writer_of_a_stream_of_known_length_reads_no_further() {
    let reads = Arc::new(AtomicUsize::new(0));
    let widest = Arc::new(AtomicUsize::new(0));
    let source = Counted {
        inner: Pieces::new(numbers(100), 100),
        reads: reads.clone(),
        widest: widest.clone(),
    };
    let mut body = Body::from_reader_sized(source, 12);
    let mut first = [0u8; 2];
    assert_eq!(body.read(&mut first).unwrap(), 2);
    let (mut body, writer) = body.into_async();
    let mut writer = writer.unwrap();
    assert_eq!(body.len(), Some(12));
    assert!(matches!(body.fill(&mut writer), Copying::Done));
    assert_eq!(reads.load(Ordering::SeqCst), 2);
    assert_eq!(widest.load(Ordering::SeqCst), 10);
    let mut buf = [0u8; 64];
    assert_eq!(body.read(&mut buf), PipeRead::Ready(10));
    assert_eq!(&buf[..10], &numbers(12)[2..]);
    assert_eq!(body.read(&mut buf), PipeRead::Ready(0));

    let mut pipe = Pipe::with_capacity(64);
    let mut writer = Writer::bounded(Box::new(Pieces::new(numbers(100), 3)), 7);
    assert!(matches!(writer.write(&mut pipe), Copying::Done));
    assert_eq!(pipe.len(), 7);
    let mut writer = Writer::bounded(Box::new(Pieces::new(numbers(100), 3)), 0);
    let mut pipe = Pipe::with_capacity(64);
    assert!(matches!(writer.write(&mut pipe), Copying::Done));
    assert_eq!(pipe.len(), 0);
    assert_eq!(pipe.writer(), WriterEnd::Closed);
    let mut writer = Writer::bounded(Box::new(Pieces::new(numbers(4), 3)), 9);
    let mut pipe = Pipe::with_capacity(64);
    assert!(matches!(writer.write(&mut pipe), Copying::Done));
    assert_eq!(pipe.len(), 4);
}
