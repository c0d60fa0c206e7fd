use isahc::error::ErrorKind;
use isahc::pipe::{Pipe, PipeRead, PipeWrite, WriterEnd, DEFAULT_CAPACITY};

#[test]
fn new_pipe_is_empty_and_open() {
    let pipe = Pipe::new();
    assert_eq!(DEFAULT_CAPACITY, 16384);
    assert_eq!(pipe.capacity(), 16384);
    assert_eq!(pipe.len(), 0);
    assert!(pipe.is_empty());
    assert_eq!(pipe.writer(), WriterEnd::Open);
    assert!(!pipe.is_reader_closed());
    assert!(!pipe.is_at_end());
    assert_eq!(Pipe::with_capacity(3).capacity(), 3);
}

#[test]
fn bytes_come_out_in_the_order_they_went_in() {
    let mut pipe = Pipe::with_capacity(8);
    assert_eq!(pipe.write(&[1, 2, 3]), PipeWrite::Written);
    assert_eq!(pipe.write(&[4, 5]), PipeWrite::Written);
    assert_eq!(pipe.len(), 5);
    let mut buf = [0u8; 4];
    assert_eq!(pipe.read(&mut buf), PipeRead::Ready(4));
    assert_eq!(buf, [1, 2, 3, 4]);
    assert_eq!(pipe.write(&[6, 7, 8]), PipeWrite::Written);
    assert_eq!(pipe.read(&mut buf), PipeRead::Ready(4));
    assert_eq!(buf, [5, 6, 7, 8]);
    assert_eq!(pipe.read(&mut buf), PipeRead::Pending);
    assert_eq!(buf, [5, 6, 7, 8]);
}

#[test]
fn every_byte_is_read_once() {
    let data: Vec<u8> = (0..10000u32).map(|i| (i * 7 % 256) as u8).collect();
    let mut pipe = Pipe::with_capacity(64);
    let mut out = Vec::new();
    let mut sent = 0;
    let mut buf = [0u8; 23];
    while out.len() < data.len() {
        while sent < data.len() {
            let end = (sent + 17).min(data.len());
            match pipe.write(&data[sent..end]) {
                PipeWrite::Written => sent = end,
                PipeWrite::Pending => break,
                PipeWrite::BrokenPipe => panic!("pipe is broken"),
            }
        }
        match pipe.read(&mut buf) {
            PipeRead::Ready(n) => out.extend_from_slice(&buf[..n]),
            other => panic!("read came to {:?}", other),
        }
    }
    assert_eq!(out, data);
    assert!(pipe.is_empty());
}

#[test]
fn write_is_all_or_nothing() {
    let mut pipe = Pipe::with_capacity(4);
    assert_eq!(pipe.write(&[1, 2, 3]), PipeWrite::Written);
    assert_eq!(pipe.write(&[4, 5]), PipeWrite::Pending);
    assert_eq!(pipe.len(), 3);
    assert_eq!(pipe.write(&[4]), PipeWrite::Written);
    assert_eq!(pipe.write(&[]), PipeWrite::Written);
    assert_eq!(pipe.write(&[5]), PipeWrite::Pending);
    let mut buf = [0u8; 8];
    assert_eq!(pipe.read(&mut buf), PipeRead::Ready(4));
    assert_eq!(&buf[..4], &[1, 2, 3, 4]);
}

#[test]
fn write_larger_than_the_capacity_never_fits() {
    let mut pipe = Pipe::with_capacity(2);
    assert_eq!(pipe.write(&[1, 2, 3]), PipeWrite::Pending);
    assert!(pipe.is_empty());
}

#[test]
fn read_takes_no_more_than_the_buffer_holds() {
    let mut pipe = Pipe::new();
    pipe.write(&[1, 2, 3]);
    let mut none = [0u8; 0];
    assert_eq!(pipe.read(&mut none), PipeRead::Ready(0));
    let mut one = [0u8; 1];
    assert_eq!(pipe.read(&mut one), PipeRead::Ready(1));
    assert_eq!(one, [1]);
    assert_eq!(pipe.len(), 2);
    let mut pending = Pipe::new();
    assert_eq!(pending.read(&mut none), PipeRead::Ready(0));
}

#[test]
fn clean_close_is_the_end_of_the_stream() {
    let mut pipe = Pipe::new();
    pipe.write(&[1, 2]);
    pipe.close_writer(None);
    assert_eq!(pipe.writer(), WriterEnd::Closed);
    assert!(!pipe.is_at_end());
    assert_eq!(pipe.write(&[3]), PipeWrite::BrokenPipe);
    let mut buf = [0u8; 8];
    assert_eq!(pipe.read(&mut buf), PipeRead::Ready(2));
    assert_eq!(&buf[..2], &[1, 2]);
    assert!(pipe.is_at_end());
    assert_eq!(pipe.read(&mut buf), PipeRead::Ready(0));
    assert_eq!(pipe.read(&mut buf), PipeRead::Ready(0));
}

#[test]
fn close_with_failure_fails_the_next_read() {
    let mut pipe = Pipe::new();
    pipe.write(&[1, 2]);
    pipe.close_writer(Some(ErrorKind::Timeout));
    assert_eq!(pipe.writer(), WriterEnd::Failed(ErrorKind::Timeout));
    let mut buf = [9u8; 8];
    assert_eq!(pipe.read(&mut buf), PipeRead::Failed(ErrorKind::Timeout));
    assert_eq!(pipe.read(&mut buf), PipeRead::Failed(ErrorKind::Timeout));
    assert_eq!(buf, [9u8; 8]);
    assert!(!pipe.is_at_end());
}

#[test]
fn first_close_counts() {
    let mut pipe = Pipe::new();
    pipe.close_writer(None);
    pipe.close_writer(Some(ErrorKind::Io));
    assert_eq!(pipe.writer(), WriterEnd::Closed);
    let mut pipe = Pipe::new();
    pipe.close_writer(Some(ErrorKind::Io));
    pipe.close_writer(None);
    assert_eq!(pipe.writer(), WriterEnd::Failed(ErrorKind::Io));
}

#[test]
fn closed_reader_breaks_the_pipe() {
    let mut pipe = Pipe::new();
    pipe.write(&[1]);
    pipe.close_reader();
    assert!(pipe.is_reader_closed());
    assert_eq!(pipe.write(&[2]), PipeWrite::BrokenPipe);
    assert_eq!(pipe.write(&[]), PipeWrite::BrokenPipe);
    assert_eq!(pipe.len(), 1);
    let mut buf = [9u8; 2];
    assert_eq!(pipe.read(&mut buf), PipeRead::Ready(0));
    assert_eq!(buf, [9, 9]);
}
