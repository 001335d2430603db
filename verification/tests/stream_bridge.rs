//! The read protocol of a stream reader.

use extractous::{
    Error, ReadEvent, ReadPhase, ReadRequest, ReadStep, StreamReader, DEFAULT_BUF_SIZE,
    MAX_READ_LENGTH,
};

#[test]
fn new_reader_has_no_transfer_buffer() {
    let reader = StreamReader::new(17u32);
    assert_eq!(*reader.handle(), 17);
    assert_eq!(reader.capacity(), 0);
    assert_eq!(reader.phase(), ReadPhase::Idle);
    assert_eq!(reader.into_handle(), 17);
    assert_eq!(DEFAULT_BUF_SIZE, 32768);
    assert_eq!(MAX_READ_LENGTH, i32::MAX as usize);
}

#[test]
fn first_read_allocates_at_least_the_default_size() {
    let mut reader = StreamReader::new(());
    let request = reader.begin_read(10);
    assert_eq!(request, ReadRequest { length: 10, allocate: Some(32768) });
    assert_eq!(reader.capacity(), 32768);
    assert_eq!(reader.phase(), ReadPhase::AwaitingCount { length: 10 });
}

#[test]
fn first_read_with_large_buffer_allocates_its_length() {
    let mut reader = StreamReader::new(());
    let request = reader.begin_read(40000);
    assert_eq!(request, ReadRequest { length: 40000, allocate: Some(40000) });
    assert_eq!(reader.capacity(), 40000);
}

#[test]
fn later_reads_allocate_only_for_larger_buffers() {
    let mut reader = StreamReader::new(());
    reader.begin_read(10);
    let request = reader.begin_read(32768);
    assert_eq!(request, ReadRequest { length: 32768, allocate: None });
    let request = reader.begin_read(32769);
    assert_eq!(request, ReadRequest { length: 32769, allocate: Some(32769) });
    assert_eq!(reader.capacity(), 32769);
    let request = reader.begin_read(5);
    assert_eq!(request, ReadRequest { length: 5, allocate: None });
    assert_eq!(reader.capacity(), 32769);
}

#[test]
fn request_length_is_capped() {
    let mut reader = StreamReader::new(());
    let request = reader.begin_read(usize::MAX);
    assert_eq!(request.length, i32::MAX);
    assert_eq!(request.allocate, Some(i32::MAX));
    let request = reader.begin_read(MAX_READ_LENGTH);
    assert_eq!(request, ReadRequest { length: i32::MAX, allocate: None });
}

#[test]
fn empty_buffer_asks_for_nothing() {
    let mut reader = StreamReader::new(());
    let request = reader.begin_read(0);
    assert_eq!(request, ReadRequest { length: 0, allocate: Some(32768) });
    let mut buf: [u8; 0] = [];
    assert_eq!(reader.advance_read(&mut buf, ReadEvent::Count(0)), ReadStep::Done(Ok(0)));
}

#[test]
fn end_of_stream_fills_nothing() {
    let mut reader = StreamReader::new(());
    let mut buf = [7u8; 4];
    reader.begin_read(buf.len());
    let step = reader.advance_read(&mut buf, ReadEvent::Count(-1));
    assert_eq!(step, ReadStep::Done(Ok(0)));
    assert_eq!(buf, [7, 7, 7, 7]);
    assert_eq!(reader.phase(), ReadPhase::Idle);
}

#[test]
fn end_of_stream_can_be_read_again() {
    let mut reader = StreamReader::new(());
    let mut buf = [0u8; 4];
    for _ in 0..3 {
        reader.begin_read(buf.len());
        assert_eq!(reader.advance_read(&mut buf, ReadEvent::Count(-1)), ReadStep::Done(Ok(0)));
    }
}

#[test]
fn partial_fill_copies_to_the_front() {
    let mut reader = StreamReader::new(());
    let mut buf = [9u8; 5];
    reader.begin_read(buf.len());
    let step = reader.advance_read(&mut buf, ReadEvent::Count(3));
    assert_eq!(step, ReadStep::Fetch { count: 3 });
    assert_eq!(reader.phase(), ReadPhase::AwaitingBytes { count: 3 });
    assert_eq!(buf, [9, 9, 9, 9, 9]);
    let step = reader.advance_read(&mut buf, ReadEvent::Bytes(vec![1, 2, 3]));
    assert_eq!(step, ReadStep::Done(Ok(3)));
    assert_eq!(buf, [1, 2, 3, 9, 9]);
    assert_eq!(reader.phase(), ReadPhase::Idle);
}

#[test]
fn full_fill() {
    let mut reader = StreamReader::new(());
    let mut buf = [0u8; 2];
    reader.begin_read(buf.len());
    assert_eq!(reader.advance_read(&mut buf, ReadEvent::Count(2)), ReadStep::Fetch { count: 2 });
    assert_eq!(
        reader.advance_read(&mut buf, ReadEvent::Bytes(vec![4, 5])),
        ReadStep::Done(Ok(2))
    );
    assert_eq!(buf, [4, 5]);
}

fn failed(step: ReadStep, message: &str) {
    assert_eq!(step, ReadStep::Done(Err(Error::StreamIo(message.to_string()))));
}

#[test]
fn count_outside_the_request_fails() {
    let mut reader = StreamReader::new(());
    let mut buf = [0u8; 2];
    reader.begin_read(buf.len());
    failed(
        reader.advance_read(&mut buf, ReadEvent::Count(3)),
        "the remote reader returned a count outside the request",
    );
    assert_eq!(reader.phase(), ReadPhase::Idle);
    reader.begin_read(buf.len());
    failed(
        reader.advance_read(&mut buf, ReadEvent::Count(-2)),
        "the remote reader returned a count outside the request",
    );
    reader.begin_read(buf.len());
    failed(
        reader.advance_read(&mut buf, ReadEvent::Count(i32::MIN)),
        "the remote reader returned a count outside the request",
    );
}

#[test]
fn bytes_that_do_not_match_the_count_fail() {
    let mut reader = StreamReader::new(());
    let mut buf = [8u8; 4];
    reader.begin_read(buf.len());
    reader.advance_read(&mut buf, ReadEvent::Count(3));
    failed(
        reader.advance_read(&mut buf, ReadEvent::Bytes(vec![1, 2])),
        "the bytes fetched do not match the count announced",
    );
    assert_eq!(buf, [8, 8, 8, 8]);
    reader.begin_read(buf.len());
    reader.advance_read(&mut buf, ReadEvent::Count(3));
    let mut small = [8u8; 2];
    failed(
        reader.advance_read(&mut small, ReadEvent::Bytes(vec![1, 2, 3])),
        "the bytes fetched do not match the count announced",
    );
    assert_eq!(small, [8, 8]);
}

#[test]
fn remote_exception_fails_the_read_with_its_message() {
    let mut reader = StreamReader::new(());
    let mut buf = [0u8; 4];
    reader.begin_read(buf.len());
    failed(
        reader.advance_read(&mut buf, ReadEvent::Raised("stream closed".to_string())),
        "stream closed",
    );
    reader.begin_read(buf.len());
    reader.advance_read(&mut buf, ReadEvent::Count(1));
    failed(
        reader.advance_read(&mut buf, ReadEvent::Raised("array gone".to_string())),
        "array gone",
    );
    assert_eq!(reader.phase(), ReadPhase::Idle);
}

#[test]
fn answer_that_was_not_asked_for_fails() {
    let mut reader = StreamReader::new(());
    let mut buf = [0u8; 4];
    failed(
        reader.advance_read(&mut buf, ReadEvent::Count(1)),
        "the read was handed an answer it did not ask for",
    );
    failed(
        reader.advance_read(&mut buf, ReadEvent::Raised("late".to_string())),
        "the read was handed an answer it did not ask for",
    );
    reader.begin_read(buf.len());
    failed(
        reader.advance_read(&mut buf, ReadEvent::Bytes(vec![1])),
        "the read was handed an answer it did not ask for",
    );
    reader.begin_read(buf.len());
    reader.advance_read(&mut buf, ReadEvent::Count(2));
    failed(
        reader.advance_read(&mut buf, ReadEvent::Count(2)),
        "the read was handed an answer it did not ask for",
    );
}

#[test]
fn reads_concatenate_to_the_content() {
    let content: Vec<u8> = (0..=255u8).cycle().take(1000).collect();
    for size in [1usize, 3, 7, 256, 999, 1000, 4096] {
        let mut reader = StreamReader::new(());
        let mut position = 0;
        let mut collected = Vec::new();
        let mut buf = vec![0u8; size];
        let mut reads = 0;
        loop {
            let request = reader.begin_read(buf.len());
            let left = content.len() - position;
            let count = if left == 0 { -1 } else { left.min(request.length as usize) as i32 };
            match reader.advance_read(&mut buf, ReadEvent::Count(count)) {
                ReadStep::Done(result) => {
                    assert_eq!(result, Ok(0));
                    break;
                }
                ReadStep::Fetch { count } => {
                    let bytes = content[position..position + count].to_vec();
                    position += count;
                    let step = reader.advance_read(&mut buf, ReadEvent::Bytes(bytes));
                    assert_eq!(step, ReadStep::Done(Ok(count)));
                    collected.extend_from_slice(&buf[..count]);
                    reads += 1;
                }
            }
        }
        assert_eq!(collected, content);
        assert_eq!(reads, (content.len() + size - 1) / size);
    }
}
