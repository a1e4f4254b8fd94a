use body_channel::body_reader::{Arrival, FrameAttempt, ReadAttempt};
use body_channel::body_writer::{Delivery, TryWriteError};
use body_channel::{channel, channel_with_capacity, BodyIoError, BodyReader, BodyWriter, MAX_CAPACITY};

fn write_all_spinning(writer: &mut BodyWriter, buf: &[u8]) -> Result<usize, TryWriteError> {
    loop {
        match writer.try_write(buf) {
            Err(TryWriteError::Full) => std::hint::spin_loop(),
            other => return other,
        }
    }
}

fn drain_frames(reader: &mut BodyReader) -> Vec<Vec<u8>> {
    let mut frames = Vec::new();
    loop {
        match reader.try_next_frame() {
            FrameAttempt::Frame(b) => frames.push(b.to_vec()),
            FrameAttempt::Pending => panic!("the writer is gone, nothing should be pending"),
            FrameAttempt::End => return frames,
        }
    }
}

#[test]
fn test_body() {
    let (_reader, mut writer) = channel();
    assert_eq!(writer.try_write(b"Hello, "), Ok(7));
}

#[test]
fn test_async_body() {
    let (mut reader, mut writer) = channel();
    assert_eq!(writer.try_write(b"Hello, "), Ok(7));
    drop(writer);
    let body: Vec<u8> = drain_frames(&mut reader).concat();
    assert_eq!(body, b"Hello, ");
}

#[test]
fn test_async_body_sync_write() {
    let rt = tokio::runtime::Builder::new_multi_thread()
        .worker_threads(2)
        .build()
        .unwrap();
    let (mut reader, mut writer) = channel_with_capacity(10);
    let writer_task = rt.spawn_blocking(move || {
        write_all_spinning(&mut writer, b"Hello, ").unwrap();
    });
    let body = rt.block_on(async move {
        let mut body = Vec::new();
        loop {
            match reader.try_next_frame() {
                FrameAttempt::Frame(b) => body.extend_from_slice(&b),
                FrameAttempt::Pending => tokio::task::yield_now().await,
                FrameAttempt::End => return body,
            }
        }
    });
    assert_eq!(body, b"Hello, ");
    rt.block_on(writer_task).unwrap();
}

#[test]
fn frames_come_out_in_write_order() {
    let (mut reader, mut writer) = channel_with_capacity(4);
    for w in [&b"one"[..], b"two", b"three", b"four"] {
        assert_eq!(writer.try_write(w), Ok(w.len()));
    }
    drop(writer);
    let frames = drain_frames(&mut reader);
    assert_eq!(frames, vec![b"one".to_vec(), b"two".to_vec(), b"three".to_vec(), b"four".to_vec()]);
}

#[test]
fn order_kept_across_threads() {
    let rt = tokio::runtime::Builder::new_multi_thread()
        .worker_threads(2)
        .build()
        .unwrap();
    let (mut reader, mut writer) = channel_with_capacity(2);
    let writer_task = rt.spawn_blocking(move || {
        for i in 0..50u8 {
            write_all_spinning(&mut writer, &[i, i]).unwrap();
        }
    });
    let frames = rt.block_on(async move {
        let mut frames = Vec::new();
        loop {
            match reader.try_next_frame() {
                FrameAttempt::Frame(b) => frames.push(b.to_vec()),
                FrameAttempt::Pending => tokio::task::yield_now().await,
                FrameAttempt::End => return frames,
            }
        }
    });
    rt.block_on(writer_task).unwrap();
    let expected: Vec<Vec<u8>> = (0..50u8).map(|i| vec![i, i]).collect();
    assert_eq!(frames, expected);
}

#[test]
fn capacity_bounds_unread_chunks() {
    let (mut reader, mut writer) = channel_with_capacity(3);
    assert_eq!(writer.max_capacity(), 3);
    for _ in 0..3 {
        assert_eq!(writer.try_write(b"x"), Ok(1));
    }
    assert_eq!(writer.try_write(b"y"), Err(TryWriteError::Full));
    assert!(!writer.broken());
    assert!(matches!(reader.try_next_frame(), FrameAttempt::Frame(b) if &b[..] == b"x"));
    assert_eq!(writer.try_write(b"y"), Ok(1));
    assert_eq!(writer.try_write(b"z"), Err(TryWriteError::Full));
}

#[test]
fn default_channel_holds_one_chunk() {
    let (_reader, mut writer) = channel();
    assert_eq!(writer.max_capacity(), 1);
    assert_eq!(writer.try_write(b"a"), Ok(1));
    assert_eq!(writer.try_write(b"b"), Err(TryWriteError::Full));
}

#[test]
fn zero_length_chunk_is_one_empty_frame() {
    let (mut reader, mut writer) = channel_with_capacity(2);
    assert_eq!(writer.try_write(b""), Ok(0));
    assert!(matches!(reader.try_next_frame(), FrameAttempt::Frame(b) if b.is_empty()));
    assert!(matches!(reader.try_next_frame(), FrameAttempt::Pending));
    drop(writer);
    assert!(matches!(reader.try_next_frame(), FrameAttempt::End));
}

#[test]
fn reader_drains_then_ends_for_good() {
    let (mut reader, mut writer) = channel_with_capacity(3);
    for w in [&b"c1"[..], b"c2", b"c3"] {
        writer.try_write(w).unwrap();
    }
    drop(writer);
    assert_eq!(drain_frames(&mut reader), vec![b"c1".to_vec(), b"c2".to_vec(), b"c3".to_vec()]);
    assert!(reader.ended());
    assert!(matches!(reader.try_next_frame(), FrameAttempt::End));
    assert!(matches!(reader.try_read(8), ReadAttempt::End));
}

#[test]
fn write_after_reader_dropped_is_broken_pipe_for_good() {
    let (reader, mut writer) = channel_with_capacity(4);
    drop(reader);
    assert!(!writer.broken());
    assert_eq!(writer.try_write(b"lost"), Err(TryWriteError::BrokenPipe));
    assert!(writer.broken());
    assert_eq!(writer.try_write(b"again"), Err(TryWriteError::BrokenPipe));
    assert_eq!(writer.try_write(b""), Err(TryWriteError::BrokenPipe));
}

#[test]
fn end_to_end_hello() {
    let (mut reader, mut writer) = channel_with_capacity(10);
    assert_eq!(write_all_spinning(&mut writer, b"Hello, "), Ok(7));
    drop(writer);
    assert_eq!(drain_frames(&mut reader).concat(), b"Hello, ");
}

#[test]
fn read_splits_a_chunk_larger_than_the_room() {
    let (mut reader, mut writer) = channel_with_capacity(2);
    writer.try_write(b"abcdef").unwrap();
    writer.try_write(b"gh").unwrap();
    drop(writer);
    assert!(matches!(reader.try_read(4), ReadAttempt::Data(v) if v == b"abcd"));
    assert!(matches!(reader.try_read(4), ReadAttempt::Data(v) if v == b"ef"));
    assert!(matches!(reader.try_read(4), ReadAttempt::Data(v) if v == b"gh"));
    assert!(matches!(reader.try_read(4), ReadAttempt::End));
}

#[test]
fn read_with_no_room_keeps_the_chunk() {
    let (mut reader, mut writer) = channel_with_capacity(1);
    writer.try_write(b"xyz").unwrap();
    assert!(matches!(reader.try_read(0), ReadAttempt::Data(v) if v.is_empty()));
    assert_eq!(writer.try_write(b"next"), Ok(4));
    assert!(matches!(reader.try_read(10), ReadAttempt::Data(v) if v == b"xyz"));
    assert!(matches!(reader.try_read(10), ReadAttempt::Data(v) if v == b"next"));
    assert!(matches!(reader.try_read(10), ReadAttempt::Pending));
}

#[test]
fn read_with_no_room_waits_on_an_empty_channel() {
    let (mut reader, writer) = channel_with_capacity(2);
    assert!(matches!(reader.try_read(0), ReadAttempt::Pending));
    drop(writer);
    assert!(matches!(reader.try_read(0), ReadAttempt::End));
    assert!(reader.ended());
}

#[test]
fn read_with_no_room_uses_up_an_empty_chunk() {
    let (mut reader, mut writer) = channel_with_capacity(2);
    writer.try_write(b"").unwrap();
    writer.try_write(b"after").unwrap();
    assert!(matches!(reader.try_read(0), ReadAttempt::Data(v) if v.is_empty()));
    assert!(matches!(reader.try_next_frame(), FrameAttempt::Frame(b) if &b[..] == b"after"));
}

#[test]
fn read_from_with_no_room_keeps_the_whole_chunk() {
    let (mut reader, _writer) = channel_with_capacity(2);
    let chunk = bytes::Bytes::from_static(b"kept");
    assert!(matches!(reader.read_from(0, Arrival::Chunk(chunk)), ReadAttempt::Data(v) if v.is_empty()));
    assert!(matches!(reader.try_next_frame(), FrameAttempt::Frame(b) if &b[..] == b"kept"));
}

#[test]
fn threaded_write_through_a_one_chunk_channel() {
    let rt = tokio::runtime::Builder::new_multi_thread()
        .worker_threads(2)
        .build()
        .unwrap();
    let (mut reader, mut writer) = channel();
    let writer_task = rt.spawn_blocking(move || {
        for w in [&b"Hello, "[..], b"wor", b"", b"ld"] {
            assert_eq!(write_all_spinning(&mut writer, w), Ok(w.len()));
        }
    });
    let frames = rt.block_on(async move {
        let mut frames = Vec::new();
        loop {
            match reader.try_next_frame() {
                FrameAttempt::Frame(b) => frames.push(b.to_vec()),
                FrameAttempt::Pending => tokio::task::yield_now().await,
                FrameAttempt::End => return frames,
            }
        }
    });
    rt.block_on(writer_task).unwrap();
    assert_eq!(frames, vec![b"Hello, ".to_vec(), b"wor".to_vec(), b"".to_vec(), b"ld".to_vec()]);
}

#[test]
fn frame_after_partial_read_is_the_rest_of_the_chunk() {
    let (mut reader, mut writer) = channel_with_capacity(2);
    writer.try_write(b"hello").unwrap();
    writer.try_write(b"world").unwrap();
    assert!(matches!(reader.try_read(2), ReadAttempt::Data(v) if v == b"he"));
    assert!(matches!(reader.try_next_frame(), FrameAttempt::Frame(b) if &b[..] == b"llo"));
    assert!(matches!(reader.try_next_frame(), FrameAttempt::Frame(b) if &b[..] == b"world"));
}

#[test]
fn flush_is_a_no_op() {
    let (_reader, mut writer) = channel();
    assert_eq!(writer.flush(), Ok(()));
    assert_eq!(writer.try_write(b"q"), Ok(1));
}

#[test]
fn error_text() {
    assert_eq!(BodyIoError.message(), "BodyIoError");
}

#[test]
fn largest_capacity_is_accepted() {
    let (_reader, writer) = channel_with_capacity(MAX_CAPACITY);
    assert_eq!(writer.max_capacity(), MAX_CAPACITY);
}

#[test]
fn settle_maps_each_delivery() {
    let (_reader, mut writer) = channel_with_capacity(2);
    assert_eq!(writer.settle(b"abc", Delivery::Queued), Ok(3));
    assert_eq!(writer.settle(b"", Delivery::Queued), Ok(0));
    assert_eq!(writer.settle(b"abc", Delivery::Full), Err(TryWriteError::Full));
    assert!(!writer.broken());
    assert_eq!(writer.settle(b"abc", Delivery::Closed), Err(TryWriteError::BrokenPipe));
    assert!(writer.broken());
    assert_eq!(writer.settle(b"abc", Delivery::Queued), Err(TryWriteError::BrokenPipe));
    assert_eq!(writer.settle(b"abc", Delivery::Full), Err(TryWriteError::BrokenPipe));
}

#[test]
fn frame_from_maps_each_arrival() {
    let (mut reader, _writer) = channel_with_capacity(2);
    let chunk = bytes::Bytes::from_static(b"payload");
    assert!(matches!(reader.frame_from(Arrival::Chunk(chunk)), FrameAttempt::Frame(b) if &b[..] == b"payload"));
    assert!(matches!(reader.frame_from(Arrival::Empty), FrameAttempt::Pending));
    assert!(!reader.ended());
    assert!(matches!(reader.frame_from(Arrival::Disconnected), FrameAttempt::End));
    assert!(reader.ended());
}

#[test]
fn read_from_keeps_what_does_not_fit() {
    let (mut reader, _writer) = channel_with_capacity(2);
    let chunk = bytes::Bytes::from_static(b"0123456789");
    assert!(matches!(reader.read_from(4, Arrival::Chunk(chunk)), ReadAttempt::Data(v) if v == b"0123"));
    assert!(matches!(reader.try_read(100), ReadAttempt::Data(v) if v == b"456789"));
    assert!(matches!(reader.read_from(4, Arrival::Empty), ReadAttempt::Pending));
    assert!(matches!(reader.read_from(4, Arrival::Disconnected), ReadAttempt::End));
    assert!(matches!(reader.try_read(4), ReadAttempt::End));
}
