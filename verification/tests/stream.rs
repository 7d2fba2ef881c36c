use coderadio::stream::{Action, Event, Stream, CAPACITY, READ_CHUNK};

fn stream() -> Stream {
    Stream::new("http://radio.example/live.mp3".to_string())
}

/// Bytes that do not repeat with the ring's length.
fn pattern(start: usize, n: usize) -> Vec<u8> {
    (start..start + n).map(|i| (i % 251) as u8).collect()
}

#[test]
fn new_stream_is_empty() {
    let mut s = stream();
    assert_eq!(s.url(), "http://radio.example/live.mp3");
    let mut out = [7u8; 4];
    assert_eq!(s.read(&mut out), None);
    assert_eq!(out, [7; 4]);
}

#[test]
fn reads_give_back_what_was_written() {
    let mut s = stream();
    assert_eq!(s.write(&[1, 2, 3, 4, 5]), Some(5));
    let mut out = [9u8; 3];
    assert_eq!(s.read(&mut out), Some(3));
    assert_eq!(out, [1, 2, 3]);
    let mut rest = [9u8; 4];
    assert_eq!(s.read(&mut rest), Some(2));
    assert_eq!(rest, [4, 5, 9, 9]);
    assert_eq!(s.read(&mut rest), None);
}

#[test]
fn empty_transfers_move_nothing() {
    let mut s = stream();
    assert_eq!(s.write(&[]), Some(0));
    assert_eq!(s.read(&mut []), Some(0));
    s.write(&[1]);
    assert_eq!(s.read(&mut []), Some(0));
    let mut out = [0u8; 1];
    assert_eq!(s.read(&mut out), Some(1));
    assert_eq!(out, [1]);
}

#[test]
fn full_buffer_takes_what_fits() {
    let mut s = stream();
    assert_eq!(CAPACITY, 512 * 1024);
    let data = pattern(0, CAPACITY + 10);
    assert_eq!(s.write(&data), Some(CAPACITY));
    assert_eq!(s.write(&data[CAPACITY..]), None);
    assert_eq!(s.write(&[]), Some(0));
    let mut out = [0u8; 4];
    assert_eq!(s.read(&mut out), Some(4));
    assert_eq!(out, [0, 1, 2, 3]);
    assert_eq!(s.write(&data[CAPACITY..]), Some(4));
    let mut all = vec![0u8; CAPACITY + 1];
    assert_eq!(s.read(&mut all), Some(CAPACITY));
    assert_eq!(&all[..CAPACITY], &data[4..CAPACITY + 4]);
}

#[test]
fn bytes_keep_their_order_around_the_ring() {
    let mut s = stream();
    let total = 3 * CAPACITY + 12345;
    let data = pattern(0, total);
    let mut taken = Vec::new();
    let mut off = 0;
    let mut out = vec![0u8; 50_000];
    while taken.len() < total {
        if off < total {
            let end = (off + READ_CHUNK).min(total);
            if let Some(n) = s.write(&data[off..end]) {
                off += n;
            }
        }
        if let Some(n) = s.read(&mut out) {
            taken.extend_from_slice(&out[..n]);
        }
    }
    assert!(taken == data);
}

#[test]
fn reader_reads_and_does_not_seek() {
    let mut s = stream();
    s.write(&[1, 2, 3]);
    let mut out = [0u8; 2];
    {
        let mut reader = s.reader();
        assert_eq!(reader.read(&mut out), Some(2));
        assert_eq!(out, [1, 2]);
        assert_eq!(reader.seek(), 0);
        assert_eq!(reader.read(&mut out), Some(1));
        assert_eq!(out, [3, 2]);
        assert_eq!(reader.read(&mut out), None);
    }
    s.write(&[4]);
    assert_eq!(s.reader().read(&mut out), Some(1));
    assert_eq!(out, [4, 2]);
}

#[test]
fn stopped_stream_drains_and_ends() {
    let mut s = stream();
    s.write(&[1, 2]);
    s.stop();
    let mut out = [0u8; 8];
    assert_eq!(s.read(&mut out), Some(2));
    assert_eq!(s.read(&mut out), Some(0));
}

#[test]
fn producer_connects_and_stores() {
    let mut s = stream();
    assert_eq!(s.run(Event::Started), Action::Connect);
    assert_eq!(s.run(Event::Connected(true)), Action::Receive);
    assert_eq!(s.run(Event::Received(Some(100))), Action::Store(100));
    assert_eq!(s.run(Event::Stored), Action::Receive);
    assert_eq!(s.run(Event::Received(Some(0))), Action::Connect);
}

#[test]
fn backoff_doubles_and_resets() {
    let mut s = stream();
    let mut delays = Vec::new();
    for _ in 0..7 {
        match s.run(Event::Connected(false)) {
            Action::Wait(secs) => delays.push(secs),
            other => panic!("{other:?}"),
        }
        assert_eq!(s.run(Event::Waited), Action::Connect);
    }
    assert_eq!(delays, vec![1, 2, 4, 8, 16, 30, 30]);
    assert_eq!(s.run(Event::Connected(true)), Action::Receive);
    assert_eq!(s.run(Event::Connected(false)), Action::Wait(1));
}

#[test]
fn failed_attempt_drops_stale_bytes() {
    let mut s = stream();
    s.write(&[1, 2, 3]);
    s.run(Event::Connected(false));
    let mut out = [0u8; 1];
    assert_eq!(s.read(&mut out), Some(1), "still there while waiting");
    s.run(Event::Waited);
    assert_eq!(s.read(&mut out), None);
    s.write(&[9]);
    assert_eq!(s.read(&mut out), Some(1));
    assert_eq!(out, [9]);
}

#[test]
fn dropped_connection_backs_off_and_clears() {
    let mut s = stream();
    s.run(Event::Connected(true));
    s.write(&[1, 2, 3]);
    assert_eq!(s.run(Event::Received(None)), Action::Wait(1));
    assert_eq!(s.run(Event::Waited), Action::Connect);
    let mut out = [0u8; 1];
    assert_eq!(s.read(&mut out), None);
    assert_eq!(s.run(Event::Connected(false)), Action::Wait(2));
}

#[test]
fn clean_end_keeps_the_buffer() {
    let mut s = stream();
    s.run(Event::Connected(true));
    s.write(&[1, 2, 3]);
    assert_eq!(s.run(Event::Received(Some(0))), Action::Connect);
    assert_eq!(s.run(Event::Connected(true)), Action::Receive);
    let mut out = [0u8; 3];
    assert_eq!(s.read(&mut out), Some(3));
    assert_eq!(out, [1, 2, 3]);
}

#[test]
fn retry_grows_the_delay_and_clears_the_buffer() {
    let mut s = stream();
    s.write(&[1, 2, 3]);
    s.schedule_retry();
    let mut out = [0u8; 1];
    assert_eq!(s.read(&mut out), None);
    assert_eq!(s.run(Event::Connected(false)), Action::Wait(2));
    s.schedule_retry();
    assert_eq!(s.run(Event::Received(None)), Action::Wait(4));
}

#[test]
fn stopped_producer_leaves_at_the_next_event() {
    let events = [
        Event::Started,
        Event::Connected(true),
        Event::Received(Some(0)),
        Event::Received(Some(5)),
        Event::Stored,
    ];
    for event in events {
        let mut s = stream();
        s.write(&[1, 2, 3]);
        s.stop();
        assert_eq!(s.run(event), Action::Stop);
        let mut out = [0u8; 8];
        assert_eq!(s.read(&mut out), Some(3), "what was buffered is still there");
        assert_eq!(s.read(&mut out), Some(0));
    }
}

#[test]
fn error_clears_a_stopped_stream_too() {
    for event in [Event::Connected(false), Event::Received(None), Event::Waited] {
        let mut s = stream();
        s.write(&[1, 2, 3]);
        s.stop();
        assert_eq!(s.run(event), Action::Stop);
        let mut out = [0u8; 8];
        assert_eq!(s.read(&mut out), Some(0), "stale bytes are gone");
    }
    let mut s = stream();
    s.write(&[1, 2, 3]);
    assert_eq!(s.run(Event::Connected(false)), Action::Wait(1));
    s.stop();
    assert_eq!(s.run(Event::Waited), Action::Stop);
    let mut out = [0u8; 8];
    assert_eq!(s.read(&mut out), Some(0));
}

#[test]
fn stopped_writer_does_not_wait() {
    let mut s = stream();
    assert_eq!(s.write(&pattern(0, CAPACITY)), Some(CAPACITY));
    assert_eq!(s.write(&[1]), None);
    s.stop();
    assert_eq!(s.write(&[1]), Some(0));
    let mut out = [0u8; 2];
    assert_eq!(s.read(&mut out), Some(2));
    assert_eq!(s.write(&[1, 2, 3]), Some(2));
}
