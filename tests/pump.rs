use std::cell::RefCell;
use std::collections::VecDeque;

use dip::frame::{payload_length, HEADER_LEN};
use dip::pump::{Phase, Pump, PumpStep};
use dip::transfer::{take_read, take_write, unsent, ReadAttempt, ReadFrom, Transfer, WriteAttempt, WriteTo};

/// A source that replays scripted events; `Bytes` are handed out at most
/// `max` at a time.
enum Event {
    Bytes(Vec<u8>),
    Block,
    Interrupt,
    Fail(&'static str),
}

struct Source {
    events: RefCell<VecDeque<Event>>,
}

impl Source {
    fn new(events: Vec<Event>) -> Source {
        Source { events: RefCell::new(events.into_iter().collect()) }
    }

    fn bytes(bytes: &[u8], chunk: usize) -> Source {
        Source::new(bytes.chunks(chunk).map(|c| Event::Bytes(c.to_vec())).collect())
    }
}

impl ReadFrom for Source {
    type Error = &'static str;

    fn try_read(&self, max: usize) -> ReadAttempt<&'static str> {
        let mut events = self.events.borrow_mut();
        match events.pop_front() {
            None => ReadAttempt::Data(Vec::new()),
            Some(Event::Bytes(mut b)) => {
                if b.len() > max {
                    let rest = b.split_off(max);
                    events.push_front(Event::Bytes(rest));
                }
                ReadAttempt::Data(b)
            }
            Some(Event::Block) => ReadAttempt::WouldBlock,
            Some(Event::Interrupt) => ReadAttempt::Interrupted,
            Some(Event::Fail(e)) => ReadAttempt::Failed(e),
        }
    }
}

/// A sink that records every write call; each call accepts at most `limit`
/// bytes, and scripted answers are given first.
struct Sink {
    calls: RefCell<Vec<Vec<u8>>>,
    received: RefCell<Vec<u8>>,
    limit: usize,
    script: RefCell<VecDeque<WriteAttempt<&'static str>>>,
}

impl Sink {
    fn new(limit: usize) -> Sink {
        Sink::scripted(limit, Vec::new())
    }

    fn scripted(limit: usize, script: Vec<WriteAttempt<&'static str>>) -> Sink {
        Sink {
            calls: RefCell::new(Vec::new()),
            received: RefCell::new(Vec::new()),
            limit,
            script: RefCell::new(script.into_iter().collect()),
        }
    }
}

impl WriteTo for Sink {
    type Error = &'static str;

    fn try_write(&self, buf: &[u8]) -> WriteAttempt<&'static str> {
        self.calls.borrow_mut().push(buf.to_vec());
        if let Some(answer) = self.script.borrow_mut().pop_front() {
            if let WriteAttempt::Wrote(n) = answer {
                self.received.borrow_mut().extend_from_slice(&buf[..n]);
            }
            return answer;
        }
        let n = buf.len().min(self.limit);
        self.received.borrow_mut().extend_from_slice(&buf[..n]);
        WriteAttempt::Wrote(n)
    }
}

fn frame(opcode: u8, payload: &[u8]) -> Vec<u8> {
    let mut f = vec![opcode, 0, 0, 0];
    f.extend_from_slice(&(payload.len() as u32).to_le_bytes());
    f.extend_from_slice(payload);
    f
}

/// Runs a pump to its end, resuming after every retry and wait.
fn run_to_end(pump: &mut Pump, source: &Source, sink: &Sink) -> (usize, PumpStep<&'static str, &'static str>) {
    let mut forwarded = 0;
    loop {
        let step = pump.read_from_then_write_to(source, sink);
        if step.ends_direction() {
            return (forwarded, step);
        }
        if let PumpStep::Forwarded = step {
            forwarded += 1;
        }
    }
}

#[test]
fn hello_frame_is_written_in_one_call() {
    let bytes = [0x01, 0, 0, 0, 0x05, 0, 0, 0, b'h', b'e', b'l', b'l', b'o'];
    let source = Source::bytes(&bytes, 64);
    let sink = Sink::new(1024);
    let mut pump = Pump::new();
    assert!(matches!(pump.read_from_then_write_to(&source, &sink), PumpStep::Forwarded));
    let calls = sink.calls.borrow();
    assert_eq!(calls.len(), 1);
    assert_eq!(
        calls[0],
        vec![0x01, 0x00, 0x00, 0x00, 0x05, 0x00, 0x00, 0x00, 0x68, 0x65, 0x6c, 0x6c, 0x6f]
    );
}

#[test]
fn frame_is_reproduced_byte_for_byte() {
    let payload: Vec<u8> = (0..=255u8).cycle().take(1000).collect();
    let f = frame(3, &payload);
    let source = Source::bytes(&f, 7);
    let sink = Sink::new(4096);
    let mut pump = Pump::new();
    let (forwarded, end) = run_to_end(&mut pump, &source, &sink);
    assert_eq!(forwarded, 1);
    assert!(matches!(end, PumpStep::Stopped));
    assert_eq!(*sink.received.borrow(), f);
    assert_eq!(sink.calls.borrow().len(), 1);
    assert_eq!(sink.calls.borrow()[0], f);
}

#[test]
fn empty_payload_frame_is_forwarded() {
    let f = frame(2, &[]);
    let source = Source::bytes(&f, 8);
    let sink = Sink::new(64);
    let mut pump = Pump::new();
    assert!(matches!(pump.read_from_then_write_to(&source, &sink), PumpStep::Forwarded));
    assert_eq!(*sink.received.borrow(), f);
}

#[test]
fn frames_arrive_in_order() {
    let mut all = Vec::new();
    for (i, p) in [&b"first"[..], &b"second frame"[..], &b""[..], &b"fourth"[..]].iter().enumerate() {
        all.extend(frame(i as u8, p));
    }
    let source = Source::bytes(&all, 3);
    let sink = Sink::new(5);
    let mut pump = Pump::new();
    let (forwarded, end) = run_to_end(&mut pump, &source, &sink);
    assert_eq!(forwarded, 4);
    assert!(matches!(end, PumpStep::Stopped));
    assert_eq!(*sink.received.borrow(), all);
}

#[test]
fn clean_close_stops_one_direction_only() {
    // the client closes at once; the other direction keeps forwarding
    let closed = Source::new(Vec::new());
    let to_server = Sink::new(64);
    let mut up = Pump::new();
    assert!(matches!(up.read_from_then_write_to(&closed, &to_server), PumpStep::Stopped));
    assert!(to_server.calls.borrow().is_empty());

    let f = frame(1, b"still here");
    let server = Source::bytes(&f, 64);
    let to_client = Sink::new(64);
    let mut down = Pump::new();
    assert!(matches!(down.read_from_then_write_to(&server, &to_client), PumpStep::Forwarded));
    assert_eq!(*to_client.received.borrow(), f);
}

#[test]
fn close_mid_header_stops_without_error() {
    let source = Source::bytes(&[1, 0, 0], 8);
    let sink = Sink::new(64);
    let mut pump = Pump::new();
    assert!(matches!(pump.read_from_then_write_to(&source, &sink), PumpStep::Stopped));
    assert!(sink.calls.borrow().is_empty());
}

#[test]
fn close_mid_payload_stops_like_a_clean_close() {
    // header announces five bytes, only two arrive before the peer closes
    let source = Source::bytes(&[1, 0, 0, 0, 5, 0, 0, 0, b'h', b'e'], 64);
    let sink = Sink::new(64);
    let mut pump = Pump::new();
    let step = pump.read_from_then_write_to(&source, &sink);
    assert!(matches!(step, PumpStep::Stopped));
    assert!(step.ends_direction());
    assert!(sink.calls.borrow().is_empty());
}

#[test]
fn would_block_keeps_partial_progress() {
    let f = frame(1, b"hello");
    let source = Source::new(vec![
        Event::Bytes(f[..3].to_vec()),
        Event::Block,
        Event::Bytes(f[3..10].to_vec()),
        Event::Block,
        Event::Interrupt,
        Event::Bytes(f[10..].to_vec()),
    ]);
    let sink = Sink::new(64);
    let mut pump = Pump::new();
    assert!(matches!(pump.read_from_then_write_to(&source, &sink), PumpStep::Wait(Phase::Header)));
    assert_eq!(pump.phase(), Phase::Header);
    assert!(matches!(pump.read_from_then_write_to(&source, &sink), PumpStep::Wait(Phase::Payload)));
    assert_eq!(pump.phase(), Phase::Payload);
    assert!(matches!(pump.read_from_then_write_to(&source, &sink), PumpStep::Retry));
    assert!(matches!(pump.read_from_then_write_to(&source, &sink), PumpStep::Forwarded));
    assert_eq!(*sink.received.borrow(), f);
}

#[test]
fn blocked_write_resumes_where_it_stopped() {
    let f = frame(1, b"hello");
    let source = Source::bytes(&f, 64);
    let sink = Sink::scripted(
        64,
        vec![WriteAttempt::Wrote(4), WriteAttempt::WouldBlock, WriteAttempt::Interrupted],
    );
    let mut pump = Pump::new();
    assert!(matches!(pump.read_from_then_write_to(&source, &sink), PumpStep::Wait(Phase::Write)));
    assert_eq!(pump.phase(), Phase::Write);
    assert!(matches!(pump.read_from_then_write_to(&source, &sink), PumpStep::Retry));
    assert!(matches!(pump.read_from_then_write_to(&source, &sink), PumpStep::Forwarded));
    assert_eq!(*sink.received.borrow(), f);
    let calls = sink.calls.borrow();
    assert_eq!(calls[0], f);
    assert_eq!(calls[3], f[4..].to_vec());
}

#[test]
fn read_failures_name_their_phase() {
    let sink = Sink::new(64);
    let source = Source::new(vec![Event::Bytes(vec![1, 0]), Event::Fail("reset")]);
    let mut pump = Pump::new();
    let step = pump.read_from_then_write_to(&source, &sink);
    assert!(matches!(step, PumpStep::ReadFailed(Phase::Header, "reset")));
    assert!(step.ends_direction());

    let source = Source::new(vec![Event::Bytes(vec![1, 0, 0, 0, 9, 0, 0, 0, 1]), Event::Fail("gone")]);
    let mut pump = Pump::new();
    assert!(matches!(
        pump.read_from_then_write_to(&source, &sink),
        PumpStep::ReadFailed(Phase::Payload, "gone")
    ));
    assert!(sink.calls.borrow().is_empty());
}

#[test]
fn write_failure_and_write_zero() {
    let f = frame(1, b"x");
    let source = Source::bytes(&f, 64);
    let sink = Sink::scripted(64, vec![WriteAttempt::Failed("broken pipe")]);
    let mut pump = Pump::new();
    let step = pump.read_from_then_write_to(&source, &sink);
    assert!(matches!(step, PumpStep::WriteFailed("broken pipe")));
    assert!(step.ends_direction());

    let source = Source::bytes(&f, 64);
    let sink = Sink::scripted(64, vec![WriteAttempt::Wrote(3), WriteAttempt::Wrote(0)]);
    let mut pump = Pump::new();
    let step = pump.read_from_then_write_to(&source, &sink);
    assert!(matches!(step, PumpStep::WriteZero));
    assert!(step.ends_direction());
    assert_eq!(pump.phase(), Phase::Write);
}

#[test]
fn payload_length_reads_upper_half_little_endian() {
    assert_eq!(payload_length(&[1, 0, 0, 0, 5, 0, 0, 0]), 5);
    assert_eq!(payload_length(&[0xff, 0xff, 0xff, 0xff, 0x01, 0x02, 0x03, 0x04]), 0x0403_0201);
    assert_eq!(payload_length(&[0, 0, 0, 0, 0xff, 0xff, 0xff, 0xff]), u32::MAX);
    assert_eq!(payload_length(&[9, 9, 9, 9, 0, 0, 0, 0, 7, 7]), 0);
    assert_eq!(HEADER_LEN, 8);
}

#[test]
fn largest_length_is_read_as_announced() {
    // the whole payload is never delivered: the pump stops cleanly
    let source = Source::bytes(&[0, 0, 0, 0, 0xff, 0xff, 0xff, 0xff, 1, 2, 3], 64);
    let sink = Sink::new(64);
    let mut pump = Pump::new();
    assert!(matches!(pump.read_from_then_write_to(&source, &sink), PumpStep::Stopped));
    assert!(sink.calls.borrow().is_empty());
}

#[test]
fn read_exact_fills_and_reports() {
    let source = Source::new(vec![Event::Bytes(vec![1, 2]), Event::Block, Event::Bytes(vec![3, 4, 5])]);
    let mut buf = vec![9];
    assert!(matches!(source.try_read_exact(&mut buf, 4), Transfer::Wait));
    assert_eq!(buf, vec![9, 1, 2]);
    assert!(matches!(source.try_read_exact(&mut buf, 4), Transfer::Complete));
    assert_eq!(buf, vec![9, 1, 2, 3]);
    assert!(matches!(source.try_read_exact(&mut buf, 4), Transfer::Complete));
    assert!(matches!(source.try_read_exact(&mut buf, 6), Transfer::Complete));
    assert_eq!(buf, vec![9, 1, 2, 3, 4, 5]);
    assert!(matches!(source.try_read_exact(&mut buf, 7), Transfer::EndOfStream));
    let failing = Source::new(vec![Event::Interrupt, Event::Fail("bad")]);
    assert!(matches!(failing.try_read_exact(&mut buf, 7), Transfer::Retry));
    assert!(matches!(failing.try_read_exact(&mut buf, 7), Transfer::Failed("bad")));
}

#[test]
fn write_all_advances_past_written_bytes() {
    let sink = Sink::new(2);
    let mut sent = 1;
    assert!(matches!(sink.try_write_all(&[1, 2, 3, 4, 5], &mut sent), Transfer::Complete));
    assert_eq!(sent, 5);
    assert_eq!(*sink.received.borrow(), vec![2, 3, 4, 5]);
    let sink = Sink::scripted(8, vec![WriteAttempt::Wrote(1), WriteAttempt::WouldBlock]);
    let mut sent = 0;
    assert!(matches!(sink.try_write_all(&[1, 2, 3], &mut sent), Transfer::Wait));
    assert_eq!(sent, 1);
}

#[test]
fn take_read_maps_each_attempt() {
    let mut buf = vec![1];
    assert!(take_read::<&str>(&mut buf, ReadAttempt::Data(vec![2, 3])).is_none());
    assert_eq!(buf, vec![1, 2, 3]);
    assert!(matches!(take_read::<&str>(&mut buf, ReadAttempt::Data(Vec::new())), Some(Transfer::EndOfStream)));
    assert!(matches!(take_read::<&str>(&mut buf, ReadAttempt::WouldBlock), Some(Transfer::Wait)));
    assert!(matches!(take_read::<&str>(&mut buf, ReadAttempt::Interrupted), Some(Transfer::Retry)));
    assert!(matches!(take_read(&mut buf, ReadAttempt::Failed("reset")), Some(Transfer::Failed("reset"))));
    assert_eq!(buf, vec![1, 2, 3]);
}

#[test]
fn take_write_maps_each_attempt() {
    let mut sent = 2;
    assert!(take_write::<&str>(&mut sent, 10, WriteAttempt::Wrote(5)).is_none());
    assert_eq!(sent, 7);
    assert!(matches!(take_write::<&str>(&mut sent, 10, WriteAttempt::Wrote(0)), Some(Transfer::WriteZero)));
    assert!(matches!(take_write::<&str>(&mut sent, 10, WriteAttempt::WouldBlock), Some(Transfer::Wait)));
    assert!(matches!(take_write::<&str>(&mut sent, 10, WriteAttempt::Interrupted), Some(Transfer::Retry)));
    assert!(matches!(take_write(&mut sent, 10, WriteAttempt::Failed("broken")), Some(Transfer::Failed("broken"))));
    assert_eq!(sent, 7);
}

#[test]
fn unsent_is_the_tail_after_sent() {
    assert_eq!(unsent(&[1, 2, 3, 4], 1), &[2, 3, 4]);
    assert_eq!(unsent(&[1, 2, 3, 4], 4), &[] as &[u8]);
    assert_eq!(unsent(&[1, 2, 3, 4], 0), &[1, 2, 3, 4]);
}

#[test]
fn write_all_reports_zero_and_failure() {
    let sink = Sink::scripted(8, vec![WriteAttempt::Wrote(2), WriteAttempt::Wrote(0)]);
    let mut sent = 0;
    assert!(matches!(sink.try_write_all(&[1, 2, 3], &mut sent), Transfer::WriteZero));
    assert_eq!(sent, 2);
    let sink = Sink::scripted(8, vec![WriteAttempt::Failed("gone")]);
    assert!(matches!(sink.try_write_all(&[1, 2, 3], &mut sent), Transfer::Failed("gone")));
    assert_eq!(sent, 2);
    assert_eq!(sink.calls.borrow()[0], vec![3]);
}
