use duplex_chat::event::Event;
use duplex_chat::framer::LineFramer;
use duplex_chat::outbound::outgoing_frame;
use duplex_chat::reader::{ERROR_PAUSE_MS, POLL_PAUSE_MS, ReadOutcome, ReadStep, Reader};

fn shown(t: &str) -> Event {
    Event::DisplayText(t.to_string())
}

#[test]
fn framer_splits_lines() {
    let mut f = LineFramer::new();
    assert_eq!(f.push(b"ab\ncd"), vec![b"ab".to_vec()]);
    assert_eq!(f.push(b"e\n"), vec![b"cde".to_vec()]);
    assert_eq!(f.push(b"\n\n"), vec![Vec::<u8>::new(), Vec::new()]);
    assert_eq!(f.push(b""), Vec::<Vec<u8>>::new());
}

#[test]
fn framer_hands_out_unfinished_line() {
    let mut f = LineFramer::new();
    assert_eq!(f.push(b"Ali"), Vec::<Vec<u8>>::new());
    assert_eq!(f.take_pending(), b"Ali".to_vec());
    assert_eq!(f.take_pending(), Vec::<u8>::new());
    assert_eq!(f.push(b"x\n"), vec![b"x".to_vec()]);
}

#[test]
fn every_cut_gives_the_same_events() {
    let mut wire = Vec::new();
    for m in ["alpha", "béta", "  ", "gamma"] {
        wire.extend(outgoing_frame(m).unwrap());
    }
    let expected = vec![shown("Other: alpha"), shown("Other: béta"), shown("Other: gamma")];
    for cut in 0..=wire.len() {
        let mut r = Reader::new();
        let mut events = r.on_read(ReadOutcome::Data(wire[..cut].to_vec())).events;
        events.extend(r.on_read(ReadOutcome::Data(wire[cut..].to_vec())).events);
        assert_eq!(events, expected, "cut at {}", cut);
    }
}

#[test]
fn peer_hello_reaches_server() {
    let bytes = outgoing_frame("hello").unwrap();
    let mut server = Reader::new();
    let step = server.on_read(ReadOutcome::Data(bytes));
    assert_eq!(step, ReadStep { events: vec![shown("Other: hello")], pause_ms: 0 });
}

#[test]
fn messages_arrive_in_order() {
    let mut wire = Vec::new();
    for m in ["one", "two", " three "] {
        wire.extend(outgoing_frame(m).unwrap());
    }
    let mut r = Reader::new();
    let step = r.on_read(ReadOutcome::Data(wire));
    assert_eq!(step.events, vec![shown("Other: one"), shown("Other: two"), shown("Other: three")]);
}

#[test]
fn chunking_keeps_order() {
    let wire = b"first\nsec".to_vec();
    let mut r = Reader::new();
    let a = r.on_read(ReadOutcome::Data(wire));
    assert_eq!(a.events, vec![shown("Other: first")]);
    let b = r.on_read(ReadOutcome::WouldBlock);
    assert_eq!(b.events, vec![]);
    let c = r.on_read(ReadOutcome::Data(b"ond\nthird\n".to_vec()));
    assert_eq!(c.events, vec![shown("Other: second"), shown("Other: third")]);
}

#[test]
fn split_inside_a_character() {
    let wire = "né\n".as_bytes().to_vec();
    let mut r = Reader::new();
    assert_eq!(r.on_read(ReadOutcome::Data(wire[..2].to_vec())).events, vec![]);
    assert_eq!(r.on_read(ReadOutcome::Data(wire[2..].to_vec())).events, vec![shown("Other: né")]);
}

#[test]
fn blank_and_invalid_lines_are_dropped() {
    let mut r = Reader::new();
    let mut wire = b"  \r\n".to_vec();
    wire.extend([0xff, 0xfe, b'\n']);
    wire.extend(b"ok\n");
    assert_eq!(r.on_read(ReadOutcome::Data(wire)).events, vec![shown("Other: ok")]);
}

#[test]
fn idle_and_closed_reads_pause_briefly() {
    let mut r = Reader::new();
    assert_eq!(r.on_read(ReadOutcome::WouldBlock), ReadStep { events: vec![], pause_ms: 50 });
    assert_eq!(r.on_read(ReadOutcome::Closed), ReadStep { events: vec![], pause_ms: 50 });
    assert_eq!(POLL_PAUSE_MS, 50);
}

#[test]
fn failed_read_reports_and_backs_off() {
    let mut r = Reader::new();
    let step = r.on_read(ReadOutcome::Failed("connection reset".to_string()));
    assert_eq!(
        step,
        ReadStep {
            events: vec![Event::Error("Error reading: connection reset".to_string())],
            pause_ms: 1000
        }
    );
    assert_eq!(ERROR_PAUSE_MS, 1000);
}

#[test]
fn failed_read_keeps_partial_line() {
    let mut r = Reader::new();
    r.on_read(ReadOutcome::Data(b"par".to_vec()));
    r.on_read(ReadOutcome::Failed("x".to_string()));
    let step = r.on_read(ReadOutcome::Data(b"tial\n".to_vec()));
    assert_eq!(step.events, vec![shown("Other: partial")]);
}
