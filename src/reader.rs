use vstd::prelude::*;
use vstd::utf8::*;
use crate::event::{Event, EventView, events_view};
use crate::framer::{
    LineFramer, has_no_line_feed, lemma_take_bytes_concat, lemma_take_bytes_keeps_lines,
    lemma_take_bytes_no_newline, take_bytes,
};
use crate::text::{decode_trimmed, line_frame, trimmed};

verus! {

/// How long the reader waits when no data is available, in milliseconds.
pub const POLL_PAUSE_MS: u64 = 50;

/// How long the reader waits after a failed read, in milliseconds.
pub const ERROR_PAUSE_MS: u64 = 1000;

/// What one read attempt on the non-blocking connection gave.
#[derive(Debug, PartialEq, Eq)]
pub enum ReadOutcome {
    /// Some bytes arrived.
    Data(Vec<u8>),
    /// The read returned no bytes: the peer has closed its side.
    Closed,
    /// No data is available right now.
    WouldBlock,
    /// Any other failure, described.
    Failed(String),
}

/// What the reader does after one read: the events it publishes, then how long it pauses.
#[derive(Debug, PartialEq, Eq)]
pub struct ReadStep {
    pub events: Vec<Event>,
    pub pause_ms: u64,
}

/// The text shown for a line that the peer sent.
pub open spec fn remote_text(line: Seq<char>) -> Seq<char> {
    "Other: "@ + line
}

/// The event for one received line: the trimmed text, marked as the peer's, or nothing
/// where the line is not UTF-8 or is blank.
pub open spec fn remote_line_event(line: Seq<u8>) -> Option<EventView> {
    if valid_utf8(line) && trimmed(decode_utf8(line)).len() > 0 {
        Some(EventView::DisplayText(remote_text(trimmed(decode_utf8(line)))))
    } else {
        None
    }
}

/// The events for a run of received lines, in order.
pub open spec fn line_events(lines: Seq<Seq<u8>>) -> Seq<EventView>
    decreases lines.len(),
{
    if lines.len() == 0 {
        Seq::empty()
    } else {
        let before = line_events(lines.drop_last());
        match remote_line_event(lines.last()) {
            Some(e) => before.push(e),
            None => before,
        }
    }
}

/// The event for a failed read.
pub open spec fn read_error_event(reason: Seq<char>) -> EventView {
    EventView::Error("Error reading: "@ + reason)
}

/// The events of two runs of lines, one after the other.
pub proof fn lemma_line_events_concat(a: Seq<Seq<u8>>, b: Seq<Seq<u8>>)
    ensures
        line_events(a + b) == line_events(a) + line_events(b),
    decreases b.len(),
{
    if b.len() == 0 {
        assert(a + b =~= a);
        assert(line_events(a) + Seq::<EventView>::empty() =~= line_events(a));
    } else {
        assert((a + b).drop_last() =~= a + b.drop_last());
        assert((a + b).last() == b.last());
        lemma_line_events_concat(a, b.drop_last());
        let x = line_events(a);
        let y = line_events(b.drop_last());
        match remote_line_event(b.last()) {
            Some(e) => {
                assert((x + y).push(e) =~= x + y.push(e));
            },
            None => {},
        }
    }
}

/// However the incoming stream is cut between two reads, the reader publishes the same
/// events, in the same order, and keeps the same unfinished line, as from one read of the
/// whole.
pub proof fn lemma_chunking_does_not_matter(pending: Seq<u8>, a: Seq<u8>, b: Seq<u8>)
    ensures
        ({
            let first = take_bytes((Seq::empty(), pending), a);
            let second = take_bytes((Seq::empty(), first.1), b);
            let whole = take_bytes((Seq::empty(), pending), a + b);
            &&& line_events(first.0) + line_events(second.0) == line_events(whole.0)
            &&& second.1 == whole.1
        }),
{
    let first = take_bytes((Seq::empty(), pending), a);
    lemma_take_bytes_concat((Seq::empty(), pending), a, b);
    lemma_take_bytes_keeps_lines(first.0, first.1, b);
    let second = take_bytes((Seq::empty(), first.1), b);
    lemma_line_events_concat(first.0, second.0);
}

/// The bytes on the wire after a peer has sent each of `msgs` in turn.
pub open spec fn wire_of(msgs: Seq<Seq<char>>) -> Seq<u8>
    decreases msgs.len(),
{
    if msgs.len() == 0 {
        Seq::empty()
    } else {
        wire_of(msgs.drop_last()) + line_frame(msgs.last())
    }
}

/// A message that arrives as one event: a single line that is not blank.
pub open spec fn well_formed(m: Seq<char>) -> bool {
    &&& forall|i: int| 0 <= i < m.len() ==> m[i] != '\n'
    &&& trimmed(m).len() > 0
}

/// The events that the messages `msgs` give on arrival: each trimmed, marked as the peer's.
pub open spec fn remote_events(msgs: Seq<Seq<char>>) -> Seq<EventView> {
    msgs.map_values(|m: Seq<char>| EventView::DisplayText(remote_text(trimmed(m))))
}

/// No line feed stands in the encoding of a character other than a line feed.
proof fn lemma_scalar_no_line_feed(v: u32)
    requires
        v != 10,
        is_scalar(v),
    ensures
        has_no_line_feed(encode_scalar(v)),
{
    let e = encode_scalar(v);
    if has_width_1_encoding(v) {
        let b = leading_byte_width_1(v);
        assert(b != 10u8) by (bit_vector)
            requires
                b == (v & 0x7F) as u8,
                v <= 0x7f,
                v != 10,
        ;
    } else {
        let c1 = last_continuation_byte(v);
        assert(c1 != 10u8) by (bit_vector)
            requires
                c1 == 0x80 | (v & 0x3F) as u8,
        ;
        if has_width_2_encoding(v) {
            let b = leading_byte_width_2(v);
            assert(b != 10u8) by (bit_vector)
                requires
                    b == 0xC0 | ((v >> 6) & 0x1F) as u8,
            ;
        } else {
            let c2 = second_last_continuation_byte(v);
            assert(c2 != 10u8) by (bit_vector)
                requires
                    c2 == 0x80 | ((v >> 6) & 0x3F) as u8,
            ;
            if has_width_3_encoding(v) {
                let b = leading_byte_width_3(v);
                assert(b != 10u8) by (bit_vector)
                    requires
                        b == 0xE0 | ((v >> 12) & 0x0F) as u8,
                ;
            } else {
                let c3 = third_last_continuation_byte(v);
                assert(c3 != 10u8) by (bit_vector)
                    requires
                        c3 == 0x80 | ((v >> 12) & 0x3F) as u8,
                ;
                let b = leading_byte_width_4(v);
                assert(b != 10u8) by (bit_vector)
                    requires
                        b == 0xF0 | ((v >> 18) & 0x7) as u8,
                ;
            }
        }
    }
}

/// Text without a line feed encodes to bytes without one.
proof fn lemma_encode_no_line_feed(m: Seq<char>)
    requires
        forall|i: int| 0 <= i < m.len() ==> m[i] != '\n',
    ensures
        has_no_line_feed(encode_utf8(m)),
    decreases m.len(),
{
    if m.len() > 0 {
        let v = m[0] as u32;
        vstd::utf8::char_is_scalar(m[0]);
        assert(v != 10) by {
            if v == 10 {
                vstd::utf8::char_u32_cast(m[0], v);
                vstd::utf8::char_u32_cast('\n', v);
            }
        }
        lemma_scalar_no_line_feed(v);
        lemma_encode_no_line_feed(m.drop_first());
        let a = encode_scalar(v);
        let b = encode_utf8(m.drop_first());
        assert(encode_utf8(m) == a + b);
        assert forall|i: int| 0 <= i < (a + b).len() implies (a + b)[i] != 10u8 by {
            if i < a.len() {
                assert((a + b)[i] == a[i]);
            } else {
                assert((a + b)[i] == b[i - a.len()]);
            }
        }
    }
}

/// A peer that sends `n` well-formed messages, each as a line, makes a reader that has
/// received nothing publish exactly `n` display events, in the order sent, each the
/// trimmed message marked as the peer's; no unfinished line remains.
pub proof fn lemma_messages_arrive_in_order(msgs: Seq<Seq<char>>)
    requires
        forall|i: int| 0 <= i < msgs.len() ==> well_formed(#[trigger] msgs[i]),
    ensures
        ({
            let r = take_bytes((Seq::empty(), Seq::empty()), wire_of(msgs));
            &&& line_events(r.0) == remote_events(msgs)
            &&& r.1 == Seq::<u8>::empty()
        }),
    decreases msgs.len(),
{
    broadcast use vstd::utf8::encode_utf8_decode_utf8, vstd::utf8::encode_utf8_valid_utf8;

    let start = (Seq::<Seq<u8>>::empty(), Seq::<u8>::empty());
    let r = take_bytes(start, wire_of(msgs));
    if msgs.len() == 0 {
        assert(remote_events(msgs) =~= Seq::<EventView>::empty());
    } else {
        let init = msgs.drop_last();
        let m = msgs.last();
        assert(well_formed(msgs[msgs.len() - 1]));
        assert forall|i: int| 0 <= i < init.len() implies well_formed(#[trigger] init[i]) by {
            assert(init[i] == msgs[i]);
        }
        lemma_messages_arrive_in_order(init);
        let before = take_bytes(start, wire_of(init));
        lemma_take_bytes_concat(start, wire_of(init), line_frame(m));
        assert(line_frame(m).drop_last() =~= encode_utf8(m));
        lemma_encode_no_line_feed(m);
        lemma_take_bytes_no_newline(before, encode_utf8(m));
        assert(Seq::<u8>::empty() + encode_utf8(m) =~= encode_utf8(m));
        assert(r == (before.0.push(encode_utf8(m)), Seq::<u8>::empty()));
        assert(before.0.push(encode_utf8(m)).drop_last() =~= before.0);
        assert(remote_events(msgs) =~= remote_events(init).push(
            EventView::DisplayText(remote_text(trimmed(m))),
        ));
    }
}

/// The background reader's decisions: it frames what arrives into lines and turns each
/// into an event.
pub struct Reader {
    framer: LineFramer,
}

impl Reader {
    /// The bytes of a line that has begun to arrive but not ended.
    pub closed spec fn pending(&self) -> Seq<u8> {
        self.framer.pending()
    }

    /// A reader that has received nothing.
    pub fn new() -> (r: Reader)
        ensures
            r.pending() == Seq::<u8>::empty(),
    {
        Reader { framer: LineFramer::new() }
    }

    /// Handles the outcome of one read.
    pub fn on_read(&mut self, outcome: ReadOutcome) -> (r: ReadStep)
        ensures
            match outcome {
                ReadOutcome::Data(chunk) => {
                    let next = take_bytes((Seq::empty(), old(self).pending()), chunk@);
                    &&& events_view(r.events@) == line_events(next.0)
                    &&& final(self).pending() == next.1
                    &&& r.pause_ms == 0
                },
                ReadOutcome::Closed | ReadOutcome::WouldBlock => {
                    &&& r.events@.len() == 0
                    &&& final(self).pending() == old(self).pending()
                    &&& r.pause_ms == POLL_PAUSE_MS
                },
                ReadOutcome::Failed(reason) => {
                    &&& events_view(r.events@) == seq![read_error_event(reason@)]
                    &&& final(self).pending() == old(self).pending()
                    &&& r.pause_ms == ERROR_PAUSE_MS
                },
            },
    {
        match outcome {
            ReadOutcome::Data(chunk) => {
                let lines = self.framer.push(chunk.as_slice());
                let ghost line_seqs = lines@.map_values(|l: Vec<u8>| l@);
                let mut events: Vec<Event> = Vec::new();
                let mut i: usize = 0;
                assert(line_seqs.subrange(0, 0) =~= Seq::<Seq<u8>>::empty());
                assert(events_view(events@) =~= Seq::<EventView>::empty());
                while i < lines.len()
                    invariant
                        i <= lines@.len(),
                        line_seqs == lines@.map_values(|l: Vec<u8>| l@),
                        events_view(events@) == line_events(line_seqs.subrange(0, i as int)),
                    decreases lines@.len() - i,
                {
                    let ghost before = events_view(events@);
                    assert(line_seqs.subrange(0, i + 1).drop_last() =~= line_seqs.subrange(
                        0,
                        i as int,
                    ));
                    assert(line_seqs.subrange(0, i + 1).last() == lines@[i as int]@);
                    match decode_trimmed(lines[i].as_slice()) {
                        Some(t) => {
                            if t.as_str().unicode_len() > 0 {
                                let shown = String::from_str("Other: ").concat(t.as_str());
                                events.push(Event::DisplayText(shown));
                                assert(events_view(events@) =~= before.push(
                                    EventView::DisplayText(shown@),
                                ));
                            }
                        },
                        None => {},
                    }
                    i = i + 1;
                }
                assert(line_seqs.subrange(0, i as int) =~= line_seqs);
                ReadStep { events, pause_ms: 0 }
            },
            ReadOutcome::Closed | ReadOutcome::WouldBlock => {
                ReadStep { events: Vec::new(), pause_ms: POLL_PAUSE_MS }
            },
            ReadOutcome::Failed(reason) => {
                let mut events: Vec<Event> = Vec::new();
                events.push(Event::Error(String::from_str("Error reading: ").concat(reason.as_str())));
                assert(events_view(events@) =~= seq![read_error_event(reason@)]);
                ReadStep { events, pause_ms: ERROR_PAUSE_MS }
            },
        }
    }
}

} // verus!
