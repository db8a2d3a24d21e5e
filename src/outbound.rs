use vstd::prelude::*;
use crate::event::{Event, EventView};
use crate::text::{encode_line, line_frame};

verus! {

/// How writing a message to the connection went.
#[derive(Debug, PartialEq, Eq)]
pub enum SendOutcome {
    /// Written and flushed.
    Sent,
    /// The write failed, described.
    WriteFailed(String),
    /// The write went through but the flush failed, described.
    FlushFailed(String),
}

/// The model of a [`SendOutcome`].
pub enum SendOutcomeView {
    Sent,
    WriteFailed(Seq<char>),
    FlushFailed(Seq<char>),
}

impl View for SendOutcome {
    type V = SendOutcomeView;

    open spec fn view(&self) -> SendOutcomeView {
        match self {
            SendOutcome::Sent => SendOutcomeView::Sent,
            SendOutcome::WriteFailed(r) => SendOutcomeView::WriteFailed(r@),
            SendOutcome::FlushFailed(r) => SendOutcomeView::FlushFailed(r@),
        }
    }
}

/// What the user sees after a send: one notice, and what the input field holds.
#[derive(Debug, PartialEq, Eq)]
pub struct SendReport {
    pub notice: Event,
    pub input: String,
}

/// The bytes that a send of `text` writes: none for empty text.
pub open spec fn send_frame(text: Seq<char>) -> Option<Seq<u8>> {
    if text.len() == 0 {
        None
    } else {
        Some(line_frame(text))
    }
}

/// The echo of a message that went out.
pub open spec fn own_text(text: Seq<char>) -> Seq<char> {
    "Me: "@ + text
}

/// The notice and the input left after a send of `text` with the given outcome.
pub open spec fn report_of(text: Seq<char>, o: SendOutcomeView) -> (EventView, Seq<char>) {
    match o {
        SendOutcomeView::Sent => (EventView::DisplayText(own_text(text)), Seq::empty()),
        SendOutcomeView::WriteFailed(r) => (EventView::Error("Error sending: "@ + r), text),
        SendOutcomeView::FlushFailed(r) => (EventView::Error("Error flushing: "@ + r), text),
    }
}

/// A send that fails, at the write or at the flush, gives exactly one notice, an error, and
/// leaves the input as it was, so that sending it again writes the same bytes.
pub proof fn lemma_failed_send_keeps_input(text: Seq<char>, o: SendOutcomeView)
    requires
        !(o is Sent),
    ensures
        report_of(text, o).0 is Error,
        report_of(text, o).1 == text,
        send_frame(report_of(text, o).1) == send_frame(text),
{
}

/// The bytes to write for a send of `text`, or `None` where the text is empty and the send
/// does nothing.
pub fn outgoing_frame(text: &str) -> (r: Option<Vec<u8>>)
    ensures
        r is Some <==> send_frame(text@) is Some,
        r is Some ==> r->0@ == send_frame(text@)->0,
{
    if text.unicode_len() == 0 {
        None
    } else {
        Some(encode_line(text))
    }
}

/// The report of a send of `text`: after a success the echo and an empty input; after a
/// failure the error and the text kept, so that the user can send it again.
pub fn send_report(text: String, outcome: SendOutcome) -> (r: SendReport)
    ensures
        (r.notice@, r.input@) == report_of(text@, outcome@),
{
    match outcome {
        SendOutcome::Sent => SendReport {
            notice: Event::DisplayText(String::from_str("Me: ").concat(text.as_str())),
            input: String::new(),
        },
        SendOutcome::WriteFailed(reason) => SendReport {
            notice: Event::Error(String::from_str("Error sending: ").concat(reason.as_str())),
            input: text,
        },
        SendOutcome::FlushFailed(reason) => SendReport {
            notice: Event::Error(String::from_str("Error flushing: ").concat(reason.as_str())),
            input: text,
        },
    }
}

} // verus!
