use vstd::prelude::*;
use crate::event::{ConnectionState, Event, EventView, StateView, label_of, transcript_line_of};

verus! {

/// The colour class of the status line.
#[derive(Clone, Copy, Debug, PartialEq, Eq, Structural)]
pub enum Tone {
    /// Work in progress.
    Busy,
    /// Connected.
    Good,
    /// Failed or not connected.
    Bad,
}

/// What the consumer shows: the transcript, the status line and whether sending is allowed.
/// Only the consumer's own thread changes it, one event at a time.
pub struct Screen {
    transcript: String,
    status: String,
    tone: Tone,
    can_send: bool,
}

/// The model of a [`Screen`].
pub struct ScreenView {
    pub transcript: Seq<char>,
    pub status: Seq<char>,
    pub tone: Tone,
    pub can_send: bool,
}

impl View for Screen {
    type V = ScreenView;

    closed spec fn view(&self) -> ScreenView {
        ScreenView {
            transcript: self.transcript@,
            status: self.status@,
            tone: self.tone,
            can_send: self.can_send,
        }
    }
}

/// The tone of the status line for a state.
pub open spec fn tone_of(s: StateView) -> Tone {
    match s {
        StateView::Connecting => Tone::Busy,
        StateView::WaitingForPeer => Tone::Busy,
        StateView::Connected(_) => Tone::Good,
        StateView::Failed(_, _) => Tone::Bad,
    }
}

/// The status line shown after an error.
pub open spec fn error_status() -> Seq<char> {
    "Status: Error"@
}

/// What the screen shows after an event: every event adds its line to the transcript; a
/// change of state sets the status line and allows sending exactly while connected; an
/// error marks the status line but keeps sending as it was.
pub open spec fn shown_after(v: ScreenView, e: EventView) -> ScreenView {
    let transcript = v.transcript + transcript_line_of(e);
    match e {
        EventView::DisplayText(_) => ScreenView { transcript, ..v },
        EventView::Error(_) => ScreenView { transcript, status: error_status(), tone: Tone::Bad, ..v },
        EventView::StatusChanged(s) => ScreenView {
            transcript,
            status: label_of(s),
            tone: tone_of(s),
            can_send: s is Connected,
        },
    }
}

impl Screen {
    /// A screen before any event: empty transcript, connecting, sending not allowed.
    pub fn new() -> (r: Screen)
        ensures
            r@.transcript.len() == 0,
            r@.status == label_of(StateView::Connecting),
            r@.tone == Tone::Busy,
            !r@.can_send,
    {
        Screen {
            transcript: String::new(),
            status: ConnectionState::Connecting.label(),
            tone: Tone::Busy,
            can_send: false,
        }
    }

    /// Shows one event.
    pub fn apply(&mut self, e: &Event)
        ensures
            final(self)@ == shown_after(old(self)@, e@),
    {
        let line = e.transcript_line();
        self.transcript.append(line.as_str());
        match e {
            Event::DisplayText(_) => {},
            Event::Error(_) => {
                self.status = String::from_str("Status: Error");
                self.tone = Tone::Bad;
            },
            Event::StatusChanged(s) => {
                self.status = s.label();
                self.tone = match s {
                    ConnectionState::Connecting => Tone::Busy,
                    ConnectionState::WaitingForPeer => Tone::Busy,
                    ConnectionState::Connected(_) => Tone::Good,
                    ConnectionState::Failed(_) => Tone::Bad,
                };
                self.can_send = match s {
                    ConnectionState::Connected(_) => true,
                    _ => false,
                };
            },
        }
    }

    /// The transcript so far.
    pub fn transcript(&self) -> (r: &str)
        ensures
            r@ == self@.transcript,
    {
        self.transcript.as_str()
    }

    /// The status line.
    pub fn status(&self) -> (r: &str)
        ensures
            r@ == self@.status,
    {
        self.status.as_str()
    }

    /// The tone of the status line.
    pub fn tone(&self) -> (r: Tone)
        ensures
            r == self@.tone,
    {
        self.tone
    }

    /// Whether the user may send.
    pub fn can_send(&self) -> (r: bool)
        ensures
            r == self@.can_send,
    {
        self.can_send
    }
}

} // verus!
