use vstd::prelude::*;

verus! {

/// The stage of connection setup that failed.
#[derive(Clone, Copy, Debug, PartialEq, Eq, Structural)]
pub enum SetupErrorKind {
    /// The listening socket could not be bound.
    BindFailed,
    /// Accepting the peer failed.
    AcceptFailed,
    /// Dialing the listener failed.
    DialFailed,
    /// Writing or reading the name line failed.
    HandshakeFailed,
    /// The connection could not be switched to non-blocking mode.
    NonblockingFailed,
}

/// A failed connection attempt: the stage and the transport's description.
#[derive(Debug, PartialEq, Eq)]
pub struct SetupError {
    pub kind: SetupErrorKind,
    pub reason: String,
}

/// Where connection setup stands.
#[derive(Debug, PartialEq, Eq)]
pub enum ConnectionState {
    /// The client is dialing.
    Connecting,
    /// The server is bound and waits for its peer.
    WaitingForPeer,
    /// The connection is ready; the peer's address.
    Connected(String),
    /// Setup failed.
    Failed(SetupError),
}

/// What the background workers hand to the consumer loop.
#[derive(Debug, PartialEq, Eq)]
pub enum Event {
    /// A line for the transcript.
    DisplayText(String),
    /// A failure described for the user.
    Error(String),
    /// A change of the connection's state.
    StatusChanged(ConnectionState),
}

/// The model of a [`ConnectionState`].
pub enum StateView {
    Connecting,
    WaitingForPeer,
    Connected(Seq<char>),
    Failed(SetupErrorKind, Seq<char>),
}

/// The model of an [`Event`].
pub enum EventView {
    DisplayText(Seq<char>),
    Error(Seq<char>),
    StatusChanged(StateView),
}

impl View for ConnectionState {
    type V = StateView;

    open spec fn view(&self) -> StateView {
        match self {
            ConnectionState::Connecting => StateView::Connecting,
            ConnectionState::WaitingForPeer => StateView::WaitingForPeer,
            ConnectionState::Connected(peer) => StateView::Connected(peer@),
            ConnectionState::Failed(e) => StateView::Failed(e.kind, e.reason@),
        }
    }
}

impl View for Event {
    type V = EventView;

    open spec fn view(&self) -> EventView {
        match self {
            Event::DisplayText(t) => EventView::DisplayText(t@),
            Event::Error(t) => EventView::Error(t@),
            Event::StatusChanged(s) => EventView::StatusChanged(s@),
        }
    }
}

/// The models of a sequence of events.
pub open spec fn events_view(events: Seq<Event>) -> Seq<EventView> {
    events.map_values(|e: Event| e@)
}

/// Tells whether an event announces a ready connection.
pub open spec fn is_connected(e: EventView) -> bool {
    e matches EventView::StatusChanged(StateView::Connected(_))
}

impl Event {
    /// The text that the transcript shows for this event, ending in a line feed.
    pub fn transcript_line(&self) -> (r: String)
        ensures
            r@ == transcript_line_of(self@),
    {
        match self {
            Event::DisplayText(t) => t.clone().concat("\n"),
            Event::Error(t) => t.clone().concat("\n"),
            Event::StatusChanged(s) => s.label().concat("\n"),
        }
    }
}

impl ConnectionState {
    /// The status line shown for this state.
    pub fn label(&self) -> (r: String)
        ensures
            r@ == label_of(self@),
    {
        match self {
            ConnectionState::Connecting => String::from_str("Status: Connecting..."),
            ConnectionState::WaitingForPeer => String::from_str("Status: Waiting for peer..."),
            ConnectionState::Connected(peer) => String::from_str("Status: Connected to ").concat(
                peer.as_str(),
            ),
            ConnectionState::Failed(e) => String::from_str("Status: Connection failed - ").concat(
                e.reason.as_str(),
            ),
        }
    }
}

/// The status line of a state.
pub open spec fn label_of(s: StateView) -> Seq<char> {
    match s {
        StateView::Connecting => "Status: Connecting..."@,
        StateView::WaitingForPeer => "Status: Waiting for peer..."@,
        StateView::Connected(peer) => "Status: Connected to "@ + peer,
        StateView::Failed(_, reason) => "Status: Connection failed - "@ + reason,
    }
}

/// The transcript text of an event.
pub open spec fn transcript_line_of(e: EventView) -> Seq<char> {
    match e {
        EventView::DisplayText(t) => t + "\n"@,
        EventView::Error(t) => t + "\n"@,
        EventView::StatusChanged(s) => label_of(s) + "\n"@,
    }
}

} // verus!
