use vstd::prelude::*;
use vstd::utf8::*;
use crate::event::{ConnectionState, Event, EventView, SetupError, SetupErrorKind, StateView, events_view};
use crate::role::{Role, opt_view};
use crate::text::{decode_trimmed, encode_line, line_frame, trimmed};

verus! {

/// The stage that connection setup has reached.
#[derive(Clone, Copy, Debug, PartialEq, Eq, Structural)]
pub enum Phase {
    /// The server binds its listener.
    Binding,
    /// The server waits for its peer.
    Accepting,
    /// The server reads the peer's name line.
    ReadingName,
    /// The client dials.
    Dialing,
    /// The client writes its name line.
    SendingName,
    /// The connection is switched to non-blocking mode.
    Switching,
    /// The connection is ready to be handed off.
    Ready,
    /// Setup failed; nothing more happens.
    Failed,
}

/// The outside work that setup asks for next.
#[derive(Debug, PartialEq, Eq)]
pub enum Action {
    /// Bind a listening socket on the address.
    Bind(String),
    /// Block until one peer connects to the listener.
    Accept,
    /// Read one line from the peer, byte by byte, until a line feed or the end of the stream.
    ReadNameLine,
    /// Connect to the address.
    Dial(String),
    /// Write these bytes to the connection and flush.
    WriteLine(Vec<u8>),
    /// Switch the connection to non-blocking mode.
    SetNonblocking,
    /// Hand the connection off to the reader and the sender.
    Finish,
    /// Give up: setup has failed.
    Abandon,
}

/// The model of an [`Action`].
pub enum ActionView {
    Bind(Seq<char>),
    Accept,
    ReadNameLine,
    Dial(Seq<char>),
    WriteLine(Seq<u8>),
    SetNonblocking,
    Finish,
    Abandon,
}

impl View for Action {
    type V = ActionView;

    open spec fn view(&self) -> ActionView {
        match self {
            Action::Bind(a) => ActionView::Bind(a@),
            Action::Accept => ActionView::Accept,
            Action::ReadNameLine => ActionView::ReadNameLine,
            Action::Dial(a) => ActionView::Dial(a@),
            Action::WriteLine(b) => ActionView::WriteLine(b@),
            Action::SetNonblocking => ActionView::SetNonblocking,
            Action::Finish => ActionView::Finish,
            Action::Abandon => ActionView::Abandon,
        }
    }
}

/// What the outside work of an [`Action`] gave.
#[derive(Debug, PartialEq, Eq)]
pub enum SetupOutcome {
    /// Bind, write or switch succeeded.
    Done,
    /// Accept or dial succeeded; the peer's address.
    Connected(String),
    /// The name line was read; its bytes without the line feed.
    LineRead(Vec<u8>),
    /// The work failed, described.
    Failed(String),
}

/// The model of a [`SetupOutcome`].
pub enum OutcomeView {
    Done,
    Connected(Seq<char>),
    LineRead(Seq<u8>),
    Failed(Seq<char>),
}

impl View for SetupOutcome {
    type V = OutcomeView;

    open spec fn view(&self) -> OutcomeView {
        match self {
            SetupOutcome::Done => OutcomeView::Done,
            SetupOutcome::Connected(p) => OutcomeView::Connected(p@),
            SetupOutcome::LineRead(b) => OutcomeView::LineRead(b@),
            SetupOutcome::Failed(r) => OutcomeView::Failed(r@),
        }
    }
}

/// The model of an [`Establisher`].
pub struct SetupView {
    pub role: Role,
    pub address: Seq<char>,
    /// The display name; where there is one, the peers exchange a name line.
    pub name: Option<Seq<char>>,
    pub phase: Phase,
    /// The peer's address, once connected.
    pub peer: Seq<char>,
}

/// The state in which setup begins.
pub open spec fn start_state(role: Role, address: Seq<char>, name: Option<Seq<char>>) -> SetupView {
    SetupView {
        role,
        address,
        name,
        phase: match role {
            Role::Server => Phase::Binding,
            Role::Client => Phase::Dialing,
        },
        peer: Seq::empty(),
    }
}

/// The events published as setup begins.
pub open spec fn start_events(role: Role) -> Seq<EventView> {
    match role {
        Role::Server => Seq::empty(),
        Role::Client => seq![EventView::StatusChanged(StateView::Connecting)],
    }
}

/// The name line that the client writes.
pub open spec fn name_frame(name: Option<Seq<char>>) -> Seq<u8> {
    match name {
        Some(n) => line_frame(n),
        None => line_frame(Seq::empty()),
    }
}

/// The work that a state asks for.
pub open spec fn pending_action(s: SetupView) -> ActionView {
    match s.phase {
        Phase::Binding => ActionView::Bind(s.address),
        Phase::Accepting => ActionView::Accept,
        Phase::ReadingName => ActionView::ReadNameLine,
        Phase::Dialing => ActionView::Dial(s.address),
        Phase::SendingName => ActionView::WriteLine(name_frame(s.name)),
        Phase::Switching => ActionView::SetNonblocking,
        Phase::Ready => ActionView::Finish,
        Phase::Failed => ActionView::Abandon,
    }
}

/// The announcement that a peer of the given name joined.
pub open spec fn join_text(name: Seq<char>) -> Seq<char> {
    "User "@ + name + " joined the chat"@
}

/// The events for a name line read by the server: an announcement where it is UTF-8.
pub open spec fn join_events(line: Seq<u8>) -> Seq<EventView> {
    if valid_utf8(line) {
        seq![EventView::DisplayText(join_text(trimmed(decode_utf8(line))))]
    } else {
        Seq::empty()
    }
}

/// Setup failed at the given stage.
pub open spec fn failed(s: SetupView, kind: SetupErrorKind, reason: Seq<char>) -> (
    SetupView,
    Seq<EventView>,
) {
    (
        SetupView { phase: Phase::Failed, ..s },
        seq![EventView::StatusChanged(StateView::Failed(kind, reason))],
    )
}

/// The phase after the peer is connected: the name exchange where there is a name.
pub open spec fn after_connect(s: SetupView, handshake: Phase) -> Phase {
    if s.name is Some {
        handshake
    } else {
        Phase::Switching
    }
}

/// The next state and the events published, when an outcome arrives. An outcome that
/// does not answer the pending work changes nothing.
pub open spec fn next(s: SetupView, o: OutcomeView) -> (SetupView, Seq<EventView>) {
    match (s.phase, o) {
        (Phase::Binding, OutcomeView::Done) => (
            SetupView { phase: Phase::Accepting, ..s },
            seq![EventView::StatusChanged(StateView::WaitingForPeer)],
        ),
        (Phase::Binding, OutcomeView::Failed(r)) => failed(s, SetupErrorKind::BindFailed, r),
        (Phase::Accepting, OutcomeView::Connected(p)) => (
            SetupView { phase: after_connect(s, Phase::ReadingName), peer: p, ..s },
            Seq::empty(),
        ),
        (Phase::Accepting, OutcomeView::Failed(r)) => failed(s, SetupErrorKind::AcceptFailed, r),
        (Phase::ReadingName, OutcomeView::LineRead(line)) => (
            SetupView { phase: Phase::Switching, ..s },
            join_events(line),
        ),
        (Phase::ReadingName, OutcomeView::Failed(r)) => failed(
            s,
            SetupErrorKind::HandshakeFailed,
            r,
        ),
        (Phase::Dialing, OutcomeView::Connected(p)) => (
            SetupView { phase: after_connect(s, Phase::SendingName), peer: p, ..s },
            Seq::empty(),
        ),
        (Phase::Dialing, OutcomeView::Failed(r)) => failed(s, SetupErrorKind::DialFailed, r),
        (Phase::SendingName, OutcomeView::Done) => (
            SetupView { phase: Phase::Switching, ..s },
            Seq::empty(),
        ),
        (Phase::SendingName, OutcomeView::Failed(r)) => failed(
            s,
            SetupErrorKind::HandshakeFailed,
            r,
        ),
        (Phase::Switching, OutcomeView::Done) => (
            SetupView { phase: Phase::Ready, ..s },
            seq![EventView::StatusChanged(StateView::Connected(s.peer))],
        ),
        (Phase::Switching, OutcomeView::Failed(r)) => failed(
            s,
            SetupErrorKind::NonblockingFailed,
            r,
        ),
        _ => (s, Seq::empty()),
    }
}

/// The state reached and the events published, as the outcomes `os` arrive in turn.
pub open spec fn run(s: SetupView, os: Seq<OutcomeView>) -> (SetupView, Seq<EventView>)
    decreases os.len(),
{
    if os.len() == 0 {
        (s, Seq::empty())
    } else {
        let before = run(s, os.drop_last());
        let after = next(before.0, os.last());
        (after.0, before.1 + after.1)
    }
}

/// Outcomes `a` and then `b` act as `a + b`.
pub proof fn lemma_run_concat(s: SetupView, a: Seq<OutcomeView>, b: Seq<OutcomeView>)
    ensures
        run(s, a + b) == (run(run(s, a).0, b).0, run(s, a).1 + run(run(s, a).0, b).1),
    decreases b.len(),
{
    if b.len() == 0 {
        assert(a + b =~= a);
        assert(run(s, a).1 + Seq::<EventView>::empty() =~= run(s, a).1);
    } else {
        assert((a + b).drop_last() =~= a + b.drop_last());
        assert((a + b).last() == b.last());
        lemma_run_concat(s, a, b.drop_last());
        let m = run(s, a);
        let r = run(m.0, b.drop_last());
        let n = next(r.0, b.last());
        assert(m.1 + r.1 + n.1 =~= m.1 + (r.1 + n.1));
    }
}

/// Once setup has failed, nothing that arrives changes its state or publishes anything.
pub proof fn lemma_failed_is_final(s: SetupView, os: Seq<OutcomeView>)
    requires
        s.phase == Phase::Failed,
    ensures
        run(s, os) == (s, Seq::<EventView>::empty()),
    decreases os.len(),
{
    if os.len() > 0 {
        lemma_failed_is_final(s, os.drop_last());
        assert(Seq::<EventView>::empty() + Seq::<EventView>::empty() =~= Seq::<EventView>::empty());
    }
}

/// The outcomes of a client's setup where all goes well: the dial, the name line where
/// there is a name, the switch to non-blocking mode.
pub open spec fn client_success(name: Option<Seq<char>>, server_addr: Seq<char>) -> Seq<OutcomeView> {
    if name is Some {
        seq![OutcomeView::Connected(server_addr), OutcomeView::Done, OutcomeView::Done]
    } else {
        seq![OutcomeView::Connected(server_addr), OutcomeView::Done]
    }
}

/// The outcomes of a server's setup where all goes well: the bind, the accept, the
/// client's name line where there is a name, the switch to non-blocking mode.
pub open spec fn server_success(line: Option<Seq<u8>>, client_addr: Seq<char>) -> Seq<OutcomeView> {
    match line {
        Some(l) => seq![
            OutcomeView::Done,
            OutcomeView::Connected(client_addr),
            OutcomeView::LineRead(l),
            OutcomeView::Done,
        ],
        None => seq![OutcomeView::Done, OutcomeView::Connected(client_addr), OutcomeView::Done],
    }
}

/// A client that dials a bound listener, and the server that accepts it, both become ready
/// after at most four outcomes each, and the last event on each side announces the
/// connection to the other. Where the peers exchange names, the server reads the client's
/// name line without its line feed.
pub proof fn lemma_both_sides_connect(
    address: Seq<char>,
    server_name: Option<Seq<char>>,
    client_name: Option<Seq<char>>,
    client_addr: Seq<char>,
)
    requires
        server_name is Some <==> client_name is Some,
    ensures
        ({
            let c = run(start_state(Role::Client, address, client_name), client_success(client_name, address));
            let line = if client_name is Some {
                Some(name_frame(client_name).drop_last())
            } else {
                None
            };
            let s = run(start_state(Role::Server, address, server_name), server_success(line, client_addr));
            &&& client_success(client_name, address).len() <= 4
            &&& server_success(line, client_addr).len() <= 4
            &&& c.0.phase == Phase::Ready
            &&& c.1.last() == EventView::StatusChanged(StateView::Connected(address))
            &&& s.0.phase == Phase::Ready
            &&& s.1.last() == EventView::StatusChanged(StateView::Connected(client_addr))
        }),
{
    let e = Seq::<OutcomeView>::empty();
    let c0 = start_state(Role::Client, address, client_name);
    let s0 = start_state(Role::Server, address, server_name);
    let line = if client_name is Some {
        Some(name_frame(client_name).drop_last())
    } else {
        None
    };
    let dialed = OutcomeView::Connected(address);
    let accepted = OutcomeView::Connected(client_addr);
    lemma_run_push(c0, e, dialed);
    lemma_run_push(s0, e, OutcomeView::Done);
    lemma_run_push(s0, e.push(OutcomeView::Done), accepted);
    if client_name is Some {
        assert(client_success(client_name, address) =~= e.push(dialed).push(OutcomeView::Done).push(
            OutcomeView::Done,
        ));
        lemma_run_push(c0, e.push(dialed), OutcomeView::Done);
        lemma_run_push(c0, e.push(dialed).push(OutcomeView::Done), OutcomeView::Done);
        let l = OutcomeView::LineRead(line->0);
        assert(server_success(line, client_addr) =~= e.push(OutcomeView::Done).push(accepted).push(
            l,
        ).push(OutcomeView::Done));
        lemma_run_push(s0, e.push(OutcomeView::Done).push(accepted), l);
        lemma_run_push(s0, e.push(OutcomeView::Done).push(accepted).push(l), OutcomeView::Done);
    } else {
        assert(client_success(client_name, address) =~= e.push(dialed).push(OutcomeView::Done));
        lemma_run_push(c0, e.push(dialed), OutcomeView::Done);
        assert(server_success(line, client_addr) =~= e.push(OutcomeView::Done).push(accepted).push(
            OutcomeView::Done,
        ));
        lemma_run_push(s0, e.push(OutcomeView::Done).push(accepted), OutcomeView::Done);
    }
}

/// One more outcome after `os`.
pub proof fn lemma_run_push(s: SetupView, os: Seq<OutcomeView>, o: OutcomeView)
    ensures
        run(s, os.push(o)) == (next(run(s, os).0, o).0, run(s, os).1 + next(run(s, os).0, o).1),
{
    assert(os.push(o).drop_last() =~= os);
    assert(run(s, Seq::<OutcomeView>::empty()) == (s, Seq::<EventView>::empty()));
}

/// A client that fails to dial publishes that it is connecting and then exactly one failure
/// of kind `DialFailed`, and nothing more, whatever arrives later: no connection is ever
/// announced.
pub proof fn lemma_dial_failure_is_final(
    address: Seq<char>,
    name: Option<Seq<char>>,
    reason: Seq<char>,
    later: Seq<OutcomeView>,
)
    ensures
        ({
            let s0 = start_state(Role::Client, address, name);
            let r = run(s0, seq![OutcomeView::Failed(reason)] + later);
            &&& r.0.phase == Phase::Failed
            &&& start_events(Role::Client) + r.1 == seq![
                EventView::StatusChanged(StateView::Connecting),
                EventView::StatusChanged(StateView::Failed(SetupErrorKind::DialFailed, reason)),
            ]
        }),
{
    let s0 = start_state(Role::Client, address, name);
    let first = seq![OutcomeView::Failed(reason)];
    lemma_run_concat(s0, first, later);
    assert(first =~= Seq::<OutcomeView>::empty().push(OutcomeView::Failed(reason)));
    lemma_run_push(s0, Seq::<OutcomeView>::empty(), OutcomeView::Failed(reason));
    let f = run(s0, first);
    assert(f.1 =~= seq![
        EventView::StatusChanged(StateView::Failed(SetupErrorKind::DialFailed, reason)),
    ]);
    lemma_failed_is_final(f.0, later);
    assert(f.1 + Seq::<EventView>::empty() =~= f.1);
    assert(start_events(Role::Client) + f.1 =~= seq![
        EventView::StatusChanged(StateView::Connecting),
        EventView::StatusChanged(StateView::Failed(SetupErrorKind::DialFailed, reason)),
    ]);
}

/// With names exchanged, once the server has accepted a client, reading the line that the
/// client writes (without its line feed) publishes first the announcement that the client,
/// by its trimmed name, joined, and then the connection to it.
pub proof fn lemma_join_then_connected(
    address: Seq<char>,
    server_name: Seq<char>,
    client_name: Seq<char>,
    client_addr: Seq<char>,
)
    ensures
        ({
            let c = next(start_state(Role::Client, address, Some(client_name)), OutcomeView::Connected(address)).0;
            let frame = pending_action(c)->WriteLine_0;
            let s = run(
                start_state(Role::Server, address, Some(server_name)),
                seq![OutcomeView::Done, OutcomeView::Connected(client_addr)],
            ).0;
            &&& s.phase == Phase::ReadingName
            &&& run(s, seq![OutcomeView::LineRead(frame.drop_last()), OutcomeView::Done]).1 == seq![
                EventView::DisplayText(join_text(trimmed(client_name))),
                EventView::StatusChanged(StateView::Connected(client_addr)),
            ]
        }),
{
    broadcast use vstd::utf8::encode_utf8_decode_utf8, vstd::utf8::encode_utf8_valid_utf8;
    reveal_with_fuel(run, 3);
    let frame = line_frame(client_name);
    assert(frame.drop_last() =~= encode_utf8(client_name));
    let s = run(
        start_state(Role::Server, address, Some(server_name)),
        seq![OutcomeView::Done, OutcomeView::Connected(client_addr)],
    ).0;
    let os = seq![OutcomeView::LineRead(frame.drop_last()), OutcomeView::Done];
    assert(os.drop_last().drop_last() =~= Seq::<OutcomeView>::empty());
    assert(seq![OutcomeView::Done, OutcomeView::Connected(client_addr)].drop_last().drop_last()
        =~= Seq::<OutcomeView>::empty());
    assert(run(s, os).1 =~= seq![
        EventView::DisplayText(join_text(trimmed(client_name))),
        EventView::StatusChanged(StateView::Connected(client_addr)),
    ]);
}

/// What one decision of setup publishes and asks for.
#[derive(Debug, PartialEq, Eq)]
pub struct SetupStep {
    pub events: Vec<Event>,
    pub action: Action,
}

/// The decisions of connection setup, for either role. The work itself (bind, accept,
/// dial, read, write) is done by the caller, who hands back each outcome.
pub struct Establisher {
    role: Role,
    address: String,
    name: Option<String>,
    phase: Phase,
    peer: String,
}

impl View for Establisher {
    type V = SetupView;

    closed spec fn view(&self) -> SetupView {
        SetupView {
            role: self.role,
            address: self.address@,
            name: opt_view(self.name),
            phase: self.phase,
            peer: self.peer@,
        }
    }
}

impl Establisher {
    /// Begins setup for a role and an address; with a name, the peers exchange it first.
    pub fn start(role: Role, address: String, name: Option<String>) -> (r: (Establisher, SetupStep))
        ensures
            r.0@ == start_state(role, address@, opt_view(name)),
            events_view(r.1.events@) == start_events(role),
            r.1.action@ == pending_action(r.0@),
    {
        let phase = match role {
            Role::Server => Phase::Binding,
            Role::Client => Phase::Dialing,
        };
        let e = Establisher { role, address, name, phase, peer: String::new() };
        let mut events: Vec<Event> = Vec::new();
        match role {
            Role::Server => {},
            Role::Client => {
                events.push(Event::StatusChanged(ConnectionState::Connecting));
            },
        }
        assert(events_view(events@) =~= start_events(role));
        let action = e.action();
        (e, SetupStep { events, action })
    }

    /// The stage reached.
    pub fn phase(&self) -> (r: Phase)
        ensures
            r == self@.phase,
    {
        self.phase
    }

    /// The work that the current stage asks for.
    pub fn action(&self) -> (r: Action)
        ensures
            r@ == pending_action(self@),
    {
        match self.phase {
            Phase::Binding => Action::Bind(self.address.clone()),
            Phase::Accepting => Action::Accept,
            Phase::ReadingName => Action::ReadNameLine,
            Phase::Dialing => Action::Dial(self.address.clone()),
            Phase::SendingName => match &self.name {
                Some(n) => Action::WriteLine(encode_line(n.as_str())),
                None => Action::WriteLine(encode_line(String::new().as_str())),
            },
            Phase::Switching => Action::SetNonblocking,
            Phase::Ready => Action::Finish,
            Phase::Failed => Action::Abandon,
        }
    }

    /// Setup failed at the given stage.
    fn fail(&mut self, kind: SetupErrorKind, reason: String) -> (events: Vec<Event>)
        ensures
            (final(self)@, events_view(events@)) == failed(old(self)@, kind, reason@),
    {
        self.phase = Phase::Failed;
        let mut events: Vec<Event> = Vec::new();
        events.push(Event::StatusChanged(ConnectionState::Failed(SetupError { kind, reason })));
        assert(events_view(events@) =~= failed(old(self)@, kind, reason@).1);
        events
    }

    /// Takes the outcome of the pending work and decides what follows.
    pub fn step(&mut self, outcome: SetupOutcome) -> (r: SetupStep)
        ensures
            (final(self)@, events_view(r.events@)) == next(old(self)@, outcome@),
            r.action@ == pending_action(final(self)@),
    {
        let ghost empty = Seq::<EventView>::empty();
        let mut events: Vec<Event> = Vec::new();
        assert(events_view(events@) =~= empty);
        match (self.phase, outcome) {
            (Phase::Binding, SetupOutcome::Done) => {
                self.phase = Phase::Accepting;
                events.push(Event::StatusChanged(ConnectionState::WaitingForPeer));
                assert(events_view(events@) =~= seq![
                    EventView::StatusChanged(StateView::WaitingForPeer),
                ]);
            },
            (Phase::Binding, SetupOutcome::Failed(r)) => {
                events = self.fail(SetupErrorKind::BindFailed, r);
            },
            (Phase::Accepting, SetupOutcome::Connected(p)) => {
                self.peer = p;
                self.phase = if self.name.is_some() {
                    Phase::ReadingName
                } else {
                    Phase::Switching
                };
            },
            (Phase::Accepting, SetupOutcome::Failed(r)) => {
                events = self.fail(SetupErrorKind::AcceptFailed, r);
            },
            (Phase::ReadingName, SetupOutcome::LineRead(line)) => {
                self.phase = Phase::Switching;
                match decode_trimmed(line.as_slice()) {
                    Some(n) => {
                        let text = String::from_str("User ").concat(n.as_str()).concat(
                            " joined the chat",
                        );
                        events.push(Event::DisplayText(text));
                        assert(events_view(events@) =~= join_events(line@));
                    },
                    None => {},
                }
            },
            (Phase::ReadingName, SetupOutcome::Failed(r)) => {
                events = self.fail(SetupErrorKind::HandshakeFailed, r);
            },
            (Phase::Dialing, SetupOutcome::Connected(p)) => {
                self.peer = p;
                self.phase = if self.name.is_some() {
                    Phase::SendingName
                } else {
                    Phase::Switching
                };
            },
            (Phase::Dialing, SetupOutcome::Failed(r)) => {
                events = self.fail(SetupErrorKind::DialFailed, r);
            },
            (Phase::SendingName, SetupOutcome::Done) => {
                self.phase = Phase::Switching;
            },
            (Phase::SendingName, SetupOutcome::Failed(r)) => {
                events = self.fail(SetupErrorKind::HandshakeFailed, r);
            },
            (Phase::Switching, SetupOutcome::Done) => {
                self.phase = Phase::Ready;
                events.push(Event::StatusChanged(ConnectionState::Connected(self.peer.clone())));
                assert(events_view(events@) =~= seq![
                    EventView::StatusChanged(StateView::Connected(self.peer@)),
                ]);
            },
            (Phase::Switching, SetupOutcome::Failed(r)) => {
                events = self.fail(SetupErrorKind::NonblockingFailed, r);
            },
            _ => {},
        }
        let action = self.action();
        SetupStep { events, action }
    }
}

} // verus!
