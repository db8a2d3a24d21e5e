use duplex_chat::establish::{Action, Establisher, Phase, SetupOutcome, SetupStep};
use duplex_chat::event::{ConnectionState, Event, SetupError, SetupErrorKind};
use duplex_chat::role::Role;

fn status(s: ConnectionState) -> Event {
    Event::StatusChanged(s)
}

fn failed(kind: SetupErrorKind, reason: &str) -> Event {
    status(ConnectionState::Failed(SetupError { kind, reason: reason.to_string() }))
}

fn connected(peer: &str) -> Event {
    status(ConnectionState::Connected(peer.to_string()))
}

fn s(t: &str) -> String {
    t.to_string()
}

#[test]
fn client_and_server_connect() {
    let (mut server, first) = Establisher::start(Role::Server, s("127.0.0.1:9001"), None);
    assert_eq!(first, SetupStep { events: vec![], action: Action::Bind(s("127.0.0.1:9001")) });
    let (mut client, first) = Establisher::start(Role::Client, s("127.0.0.1:9001"), None);
    assert_eq!(
        first,
        SetupStep { events: vec![status(ConnectionState::Connecting)], action: Action::Dial(s("127.0.0.1:9001")) }
    );

    let step = server.step(SetupOutcome::Done);
    assert_eq!(step, SetupStep { events: vec![status(ConnectionState::WaitingForPeer)], action: Action::Accept });
    let step = client.step(SetupOutcome::Connected(s("127.0.0.1:9001")));
    assert_eq!(step, SetupStep { events: vec![], action: Action::SetNonblocking });
    let step = server.step(SetupOutcome::Connected(s("127.0.0.1:50000")));
    assert_eq!(step, SetupStep { events: vec![], action: Action::SetNonblocking });

    let step = client.step(SetupOutcome::Done);
    assert_eq!(step, SetupStep { events: vec![connected("127.0.0.1:9001")], action: Action::Finish });
    let step = server.step(SetupOutcome::Done);
    assert_eq!(step, SetupStep { events: vec![connected("127.0.0.1:50000")], action: Action::Finish });
    assert_eq!(client.phase(), Phase::Ready);
    assert_eq!(server.phase(), Phase::Ready);
}

#[test]
fn dial_failure_is_reported_once() {
    let (mut client, first) = Establisher::start(Role::Client, s("127.0.0.1:9"), Some(s("Alice")));
    assert_eq!(first.events, vec![status(ConnectionState::Connecting)]);
    let step = client.step(SetupOutcome::Failed(s("connection refused")));
    assert_eq!(
        step,
        SetupStep {
            events: vec![failed(SetupErrorKind::DialFailed, "connection refused")],
            action: Action::Abandon
        }
    );
    for later in [SetupOutcome::Done, SetupOutcome::Connected(s("x")), SetupOutcome::Failed(s("y"))] {
        assert_eq!(client.step(later), SetupStep { events: vec![], action: Action::Abandon });
    }
    assert_eq!(client.phase(), Phase::Failed);
}

#[test]
fn handshake_announces_join_then_connected() {
    let (mut client, _) = Establisher::start(Role::Client, s("127.0.0.1:9001"), Some(s("Alice")));
    let step = client.step(SetupOutcome::Connected(s("127.0.0.1:9001")));
    let frame = match step.action {
        Action::WriteLine(bytes) => bytes,
        other => panic!("unexpected {:?}", other),
    };
    assert_eq!(frame, b"Alice\n".to_vec());
    assert_eq!(client.step(SetupOutcome::Done).action, Action::SetNonblocking);
    assert_eq!(client.step(SetupOutcome::Done).events, vec![connected("127.0.0.1:9001")]);

    let (mut server, _) = Establisher::start(Role::Server, s("127.0.0.1:9001"), Some(s("Bob")));
    server.step(SetupOutcome::Done);
    let step = server.step(SetupOutcome::Connected(s("127.0.0.1:40000")));
    assert_eq!(step.action, Action::ReadNameLine);
    let line = frame[..frame.len() - 1].to_vec();
    let step = server.step(SetupOutcome::LineRead(line));
    assert_eq!(
        step,
        SetupStep {
            events: vec![Event::DisplayText(s("User Alice joined the chat"))],
            action: Action::SetNonblocking
        }
    );
    let step = server.step(SetupOutcome::Done);
    assert_eq!(step.events, vec![connected("127.0.0.1:40000")]);
}

#[test]
fn name_line_is_trimmed_and_invalid_one_is_silent() {
    let (mut server, _) = Establisher::start(Role::Server, s("a:1"), Some(s("Bob")));
    server.step(SetupOutcome::Done);
    server.step(SetupOutcome::Connected(s("b:2")));
    let step = server.step(SetupOutcome::LineRead(b"  Carol \r".to_vec()));
    assert_eq!(step.events, vec![Event::DisplayText(s("User Carol joined the chat"))]);

    let (mut server, _) = Establisher::start(Role::Server, s("a:1"), Some(s("Bob")));
    server.step(SetupOutcome::Done);
    server.step(SetupOutcome::Connected(s("b:2")));
    let step = server.step(SetupOutcome::LineRead(vec![0xff]));
    assert_eq!(step, SetupStep { events: vec![], action: Action::SetNonblocking });
}

#[test]
fn bind_failure() {
    let (mut server, _) = Establisher::start(Role::Server, s("127.0.0.1:1"), None);
    let step = server.step(SetupOutcome::Failed(s("address in use")));
    assert_eq!(
        step,
        SetupStep { events: vec![failed(SetupErrorKind::BindFailed, "address in use")], action: Action::Abandon }
    );
}

#[test]
fn accept_failure() {
    let (mut server, _) = Establisher::start(Role::Server, s("127.0.0.1:1"), None);
    server.step(SetupOutcome::Done);
    let step = server.step(SetupOutcome::Failed(s("too many files")));
    assert_eq!(step.events, vec![failed(SetupErrorKind::AcceptFailed, "too many files")]);
}

#[test]
fn handshake_failures() {
    let (mut server, _) = Establisher::start(Role::Server, s("a:1"), Some(s("Bob")));
    server.step(SetupOutcome::Done);
    server.step(SetupOutcome::Connected(s("b:2")));
    let step = server.step(SetupOutcome::Failed(s("reset")));
    assert_eq!(step.events, vec![failed(SetupErrorKind::HandshakeFailed, "reset")]);

    let (mut client, _) = Establisher::start(Role::Client, s("a:1"), Some(s("Alice")));
    client.step(SetupOutcome::Connected(s("a:1")));
    let step = client.step(SetupOutcome::Failed(s("broken pipe")));
    assert_eq!(step.events, vec![failed(SetupErrorKind::HandshakeFailed, "broken pipe")]);
}

#[test]
fn nonblocking_failure() {
    let (mut client, _) = Establisher::start(Role::Client, s("a:1"), None);
    client.step(SetupOutcome::Connected(s("a:1")));
    let step = client.step(SetupOutcome::Failed(s("bad descriptor")));
    assert_eq!(
        step,
        SetupStep {
            events: vec![failed(SetupErrorKind::NonblockingFailed, "bad descriptor")],
            action: Action::Abandon
        }
    );
}

#[test]
fn unexpected_outcome_changes_nothing() {
    let (mut server, _) = Establisher::start(Role::Server, s("a:1"), None);
    let step = server.step(SetupOutcome::Connected(s("b:2")));
    assert_eq!(step, SetupStep { events: vec![], action: Action::Bind(s("a:1")) });
    assert_eq!(server.phase(), Phase::Binding);
    let step = server.step(SetupOutcome::LineRead(b"x".to_vec()));
    assert_eq!(step.action, Action::Bind(s("a:1")));
}

#[test]
fn ready_stays_ready() {
    let (mut client, _) = Establisher::start(Role::Client, s("a:1"), None);
    client.step(SetupOutcome::Connected(s("a:1")));
    client.step(SetupOutcome::Done);
    assert_eq!(client.step(SetupOutcome::Failed(s("late"))), SetupStep { events: vec![], action: Action::Finish });
    assert_eq!(client.action(), Action::Finish);
}
