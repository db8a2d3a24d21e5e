use duplex_chat::event::{ConnectionState, Event, SetupError, SetupErrorKind};
use duplex_chat::screen::{Screen, Tone};

#[test]
fn fresh_screen() {
    let sc = Screen::new();
    assert_eq!(sc.transcript(), "");
    assert_eq!(sc.status(), "Status: Connecting...");
    assert_eq!(sc.tone(), Tone::Busy);
    assert!(!sc.can_send());
}

#[test]
fn connection_enables_sending() {
    let mut sc = Screen::new();
    sc.apply(&Event::StatusChanged(ConnectionState::WaitingForPeer));
    assert_eq!(sc.status(), "Status: Waiting for peer...");
    assert!(!sc.can_send());
    sc.apply(&Event::StatusChanged(ConnectionState::Connected("10.0.0.2:5555".to_string())));
    assert_eq!(sc.status(), "Status: Connected to 10.0.0.2:5555");
    assert_eq!(sc.tone(), Tone::Good);
    assert!(sc.can_send());
    sc.apply(&Event::DisplayText("Other: hi".to_string()));
    assert_eq!(
        sc.transcript(),
        "Status: Waiting for peer...\nStatus: Connected to 10.0.0.2:5555\nOther: hi\n"
    );
}

#[test]
fn read_error_keeps_sending_allowed() {
    let mut sc = Screen::new();
    sc.apply(&Event::StatusChanged(ConnectionState::Connected("p".to_string())));
    sc.apply(&Event::Error("Error reading: reset".to_string()));
    assert_eq!(sc.status(), "Status: Error");
    assert_eq!(sc.tone(), Tone::Bad);
    assert!(sc.can_send());
    assert_eq!(sc.transcript(), "Status: Connected to p\nError reading: reset\n");
}

#[test]
fn setup_failure_is_shown() {
    let mut sc = Screen::new();
    let e = Event::StatusChanged(ConnectionState::Failed(SetupError {
        kind: SetupErrorKind::DialFailed,
        reason: "connection refused".to_string(),
    }));
    assert_eq!(e.transcript_line(), "Status: Connection failed - connection refused\n");
    sc.apply(&e);
    assert_eq!(sc.status(), "Status: Connection failed - connection refused");
    assert_eq!(sc.tone(), Tone::Bad);
    assert!(!sc.can_send());
}

#[test]
fn state_labels() {
    assert_eq!(ConnectionState::Connecting.label(), "Status: Connecting...");
    assert_eq!(ConnectionState::WaitingForPeer.label(), "Status: Waiting for peer...");
    assert_eq!(Event::DisplayText("x".to_string()).transcript_line(), "x\n");
}
