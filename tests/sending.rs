use duplex_chat::event::Event;
use duplex_chat::outbound::{SendOutcome, SendReport, outgoing_frame, send_report};

#[test]
fn empty_text_writes_nothing() {
    assert_eq!(outgoing_frame(""), None);
}

#[test]
fn text_is_framed_as_a_line() {
    assert_eq!(outgoing_frame("hello"), Some(b"hello\n".to_vec()));
    assert_eq!(outgoing_frame(" "), Some(b" \n".to_vec()));
    assert_eq!(outgoing_frame("ü"), Some(vec![0xc3, 0xbc, 0x0a]));
}

#[test]
fn successful_send_echoes_and_clears() {
    let r = send_report("hi".to_string(), SendOutcome::Sent);
    assert_eq!(r, SendReport { notice: Event::DisplayText("Me: hi".to_string()), input: String::new() });
}

#[test]
fn failed_write_keeps_input() {
    let r = send_report("hi".to_string(), SendOutcome::WriteFailed("broken pipe".to_string()));
    assert_eq!(
        r,
        SendReport { notice: Event::Error("Error sending: broken pipe".to_string()), input: "hi".to_string() }
    );
    assert_eq!(outgoing_frame(&r.input), outgoing_frame("hi"));
}

#[test]
fn failed_flush_keeps_input() {
    let r = send_report("hi".to_string(), SendOutcome::FlushFailed("timed out".to_string()));
    assert_eq!(
        r,
        SendReport { notice: Event::Error("Error flushing: timed out".to_string()), input: "hi".to_string() }
    );
}
