use chat_session::protocol::{DecodeError, Envelope};
use chat_session::reader::{
    event_name, read_step, Frame, LoginAction, LoginFlow, LoginInput, ReadStep,
};

#[test]
fn message_frame_emits_message_event() {
    let text = r#"{"type":"Message","data":{"author":"alice","content":"hi"}}"#;
    match read_step(Frame::Data(text.to_string())) {
        ReadStep::Emit(e) => {
            assert_eq!(event_name(&e), "message");
            match e {
                Envelope::Message(m) => {
                    assert_eq!(m.author, "alice");
                    assert_eq!(m.content, "hi");
                }
                other => panic!("unexpected {:?}", other),
            }
        }
        other => panic!("unexpected {:?}", other),
    }
}

#[test]
fn ping_frame_is_skipped() {
    assert!(matches!(read_step(Frame::Ping), ReadStep::Skip));
}

#[test]
fn close_frame_stops() {
    assert!(matches!(read_step(Frame::Close), ReadStep::Stop));
}

#[test]
fn bad_frames_are_dropped() {
    assert!(matches!(
        read_step(Frame::Data("garbage".to_string())),
        ReadStep::Drop(DecodeError::Malformed)
    ));
    assert!(matches!(
        read_step(Frame::Data(r#"{"type":"Other","data":1}"#.to_string())),
        ReadStep::Drop(DecodeError::UnknownVariant)
    ));
}

#[test]
fn event_names() {
    let s = read_step(Frame::Data(
        r#"{"type":"Session","data":{"id":"1","username":"a","discriminator":"0"}}"#.to_string(),
    ));
    match s {
        ReadStep::Emit(e) => assert_eq!(event_name(&e), "session"),
        other => panic!("unexpected {:?}", other),
    }
    match read_step(Frame::Data(r#"{"type":"ConnectedUsers","data":{}}"#.to_string())) {
        ReadStep::Emit(e) => assert_eq!(event_name(&e), "connected_users"),
        other => panic!("unexpected {:?}", other),
    }
    match read_step(Frame::Data(r#"{"type":"Disconnect","data":"x"}"#.to_string())) {
        ReadStep::Emit(e) => assert_eq!(event_name(&e), "disconnected"),
        other => panic!("unexpected {:?}", other),
    }
}

#[test]
fn login_flow_two_frames() {
    let mut flow = LoginFlow::new();
    assert!(!flow.is_complete());
    match flow.step(LoginInput::Frame("https://example.com/login".to_string())) {
        LoginAction::OpenUrl(u) => assert_eq!(u, "https://example.com/login"),
        other => panic!("unexpected {:?}", other),
    }
    assert!(!flow.is_complete());
    match flow.step(LoginInput::Frame("{...session...}".to_string())) {
        LoginAction::Session(s) => assert_eq!(s, "{...session...}"),
        other => panic!("unexpected {:?}", other),
    }
    assert!(flow.is_complete());
    assert!(matches!(flow.step(LoginInput::Frame("more".to_string())), LoginAction::Stop));
}

#[test]
fn login_flow_read_error_ends_without_session() {
    let mut flow = LoginFlow::new();
    assert!(matches!(
        flow.step(LoginInput::Frame("https://example.com/login".to_string())),
        LoginAction::OpenUrl(_)
    ));
    assert!(matches!(flow.step(LoginInput::ReadFailed), LoginAction::Stop));
    assert!(flow.is_complete());
}

#[test]
fn login_flow_socket_end() {
    let mut flow = LoginFlow::new();
    assert!(matches!(flow.step(LoginInput::Ended), LoginAction::Stop));
    assert!(flow.is_complete());
}
