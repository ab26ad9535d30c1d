use chat_session::protocol::{decode, encode, encode_disconnect_notice, DecodeError, Envelope};

#[test]
fn decodes_message() {
    match decode(r#"{"type":"Message","data":{"author":"alice","content":"hi"}}"#) {
        Ok(Envelope::Message(m)) => {
            assert_eq!(m.author, "alice");
            assert_eq!(m.content, "hi");
        }
        other => panic!("unexpected {:?}", other),
    }
}

#[test]
fn decodes_session_with_optional_fields() {
    let text = r#"{"data":{"id":"7","username":"bob","discriminator":"0001","global_name":"Bobby","avatar":null,"accent_color":255,"banner":"x"},"type":"Session"}"#;
    match decode(text) {
        Ok(Envelope::Session(u)) => {
            assert_eq!(u.id, "7");
            assert_eq!(u.username, "bob");
            assert_eq!(u.discriminator, "0001");
            assert_eq!(u.global_name, Some("Bobby".to_string()));
            assert_eq!(u.avatar, None);
            assert_eq!(u.accent_color, Some(255));
        }
        other => panic!("unexpected {:?}", other),
    }
}

#[test]
fn decodes_session_without_optional_fields() {
    let text = r#"{"type":"Session","data":{"id":"1","username":"a","discriminator":"0"}}"#;
    match decode(text) {
        Ok(Envelope::Session(u)) => {
            assert_eq!(u.global_name, None);
            assert_eq!(u.avatar, None);
            assert_eq!(u.accent_color, None);
        }
        other => panic!("unexpected {:?}", other),
    }
}

#[test]
fn decodes_connected_users() {
    let text = r#"{"type":"ConnectedUsers","data":{"1":{"id":"1","username":"a","discriminator":"0"},"2":{"id":"2","username":"b","discriminator":"0","accent_color":-5}}}"#;
    match decode(text) {
        Ok(Envelope::ConnectedUsers(r)) => {
            assert_eq!(r.len(), 2);
            assert_eq!(r[0].0, "1");
            assert_eq!(r[0].1.username, "a");
            assert_eq!(r[1].0, "2");
            assert_eq!(r[1].1.accent_color, Some(-5));
        }
        other => panic!("unexpected {:?}", other),
    }
}

#[test]
fn decodes_empty_roster() {
    match decode(r#"{"type":"ConnectedUsers","data":{}}"#) {
        Ok(Envelope::ConnectedUsers(r)) => assert!(r.is_empty()),
        other => panic!("unexpected {:?}", other),
    }
}

#[test]
fn decodes_disconnect() {
    match decode(r#"{"type":"Disconnect","data":"bye"}"#) {
        Ok(Envelope::Disconnect(s)) => assert_eq!(s, "bye"),
        other => panic!("unexpected {:?}", other),
    }
}

#[test]
fn malformed_text_is_malformed() {
    for text in ["", "not json", "{\"type\":", "[1,2]", "\"Message\"", "null"] {
        assert!(matches!(decode(text), Err(DecodeError::Malformed)), "{}", text);
    }
}

#[test]
fn missing_or_wrong_payload_is_malformed() {
    let cases = [
        r#"{"type":"Message"}"#,
        r#"{"data":{"author":"a","content":"b"}}"#,
        r#"{"type":5,"data":"x"}"#,
        r#"{"type":"Message","data":{"author":1,"content":"b"}}"#,
        r#"{"type":"Message","data":{"author":"a"}}"#,
        r#"{"type":"Disconnect","data":3}"#,
        r#"{"type":"Session","data":{"id":"1","username":"a"}}"#,
        r#"{"type":"Session","data":{"id":"1","username":"a","discriminator":"0","avatar":7}}"#,
        r#"{"type":"Session","data":{"id":"1","username":"a","discriminator":"0","accent_color":4294967296}}"#,
        r#"{"type":"Session","data":{"id":"1","username":"a","discriminator":"0","accent_color":1.5}}"#,
        r#"{"type":"ConnectedUsers","data":{"1":{"id":"1"}}}"#,
        r#"{"type":"ConnectedUsers","data":[]}"#,
    ];
    for text in cases {
        assert!(matches!(decode(text), Err(DecodeError::Malformed)), "{}", text);
    }
}

#[test]
fn unknown_tag_is_unknown_variant() {
    let cases = [
        r#"{"type":"Kick","data":"x"}"#,
        r#"{"type":"message","data":{"author":"a","content":"b"}}"#,
        r#"{"type":""}"#,
    ];
    for text in cases {
        assert!(matches!(decode(text), Err(DecodeError::UnknownVariant)), "{}", text);
    }
}

#[test]
fn outgoing_text_is_not_wrapped() {
    assert_eq!(encode("hello {\"x\"}"), "hello {\"x\"}");
    assert_eq!(encode(""), "");
}

#[test]
fn disconnect_notice_text() {
    assert_eq!(
        encode_disconnect_notice(),
        r#"{"type":"Disconnect","data":"User disconnection"}"#
    );
}

#[test]
fn disconnect_notice_decodes_back() {
    match decode(&encode_disconnect_notice()) {
        Ok(Envelope::Disconnect(s)) => assert_eq!(s, "User disconnection"),
        other => panic!("unexpected {:?}", other),
    }
}

#[test]
fn message_round_trip() {
    let text = format!(
        "{{\"type\":\"Message\",\"data\":{{\"author\":{},\"content\":{}}}}}",
        "\"a\\\"b\"", "\"line\\nnext\""
    );
    match decode(&text) {
        Ok(Envelope::Message(m)) => {
            assert_eq!(m.author, "a\"b");
            assert_eq!(m.content, "line\nnext");
        }
        other => panic!("unexpected {:?}", other),
    }
}
