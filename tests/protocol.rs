use zagreus_server::inbound::{
    action_for_decoded, decode_fields, decode_frame, handle_user_message, DecodeError, InboundAction,
    InboundEvent, InboundMessage,
};
use zagreus_server::message::TemplateMessage;

fn frame(m: TemplateMessage) -> String {
    m.to_frame().unwrap()
}

#[test]
fn frames_of_each_variant() {
    assert_eq!(
        frame(TemplateMessage::SetText { id: "t1".into(), text: "hi".into() }),
        r#"{"type":"SetText","id":"t1","text":"hi"}"#
    );
    assert_eq!(
        frame(TemplateMessage::AddClass { id: "e".into(), class: "c".into() }),
        r#"{"type":"AddClass","id":"e","class":"c"}"#
    );
    assert_eq!(
        frame(TemplateMessage::RemoveClass { id: "e".into(), class: "c".into() }),
        r#"{"type":"RemoveClass","id":"e","class":"c"}"#
    );
    assert_eq!(
        frame(TemplateMessage::ExecuteAnimation { animation: "fade".into() }),
        r#"{"type":"ExecuteAnimation","animation":"fade"}"#
    );
    assert_eq!(
        frame(TemplateMessage::SetImageSource { id: "img".into(), asset: "a.png".into() }),
        r#"{"type":"SetImageSource","id":"img","asset":"a.png"}"#
    );
    assert_eq!(frame(TemplateMessage::Reload), r#"{"type":"Reload"}"#);
    assert_eq!(
        frame(TemplateMessage::LogError { message: "m".into(), stack: "s".into() }),
        r#"{"type":"LogError","message":"m","stack":"s"}"#
    );
}

#[test]
fn frame_fields_are_escaped() {
    let f = frame(TemplateMessage::SetText { id: "a\"b".into(), text: "line\nnext\\".into() });
    assert_eq!(f, r#"{"type":"SetText","id":"a\"b","text":"line\nnext\\"}"#);
}

#[test]
fn log_error_frame_is_reported_and_keeps_connection() {
    let bytes = br#"{"type":"LogError","message":"boom","stack":"..."}"#.to_vec();
    match handle_user_message(InboundEvent::Frame(bytes)) {
        InboundAction::ReportTemplateError { message, stack } => {
            assert_eq!(message, "boom");
            assert_eq!(stack, "...");
        }
        _ => panic!("expected an error report"),
    }
}

#[test]
fn decode_log_error() {
    match decode_frame(br#"{"type":"LogError","message":"boom","stack":"at x"}"#) {
        Ok(InboundMessage::LogError { message, stack }) => {
            assert_eq!(message, "boom");
            assert_eq!(stack, "at x");
        }
        _ => panic!("expected an error report"),
    }
}

#[test]
fn decode_unknown_type_is_ignored() {
    match decode_frame(br#"{"type":"Ping","x":1}"#) {
        Ok(InboundMessage::Other { kind }) => assert_eq!(kind, "Ping"),
        _ => panic!("expected another kind"),
    }
    assert!(matches!(
        handle_user_message(InboundEvent::Frame(br#"{"type":"Ping"}"#.to_vec())),
        InboundAction::Ignore
    ));
}

#[test]
fn decode_errors() {
    assert!(matches!(decode_frame(b"not json"), Err(DecodeError::NotAnObject)));
    assert!(matches!(decode_frame(b"[1,2]"), Err(DecodeError::NotAnObject)));
    assert!(matches!(decode_frame(b""), Err(DecodeError::NotAnObject)));
    assert!(matches!(decode_frame(br#"{"x":1}"#), Err(DecodeError::MissingType)));
    assert!(matches!(decode_frame(br#"{"type":3}"#), Err(DecodeError::MissingType)));
    assert!(matches!(
        decode_frame(br#"{"type":"LogError","message":"m"}"#),
        Err(DecodeError::MissingField)
    ));
}

#[test]
fn malformed_frame_does_not_disconnect() {
    match handle_user_message(InboundEvent::Frame(b"{oops".to_vec())) {
        InboundAction::ReportMalformed { error } => assert_eq!(error, DecodeError::NotAnObject),
        _ => panic!("expected a malformed report"),
    }
}

#[test]
fn stream_end_and_read_error_disconnect() {
    assert!(matches!(handle_user_message(InboundEvent::Closed), InboundAction::Disconnect));
    assert!(matches!(handle_user_message(InboundEvent::ReadError), InboundAction::Disconnect));
}

#[test]
fn decode_fields_directly() {
    assert!(matches!(decode_fields(None, None, None), Err(DecodeError::NotAnObject)));
    assert!(matches!(decode_fields(Some(None), Some(None), Some(None)), Err(DecodeError::MissingType)));
    let r = decode_fields(
        Some(Some("LogError".to_string())),
        Some(Some("m".to_string())),
        Some(None),
    );
    assert!(matches!(r, Err(DecodeError::MissingField)));
    let r = decode_fields(
        Some(Some("LogError".to_string())),
        Some(Some("m".to_string())),
        Some(Some("s".to_string())),
    );
    assert!(matches!(r, Ok(InboundMessage::LogError { .. })));
    let r = decode_fields(Some(Some("Other".to_string())), None, None);
    assert!(matches!(r, Ok(InboundMessage::Other { .. })));
}

#[test]
fn actions_for_decoded_messages() {
    assert!(matches!(
        action_for_decoded(Ok(InboundMessage::Other { kind: "x".into() })),
        InboundAction::Ignore
    ));
    assert!(matches!(
        action_for_decoded(Err(DecodeError::MissingField)),
        InboundAction::ReportMalformed { error: DecodeError::MissingField }
    ));
    assert!(matches!(
        action_for_decoded(Ok(InboundMessage::LogError { message: "a".into(), stack: "b".into() })),
        InboundAction::ReportTemplateError { .. }
    ));
}

#[test]
fn frame_control_characters_are_escaped() {
    let f = frame(TemplateMessage::ExecuteAnimation { animation: "\u{1}\u{8}\t\r\u{c}\u{1f}/\u{7f}é".into() });
    assert_eq!(f, "{\"type\":\"ExecuteAnimation\",\"animation\":\"\\u0001\\b\\t\\r\\f\\u001f/\u{7f}é\"}");
}
