use websocket_provider::frame::{
    accept, classify, AcceptedMessage, ControlKind, InboundFrame, PayloadKind, RawFrame,
    TerminationKind,
};

#[test]
fn test_classify_text() {
    let f = classify(RawFrame::Text(b"hi".to_vec()));
    assert_eq!(
        f,
        InboundFrame::Payload {
            bytes: b"hi".to_vec(),
            kind: PayloadKind::Text
        }
    );
}

#[test]
fn test_classify_binary() {
    let f = classify(RawFrame::Binary(vec![1, 2, 3]));
    assert_eq!(
        f,
        InboundFrame::Payload {
            bytes: vec![1, 2, 3],
            kind: PayloadKind::Binary
        }
    );
}

#[test]
fn test_classify_controls() {
    assert_eq!(
        classify(RawFrame::Ping(vec![9])),
        InboundFrame::Control(ControlKind::Ping)
    );
    assert_eq!(
        classify(RawFrame::Pong(vec![])),
        InboundFrame::Control(ControlKind::Pong)
    );
    assert_eq!(
        classify(RawFrame::Unrecognized),
        InboundFrame::Control(ControlKind::Other)
    );
}

#[test]
fn test_classify_close_is_explicit_termination() {
    assert_eq!(
        classify(RawFrame::Close),
        InboundFrame::Termination(TerminationKind::Explicit)
    );
}

#[test]
fn test_accept_within_limit() {
    let f = classify(RawFrame::Binary(vec![7u8; 1000]));
    let m = accept(f, 1000).expect("payload at the limit is accepted");
    assert_eq!(
        m,
        AcceptedMessage {
            bytes: vec![7u8; 1000],
            kind: PayloadKind::Binary
        }
    );
}

#[test]
fn test_accept_over_limit() {
    let f = classify(RawFrame::Binary(vec![7u8; 1001]));
    assert!(accept(f, 1000).is_none());
}

#[test]
fn test_accept_ignores_non_payload() {
    assert!(accept(InboundFrame::Control(ControlKind::Ping), 1000).is_none());
    assert!(accept(
        InboundFrame::Termination(TerminationKind::Explicit),
        1000
    )
    .is_none());
}
