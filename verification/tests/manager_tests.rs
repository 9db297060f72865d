use websocket_provider::endpoint::EndpointConfig;
use websocket_provider::error::{FailureKind, ProviderError, TerminationResult};
use websocket_provider::frame::{PayloadKind, RawFrame};
use websocket_provider::manager::{Action, ConnectionManager, Event, Phase};

fn config(max_attempts: u32, initial_ms: u64, max_ms: u64, max_size: usize) -> EndpointConfig {
    EndpointConfig {
        websocket_url: "ws://127.0.0.1:9".to_string(),
        max_message_size: max_size,
        initial_reconnect_delay_ms: initial_ms,
        max_reconnect_delay_ms: max_ms,
        max_reconnect_attempts: max_attempts,
    }
}

fn streaming_manager(cfg: EndpointConfig) -> ConnectionManager {
    let mut m = ConnectionManager::new(cfg);
    let a = m.step(Event::ConnectSucceeded);
    assert_eq!(a, Action::ReadFrame);
    m
}

#[test]
fn test_handle_text_message() {
    let mut m = streaming_manager(config(0, 100, 500, 1024 * 1024));
    let a = m.step(Event::FrameReceived(RawFrame::Text(
        b"test message".to_vec(),
    )));
    match a {
        Action::DeliverThenRead(msg) => {
            assert_eq!(msg.bytes, b"test message");
            assert_eq!(msg.kind, PayloadKind::Text);
        }
        other => panic!("expected delivery, got {:?}", other),
    }
    assert_eq!(m.phase, Phase::Streaming);
}

#[test]
fn test_handle_binary_message() {
    let data = vec![1, 2, 3, 4, 5];
    let mut m = streaming_manager(config(0, 100, 500, 1024 * 1024));
    let a = m.step(Event::FrameReceived(RawFrame::Binary(data.clone())));
    match a {
        Action::DeliverThenRead(msg) => {
            assert_eq!(msg.bytes, data);
            assert_eq!(msg.kind, PayloadKind::Binary);
        }
        other => panic!("expected delivery, got {:?}", other),
    }
}

#[test]
fn test_handle_close_message() {
    // An explicit close is a retryable failure, never a clean stop.
    let mut m = streaming_manager(config(0, 100, 500, 1024 * 1024));
    let a = m.step(Event::FrameReceived(RawFrame::Close));
    assert_eq!(
        a,
        Action::Sleep {
            delay_ms: 100,
            attempt: 1
        }
    );
    assert_eq!(m.phase, Phase::Backoff);
    assert!(m.terminal_result().is_none());
}

#[test]
fn test_close_with_exhausted_budget_reports_remote_close() {
    let mut m = ConnectionManager::new(config(1, 100, 500, 1024));
    assert_eq!(m.step(Event::ConnectFailed), Action::Sleep { delay_ms: 100, attempt: 1 });
    assert_eq!(m.step(Event::SleepFinished), Action::Connect);
    assert_eq!(m.step(Event::ConnectSucceeded), Action::ReadFrame);
    let a = m.step(Event::FrameReceived(RawFrame::Close));
    assert_eq!(a, Action::StopExhausted(FailureKind::RemoteClose));
    assert_eq!(
        m.terminal_result(),
        Some(TerminationResult::Exhausted(FailureKind::RemoteClose))
    );
}

#[test]
fn test_implicit_end_is_clean_stop() {
    let mut m = streaming_manager(config(3, 100, 500, 1024));
    let a = m.step(Event::StreamEnded);
    assert_eq!(a, Action::StopClean);
    assert_eq!(m.phase, Phase::DoneSuccess);
    assert_eq!(m.terminal_result(), Some(TerminationResult::CleanStop));
}

#[test]
fn test_implicit_end_clean_even_after_failures() {
    // The attempt counter is irrelevant to the clean stop.
    let mut m = ConnectionManager::new(config(5, 100, 500, 1024));
    assert_eq!(m.step(Event::ConnectFailed), Action::Sleep { delay_ms: 100, attempt: 1 });
    assert_eq!(m.step(Event::SleepFinished), Action::Connect);
    assert_eq!(m.step(Event::ConnectSucceeded), Action::ReadFrame);
    assert_eq!(m.step(Event::StreamEnded), Action::StopClean);
    assert_eq!(m.terminal_result(), Some(TerminationResult::CleanStop));
}

#[test]
fn test_oversize_payload_dropped() {
    let mut m = streaming_manager(config(0, 100, 500, 1000));
    let a = m.step(Event::FrameReceived(RawFrame::Binary(vec![0u8; 2000])));
    assert_eq!(a, Action::DropOversizeThenRead { size: 2000 });
    assert_eq!(m.phase, Phase::Streaming);

    // A payload exactly at the limit is delivered unchanged.
    let a = m.step(Event::FrameReceived(RawFrame::Binary(vec![9u8; 1000])));
    match a {
        Action::DeliverThenRead(msg) => assert_eq!(msg.bytes, vec![9u8; 1000]),
        other => panic!("expected delivery, got {:?}", other),
    }
}

#[test]
fn test_control_frames_ignored() {
    let mut m = streaming_manager(config(0, 100, 500, 1024));
    assert_eq!(
        m.step(Event::FrameReceived(RawFrame::Ping(vec![1]))),
        Action::IgnoreThenRead
    );
    assert_eq!(
        m.step(Event::FrameReceived(RawFrame::Pong(vec![]))),
        Action::IgnoreThenRead
    );
    assert_eq!(
        m.step(Event::FrameReceived(RawFrame::Unrecognized)),
        Action::IgnoreThenRead
    );
    assert_eq!(m.phase, Phase::Streaming);
}

#[test]
fn test_delivery_preserves_order() {
    let mut m = streaming_manager(config(0, 100, 500, 1024));
    let mut delivered: Vec<Vec<u8>> = Vec::new();
    for payload in [b"one".to_vec(), b"two".to_vec(), b"three".to_vec()] {
        if let Action::DeliverThenRead(msg) = m.step(Event::FrameReceived(RawFrame::Text(payload)))
        {
            delivered.push(msg.bytes);
        }
    }
    assert_eq!(delivered, vec![b"one".to_vec(), b"two".to_vec(), b"three".to_vec()]);
}

#[test]
fn test_exactly_n_retries_then_exhausted() {
    // With a budget of 2, exactly 2 retries are scheduled; the third
    // consecutive failure reports exhaustion.
    let mut m = ConnectionManager::new(config(2, 100, 500, 1024));
    let mut sleeps = 0;
    let mut action = m.step(Event::ConnectFailed);
    loop {
        match action {
            Action::Sleep { attempt, .. } => {
                sleeps += 1;
                assert_eq!(attempt, sleeps);
                assert_eq!(m.step(Event::SleepFinished), Action::Connect);
                action = m.step(Event::ConnectFailed);
            }
            Action::StopExhausted(kind) => {
                assert_eq!(kind, FailureKind::ConnectFailed);
                break;
            }
            other => panic!("unexpected action {:?}", other),
        }
    }
    assert_eq!(sleeps, 2);
    assert_eq!(
        m.terminal_result(),
        Some(TerminationResult::Exhausted(FailureKind::ConnectFailed))
    );
}

#[test]
fn test_unbounded_budget_never_exhausts() {
    let mut m = ConnectionManager::new(config(0, 100, 500, 1024));
    for _ in 0..1000 {
        match m.step(Event::ConnectFailed) {
            Action::Sleep { .. } => {}
            other => panic!("unexpected action {:?}", other),
        }
        assert_eq!(m.step(Event::SleepFinished), Action::Connect);
    }
    assert!(m.terminal_result().is_none());
}

#[test]
fn test_backoff_doubles_and_caps() {
    // initial 100 ms, cap 500 ms: delays go 100, 200, 400, 500, 500, ...
    let mut m = ConnectionManager::new(config(0, 100, 500, 1024));
    let mut delays = Vec::new();
    for _ in 0..5 {
        match m.step(Event::ConnectFailed) {
            Action::Sleep { delay_ms, .. } => delays.push(delay_ms),
            other => panic!("unexpected action {:?}", other),
        }
        assert_eq!(m.step(Event::SleepFinished), Action::Connect);
    }
    assert_eq!(delays, vec![100, 200, 400, 500, 500]);
}

#[test]
fn test_backoff_closed_form_samples() {
    // min(initial * 2^n, max) at a boundary where the cap engages exactly.
    let mut m = ConnectionManager::new(config(0, 125, 1000, 1024));
    let mut delays = Vec::new();
    for _ in 0..5 {
        match m.step(Event::ConnectFailed) {
            Action::Sleep { delay_ms, .. } => delays.push(delay_ms),
            other => panic!("unexpected action {:?}", other),
        }
        assert_eq!(m.step(Event::SleepFinished), Action::Connect);
    }
    assert_eq!(delays, vec![125, 250, 500, 1000, 1000]);
}

#[test]
fn test_read_error_exhaustion_reports_transport_error() {
    let mut m = ConnectionManager::new(config(1, 100, 500, 1024));
    assert_eq!(m.step(Event::ConnectFailed), Action::Sleep { delay_ms: 100, attempt: 1 });
    assert_eq!(m.step(Event::SleepFinished), Action::Connect);
    assert_eq!(m.step(Event::ConnectSucceeded), Action::ReadFrame);
    assert_eq!(
        m.step(Event::ReadFailed),
        Action::StopExhausted(FailureKind::TransportError)
    );
    assert_eq!(
        m.terminal_result(),
        Some(TerminationResult::Exhausted(FailureKind::TransportError))
    );
}

#[test]
fn test_termination_to_provider_error() {
    assert_eq!(TerminationResult::CleanStop.to_provider_error(), None);
    assert_eq!(
        TerminationResult::Exhausted(FailureKind::RemoteClose).to_provider_error(),
        Some(ProviderError::AttemptsExhausted(FailureKind::RemoteClose))
    );
}

#[test]
fn test_read_error_is_retryable() {
    let mut m = streaming_manager(config(0, 100, 500, 1024));
    let a = m.step(Event::ReadFailed);
    assert_eq!(
        a,
        Action::Sleep {
            delay_ms: 100,
            attempt: 1
        }
    );
    assert_eq!(m.phase, Phase::Backoff);
}
