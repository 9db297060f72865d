use futures_util::StreamExt;
use tokio_tungstenite::connect_async;
use websocket_provider::endpoint::EndpointConfig;
use websocket_provider::error::TerminationResult;
use websocket_provider::frame::RawFrame;
use websocket_provider::manager::{Action, ConnectionManager, Event, Phase};

fn config(url: String, max_attempts: u32, max_size: usize) -> EndpointConfig {
    EndpointConfig {
        websocket_url: url,
        max_message_size: max_size,
        initial_reconnect_delay_ms: 100,
        max_reconnect_delay_ms: 500,
        max_reconnect_attempts: max_attempts,
    }
}

/// One streaming session against a scripted transport: connect, then feed
/// the frames a mock server would send, then the way the session ended.
/// Returns the payloads delivered in order and the action that ended the
/// session.
fn run_session(mgr: &mut ConnectionManager, frames: Vec<RawFrame>, end: Option<Event>) -> (Vec<Vec<u8>>, Action) {
    let mut delivered = Vec::new();
    let mut action = mgr.step(Event::ConnectSucceeded);
    assert_eq!(action, Action::ReadFrame);
    for frame in frames {
        action = mgr.step(Event::FrameReceived(frame));
        match action {
            Action::DeliverThenRead(ref msg) => delivered.push(msg.bytes.clone()),
            Action::ReadFrame
            | Action::IgnoreThenRead
            | Action::DropOversizeThenRead { .. } => {}
            _ => return (delivered, action),
        }
    }
    if let Some(end_event) = end {
        action = mgr.step(end_event);
    }
    (delivered, action)
}

#[test]
fn test_mock_server_hello_then_explicit_close() {
    // The remote accepts the connection, sends the text frame "hello", then
    // closes explicitly.
    let mut mgr = ConnectionManager::new(config("ws://127.0.0.1:9".to_string(), 0, 1024 * 1024));
    let (delivered, end_action) = run_session(
        &mut mgr,
        vec![RawFrame::Text(b"hello".to_vec()), RawFrame::Close],
        None,
    );

    // One accepted message with the bytes "hello" was delivered, and the
    // explicit close schedules a retry: no clean termination.
    assert_eq!(delivered, vec![b"hello".to_vec()]);
    assert_eq!(
        end_action,
        Action::Sleep {
            delay_ms: 100,
            attempt: 1
        }
    );
    assert_eq!(mgr.phase, Phase::Backoff);
    assert!(mgr.terminal_result().is_none());
}

#[test]
fn test_mock_server_oversize_binary_then_stream_end() {
    // The remote accepts the connection, sends a binary frame of 2000 bytes
    // against a 1000-byte limit, then ends the stream without a close frame.
    let mut mgr = ConnectionManager::new(config("ws://127.0.0.1:9".to_string(), 3, 1000));
    let (delivered, end_action) = run_session(
        &mut mgr,
        vec![RawFrame::Binary(vec![0xAB; 2000])],
        Some(Event::StreamEnded),
    );

    // Zero messages delivered, and the implicit stream end reaches the
    // clean terminal stop with no retry.
    assert_eq!(delivered, Vec::<Vec<u8>>::new());
    assert_eq!(end_action, Action::StopClean);
    assert_eq!(mgr.terminal_result(), Some(TerminationResult::CleanStop));
}

#[test]
fn test_reconnect_exhaustion_against_dead_port() {
    // A real transport against an endpoint nothing listens on: with a
    // budget of 2, exactly 2 retries are slept out, then exhaustion.
    let rt = tokio::runtime::Runtime::new().unwrap();
    rt.block_on(async {
        let cfg = config("ws://127.0.0.1:9999".to_string(), 2, 1024 * 1024);
        assert!(cfg.validate().is_ok());
        let mut mgr = ConnectionManager::new(cfg.clone());
        let mut retries: u32 = 0;
        let mut action = Action::Connect;
        loop {
            action = match action {
                Action::Connect => match connect_async(cfg.websocket_url.as_str()).await {
                    Ok((mut ws, _)) => {
                        // Nothing listens on this port; if something did,
                        // drain the stream so the run still terminates.
                        while let Some(Ok(_)) = ws.next().await {}
                        mgr.step(Event::ConnectSucceeded);
                        mgr.step(Event::ReadFailed)
                    }
                    Err(_) => mgr.step(Event::ConnectFailed),
                },
                Action::Sleep { delay_ms, .. } => {
                    retries += 1;
                    tokio::time::sleep(std::time::Duration::from_millis(delay_ms)).await;
                    mgr.step(Event::SleepFinished)
                }
                Action::StopExhausted(_) | Action::StopClean => break,
                other => panic!("unexpected action {:?}", other),
            };
        }
        assert_eq!(retries, 2);
        assert!(matches!(
            mgr.terminal_result(),
            Some(TerminationResult::Exhausted(_))
        ));
    });
}
