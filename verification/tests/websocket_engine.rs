use wolf_system::handler::{ConnectionHandler, SocketAddress};
use wolf_system::message::{MessageBuffer, MessageType, MAX_BUFFER_SIZE};
use wolf_system::outcome::{CloseReason, WsCloseCode};
use wolf_system::websocket::{Frame, WsEngine, WsEvent, WsStep};

/// A handler that stages a fixed reply, or rejects, and counts its calls.
struct WsHandler {
    reply: Option<Vec<u8>>,
    reject_with: Option<String>,
    message_calls: u64,
    last_kind: Option<MessageType>,
}

impl WsHandler {
    fn quiet() -> WsHandler {
        WsHandler { reply: None, reject_with: None, message_calls: 0, last_kind: None }
    }

    fn replying(reply: &[u8]) -> WsHandler {
        WsHandler {
            reply: Some(reply.to_vec()),
            reject_with: None,
            message_calls: 0,
            last_kind: None,
        }
    }
}

impl ConnectionHandler for WsHandler {
    fn on_bind(&mut self, _addr: &SocketAddress) -> Result<(), String> {
        Ok(())
    }

    fn on_accept(&mut self, _addr: &SocketAddress) -> Result<(), String> {
        Ok(())
    }

    fn on_message(
        &mut self,
        _elapsed_ms: u64,
        _peer: &SocketAddress,
        kind: &mut MessageType,
        buf: &mut MessageBuffer,
    ) -> Result<(), String> {
        self.message_calls += 1;
        self.last_kind = Some(*kind);
        if let Some(reason) = &self.reject_with {
            return Err(reason.clone());
        }
        if let Some(reply) = &self.reply {
            assert!(buf.load(reply));
        }
        Ok(())
    }

    fn on_close(&mut self, _addr: &SocketAddress, _reason: &CloseReason) -> Result<(), String> {
        Ok(())
    }

    fn on_close_socket(&mut self, _addr: &SocketAddress) -> Result<(), String> {
        Ok(())
    }
}

fn peer() -> SocketAddress {
    SocketAddress::new("127.0.0.1".to_string(), 8001)
}

#[test]
fn ws_oversized_binary_closes_with_size_code_before_handler() {
    // a binary frame of exactly 1025 bytes: close code Size, handler not run
    let mut engine = WsEngine::new(peer(), 0);
    let mut handler = WsHandler::quiet();
    let step = engine.on_event(
        &mut handler,
        0,
        WsEvent::Frame(Frame::Binary(vec![0u8; MAX_BUFFER_SIZE + 1])),
    );
    assert_eq!(step, WsStep::Close(CloseReason::Oversized(MAX_BUFFER_SIZE + 1)));
    assert_eq!(handler.message_calls, 0);
    assert_eq!(engine.delivered_count(), 0);
    if let WsStep::Close(reason) = step {
        assert_eq!(reason.close_code(), WsCloseCode::Size);
    }
}

#[test]
fn ws_oversized_text_closes_with_size_code_before_handler() {
    let mut engine = WsEngine::new(peer(), 0);
    let mut handler = WsHandler::quiet();
    let step = engine.on_event(
        &mut handler,
        0,
        WsEvent::Frame(Frame::Text(vec![b'a'; 4096])),
    );
    assert_eq!(step, WsStep::Close(CloseReason::Oversized(4096)));
    assert_eq!(handler.message_calls, 0);
}

#[test]
fn ws_text_echo_zero_fills_and_sends_whole_buffer() {
    let mut engine = WsEngine::new(peer(), 0);
    let mut handler = WsHandler::replying(b"ok");
    let step = engine.on_event(&mut handler, 0, WsEvent::Frame(Frame::Text(b"hello".to_vec())));
    assert_eq!(handler.message_calls, 1);
    assert_eq!(handler.last_kind, Some(MessageType::Text));
    match step {
        WsStep::SendText(v) => {
            assert_eq!(v.len(), MAX_BUFFER_SIZE);
            assert_eq!(&v[0..2], b"ok");
            assert!(v[2..].iter().all(|b| *b == 0));
            assert!(std::str::from_utf8(&v).is_ok());
        }
        other => panic!("expected a text frame, got {:?}", other),
    }
}

#[test]
fn ws_text_invalid_handler_output_closes_with_invalid_code() {
    // the handler's output is not valid UTF-8 once the tail is zero-filled
    let mut engine = WsEngine::new(peer(), 0);
    let mut handler = WsHandler::replying(&[0xff, 0xfe, 0xfd]);
    let step = engine.on_event(&mut handler, 0, WsEvent::Frame(Frame::Text(b"hi".to_vec())));
    assert_eq!(step, WsStep::Close(CloseReason::NotUtf8));
    assert_eq!(handler.message_calls, 1);
    if let WsStep::Close(reason) = step {
        assert_eq!(reason.close_code(), WsCloseCode::Invalid);
    }
}

#[test]
fn ws_text_truncated_multibyte_reply_closes_with_invalid_code() {
    // a reply ending in half a scalar becomes invalid after zero-fill
    let mut engine = WsEngine::new(peer(), 0);
    let mut handler = WsHandler::replying(&[b'a', 0xc3]);
    let step = engine.on_event(&mut handler, 0, WsEvent::Frame(Frame::Text(b"hi".to_vec())));
    assert_eq!(step, WsStep::Close(CloseReason::NotUtf8));
}

#[test]
fn ws_binary_full_buffer_echoes_whole_buffer() {
    let mut engine = WsEngine::new(peer(), 0);
    let mut handler = WsHandler::replying(b"reply");
    let payload = vec![9u8; MAX_BUFFER_SIZE];
    let step = engine.on_event(&mut handler, 0, WsEvent::Frame(Frame::Binary(payload)));
    assert_eq!(handler.message_calls, 1);
    assert_eq!(handler.last_kind, Some(MessageType::Binary));
    match step {
        WsStep::SendBinary(v) => {
            assert_eq!(v.len(), MAX_BUFFER_SIZE);
            assert_eq!(&v[0..5], b"reply");
            // the rest of the capacity goes out as the inbound frame left it
            assert!(v[5..].iter().all(|b| *b == 9));
        }
        other => panic!("expected a binary frame, got {:?}", other),
    }
}

#[test]
fn ws_text_at_exact_capacity_is_accepted() {
    // text frames take any length up to the capacity, the capacity included
    let mut engine = WsEngine::new(peer(), 0);
    let mut handler = WsHandler::replying(b"full");
    let payload = vec![b'x'; MAX_BUFFER_SIZE];
    let step = engine.on_event(&mut handler, 0, WsEvent::Frame(Frame::Text(payload)));
    assert_eq!(handler.message_calls, 1);
    match step {
        WsStep::SendText(v) => assert_eq!(&v[0..4], b"full"),
        other => panic!("expected a text frame, got {:?}", other),
    }
}

#[test]
fn ws_binary_one_byte_short_is_delivered() {
    let mut engine = WsEngine::new(peer(), 0);
    let mut handler = WsHandler::quiet();
    let step = engine.on_event(
        &mut handler,
        0,
        WsEvent::Frame(Frame::Binary(vec![3u8; MAX_BUFFER_SIZE - 1])),
    );
    assert_eq!(handler.message_calls, 1);
    assert_eq!(handler.last_kind, Some(MessageType::Binary));
    match step {
        WsStep::SendBinary(v) => assert_eq!(v.len(), MAX_BUFFER_SIZE),
        other => panic!("expected a binary frame, got {:?}", other),
    }
}

#[test]
fn ws_short_binary_is_delivered_like_text() {
    // a binary frame shorter than the capacity is copied over the front of
    // the buffer and handed to the handler like a text frame would be
    let mut engine = WsEngine::new(peer(), 0);
    let mut handler = WsHandler::replying(b"reply");
    let step = engine.on_event(
        &mut handler,
        0,
        WsEvent::Frame(Frame::Binary(vec![1u8; 100])),
    );
    assert_eq!(handler.message_calls, 1);
    assert_eq!(handler.last_kind, Some(MessageType::Binary));
    match step {
        WsStep::SendBinary(v) => {
            assert_eq!(v.len(), MAX_BUFFER_SIZE);
            assert_eq!(&v[0..5], b"reply");
            // the rest of the delivered payload, then untouched buffer tail
            assert!(v[5..100].iter().all(|b| *b == 1));
            assert!(v[100..].iter().all(|b| *b == 0));
        }
        other => panic!("expected a binary frame, got {:?}", other),
    }
}

#[test]
fn ws_empty_message_closes_with_invalid_code() {
    let mut engine = WsEngine::new(peer(), 0);
    let mut handler = WsHandler::quiet();
    let step = engine.on_event(&mut handler, 0, WsEvent::Frame(Frame::Text(Vec::new())));
    assert_eq!(step, WsStep::Close(CloseReason::EmptyMessage));
    if let WsStep::Close(reason) = step {
        assert_eq!(reason.close_code(), WsCloseCode::Invalid);
    }
}

#[test]
fn ws_close_frame_is_a_clean_shutdown() {
    let mut engine = WsEngine::new(peer(), 0);
    let mut handler = WsHandler::quiet();
    let step = engine.on_event(&mut handler, 0, WsEvent::Frame(Frame::Close));
    assert_eq!(step, WsStep::Close(CloseReason::CleanClose));
    assert_eq!(handler.message_calls, 0);
    if let WsStep::Close(reason) = step {
        assert_eq!(reason.close_code(), WsCloseCode::Normal);
    }
}

#[test]
fn ws_control_frame_is_ignored() {
    let mut engine = WsEngine::new(peer(), 0);
    let mut handler = WsHandler::quiet();
    let step = engine.on_event(&mut handler, 0, WsEvent::Frame(Frame::Control));
    assert_eq!(step, WsStep::Continue);
    assert_eq!(handler.message_calls, 0);
}

#[test]
fn ws_timeout_and_failures_close_with_abnormal_code() {
    let mut engine = WsEngine::new(peer(), 2000);
    let mut handler = WsHandler::quiet();
    let step = engine.on_event(&mut handler, 2000, WsEvent::TimedOut);
    assert_eq!(step, WsStep::Close(CloseReason::ReadTimedOut));

    let step = engine.on_event(&mut handler, 0, WsEvent::ReadFailed("gone".to_string()));
    assert_eq!(step, WsStep::Close(CloseReason::ReadError("gone".to_string())));

    let step = engine.on_event(&mut handler, 0, WsEvent::WriteFailed("gone".to_string()));
    assert_eq!(step, WsStep::Close(CloseReason::SendError("gone".to_string())));
    if let WsStep::Close(reason) = step {
        assert_eq!(reason.close_code(), WsCloseCode::Abnormal);
    }
    assert_eq!(handler.message_calls, 0);
}

#[test]
fn ws_handler_rejection_closes_with_normal_code() {
    let mut engine = WsEngine::new(peer(), 0);
    let mut handler = WsHandler::quiet();
    handler.reject_with = Some("done".to_string());
    let step = engine.on_event(&mut handler, 0, WsEvent::Frame(Frame::Text(b"x".to_vec())));
    assert_eq!(
        step,
        WsStep::Close(CloseReason::CallbackRejected("done".to_string()))
    );
    assert_eq!(handler.message_calls, 1);
    if let WsStep::Close(reason) = step {
        assert_eq!(reason.close_code(), WsCloseCode::Normal);
    }
}

#[test]
fn ws_conclude_text_preserves_the_rejection_reason() {
    let mut engine = WsEngine::new(peer(), 0);
    let step = engine.conclude_text_exchange(Err("my own reason".to_string()));
    assert_eq!(
        step,
        WsStep::Close(CloseReason::CallbackRejected("my own reason".to_string()))
    );
}

#[test]
fn ws_conclude_text_on_acceptance_sends_the_zero_filled_buffer() {
    // a fresh engine holds an all-zero buffer, which is valid UTF-8
    let mut engine = WsEngine::new(peer(), 0);
    let step = engine.conclude_text_exchange(Ok(()));
    match step {
        WsStep::SendText(v) => {
            assert_eq!(v.len(), MAX_BUFFER_SIZE);
            assert!(v.iter().all(|b| *b == 0));
        }
        other => panic!("expected a text frame, got {:?}", other),
    }
}

#[test]
fn ws_conclude_binary_maps_each_verdict() {
    let engine = WsEngine::new(peer(), 0);
    let step = engine.conclude_binary_exchange(Err("stop".to_string()));
    assert_eq!(
        step,
        WsStep::Close(CloseReason::CallbackRejected("stop".to_string()))
    );
    let step = engine.conclude_binary_exchange(Ok(()));
    match step {
        WsStep::SendBinary(v) => assert_eq!(v.len(), MAX_BUFFER_SIZE),
        other => panic!("expected a binary frame, got {:?}", other),
    }
}

#[test]
fn ws_malformed_text_closes_with_unsupported_code() {
    let mut engine = WsEngine::new(peer(), 0);
    let mut handler = WsHandler::quiet();
    let step = engine.on_event(&mut handler, 0, WsEvent::MalformedText("bad".to_string()));
    assert_eq!(step, WsStep::Close(CloseReason::MalformedText("bad".to_string())));
    if let WsStep::Close(reason) = step {
        assert_eq!(reason.close_code(), WsCloseCode::Unsupported);
    }
}
