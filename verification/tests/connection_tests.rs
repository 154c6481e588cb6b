use muchat::client::Inbound;
use muchat::commands::CommandPayload;
use muchat::connection::{
    ConnectAttempt, ConnectionManager, ConnectionState, ReaderStep, WriterStep,
    CONNECT_TIMEOUT_SECS,
};
use muchat::error::TransportError;
use muchat::queue::QueueError;
use muchat::response::{ChatError, ChatResponse, ServerResponse};

fn envelope(corr_id: Option<&str>, tag: &str) -> ServerResponse {
    ServerResponse {
        corr_id: corr_id.map(|id| id.to_string()),
        resp: ChatResponse::ChatCmdError {
            chat_error: ChatError { error_type: tag.to_string(), store_error: None },
            user: None,
        },
    }
}

fn command(corr_id: Option<&str>, cmd: &str) -> CommandPayload {
    CommandPayload { corr_id: corr_id.map(|id| id.to_string()), cmd: cmd.to_string() }
}

fn connected(capacity: usize) -> ConnectionManager<u32> {
    let mut manager: ConnectionManager<u32> = ConnectionManager::new(capacity);
    assert!(manager.start());
    assert_eq!(manager.on_connect(ConnectAttempt::Established), Ok(()));
    assert_eq!(manager.state(), ConnectionState::Connected);
    manager
}

#[test]
fn connect_budget_is_fifteen_seconds() {
    assert_eq!(CONNECT_TIMEOUT_SECS, 15);
}

#[test]
fn manager_starts_disconnected_then_connects() {
    let mut manager: ConnectionManager<u32> = ConnectionManager::new(4);
    assert_eq!(manager.state(), ConnectionState::Disconnected);
    assert!(manager.start());
    assert_eq!(manager.state(), ConnectionState::Connecting);
    assert!(!manager.start());
    assert_eq!(manager.state(), ConnectionState::Connecting);
    assert_eq!(manager.on_connect(ConnectAttempt::Established), Ok(()));
    assert_eq!(manager.state(), ConnectionState::Connected);
    assert!(!manager.start());
    assert_eq!(manager.state(), ConnectionState::Connected);
}

#[test]
fn failed_attempts_keep_connecting() {
    let mut manager: ConnectionManager<u32> = ConnectionManager::new(4);
    assert!(manager.start());
    assert_eq!(manager.on_connect(ConnectAttempt::TimedOut), Err(TransportError::Timeout));
    assert_eq!(manager.state(), ConnectionState::Connecting);
    assert_eq!(
        manager.on_connect(ConnectAttempt::Refused("connection refused".to_string())),
        Err(TransportError::WebSocket("connection refused".to_string()))
    );
    assert_eq!(manager.state(), ConnectionState::Connecting);
    assert_eq!(manager.on_connect(ConnectAttempt::Established), Ok(()));
    assert_eq!(manager.state(), ConnectionState::Connected);
}

#[test]
fn connect_result_outside_connecting_changes_nothing() {
    let mut manager: ConnectionManager<u32> = ConnectionManager::new(4);
    assert_eq!(manager.on_connect(ConnectAttempt::Established), Ok(()));
    assert_eq!(manager.state(), ConnectionState::Disconnected);
}

#[test]
fn reply_with_the_id_resolves_the_command() {
    let mut manager = connected(4);
    let step = manager.transmit(command(Some("X"), "/u"), 1);
    assert_eq!(
        step,
        WriterStep::Transmit { frame: "{\"corrId\":\"X\",\"cmd\":\"/u\"}".to_string(), released: None }
    );
    assert!(manager.is_pending(&"X".to_string()));
    let reply = envelope(Some("X"), "reply");
    assert_eq!(
        manager.receive(Inbound::Envelope(reply.clone())),
        ReaderStep::Reply { sink: 1, response: reply }
    );
    assert!(!manager.is_pending(&"X".to_string()));
    assert_eq!(manager.dequeue(), Err(QueueError::QueueEmpty));
}

#[test]
fn reply_with_another_or_no_id_does_not_resolve_the_command() {
    let mut manager = connected(4);
    let _ = manager.transmit(command(Some("X"), "/u"), 1);
    assert_eq!(manager.receive(Inbound::Envelope(envelope(Some("Y"), "other"))), ReaderStep::Published);
    assert_eq!(manager.receive(Inbound::Envelope(envelope(None, "event"))), ReaderStep::Published);
    assert_eq!(manager.receive(Inbound::Envelope(envelope(Some("x"), "case"))), ReaderStep::Published);
    assert!(manager.is_pending(&"X".to_string()));
    assert_eq!(manager.dequeue(), Ok(envelope(Some("Y"), "other")));
    assert_eq!(manager.dequeue(), Ok(envelope(None, "event")));
    assert_eq!(manager.dequeue(), Ok(envelope(Some("x"), "case")));
    let reply = envelope(Some("X"), "reply");
    assert_eq!(
        manager.receive(Inbound::Envelope(reply.clone())),
        ReaderStep::Reply { sink: 1, response: reply }
    );
}

#[test]
fn replies_in_reverse_order_resolve_independently() {
    let mut manager = connected(4);
    let _ = manager.transmit(command(Some("1"), "/u"), 100);
    let _ = manager.transmit(command(Some("2"), "/address"), 200);
    let second = envelope(Some("2"), "second");
    let first = envelope(Some("1"), "first");
    assert_eq!(
        manager.receive(Inbound::Envelope(second.clone())),
        ReaderStep::Reply { sink: 200, response: second }
    );
    assert!(manager.is_pending(&"1".to_string()));
    assert_eq!(
        manager.receive(Inbound::Envelope(first.clone())),
        ReaderStep::Reply { sink: 100, response: first }
    );
    assert!(!manager.is_pending(&"1".to_string()));
    assert!(!manager.is_pending(&"2".to_string()));
    assert_eq!(manager.dequeue(), Err(QueueError::QueueEmpty));
}

#[test]
fn second_reply_with_the_same_id_is_an_event() {
    let mut manager = connected(4);
    let _ = manager.transmit(command(Some("1"), "/u"), 100);
    let reply = envelope(Some("1"), "reply");
    assert_eq!(
        manager.receive(Inbound::Envelope(reply.clone())),
        ReaderStep::Reply { sink: 100, response: reply.clone() }
    );
    assert_eq!(manager.receive(Inbound::Envelope(reply.clone())), ReaderStep::Published);
    assert_eq!(manager.dequeue(), Ok(reply));
}

#[test]
fn unmatched_envelope_goes_to_the_event_queue() {
    let mut manager = connected(2);
    let subscription = manager.subscribe();
    let event = envelope(None, "event");
    assert_eq!(manager.receive(Inbound::Envelope(event.clone())), ReaderStep::Published);
    assert_eq!(subscription.try_lock().unwrap().try_recv().ok(), Some(event.clone()));
    assert_eq!(manager.dequeue(), Ok(event));
    assert_eq!(manager.dequeue(), Err(QueueError::QueueEmpty));
}

#[test]
fn events_keep_their_order() {
    let mut manager = connected(3);
    for tag in ["a", "b", "c"] {
        assert_eq!(manager.receive(Inbound::Envelope(envelope(None, tag))), ReaderStep::Published);
    }
    for tag in ["a", "b", "c"] {
        assert_eq!(manager.dequeue(), Ok(envelope(None, tag)));
    }
}

#[test]
fn full_event_queue_hands_the_envelope_back() {
    let mut manager = connected(1);
    assert_eq!(manager.receive(Inbound::Envelope(envelope(None, "a"))), ReaderStep::Published);
    let late = envelope(None, "b");
    assert_eq!(
        manager.receive(Inbound::Envelope(late.clone())),
        ReaderStep::Refused { error: QueueError::QueueFull, response: late.clone() }
    );
    assert_eq!(manager.dequeue(), Ok(envelope(None, "a")));
    assert_eq!(manager.receive(Inbound::Envelope(late.clone())), ReaderStep::Published);
    assert_eq!(manager.dequeue(), Ok(late));
}

#[test]
fn full_event_queue_does_not_stop_replies() {
    let mut manager = connected(0);
    let _ = manager.transmit(command(Some("1"), "/u"), 5);
    let reply = envelope(Some("1"), "reply");
    assert_eq!(
        manager.receive(Inbound::Envelope(reply.clone())),
        ReaderStep::Reply { sink: 5, response: reply }
    );
}

#[test]
fn malformed_frame_is_skipped_and_reading_goes_on() {
    let mut manager = connected(4);
    let _ = manager.transmit(command(Some("1"), "/u"), 5);
    assert_eq!(
        manager.receive(Inbound::Malformed("expected value at line 1".to_string())),
        ReaderStep::Skipped(TransportError::InvalidFormat("expected value at line 1".to_string()))
    );
    assert_eq!(manager.state(), ConnectionState::Connected);
    assert!(manager.is_pending(&"1".to_string()));
    assert_eq!(manager.dequeue(), Err(QueueError::QueueEmpty));
    assert_eq!(manager.receive(Inbound::Envelope(envelope(None, "event"))), ReaderStep::Published);
    let reply = envelope(Some("1"), "reply");
    assert_eq!(
        manager.receive(Inbound::Envelope(reply.clone())),
        ReaderStep::Reply { sink: 5, response: reply }
    );
    assert_eq!(manager.dequeue(), Ok(envelope(None, "event")));
}

#[test]
fn frames_of_other_kinds_are_skipped() {
    let mut manager = connected(4);
    assert_eq!(manager.receive(Inbound::Other), ReaderStep::Skipped(TransportError::GenericError));
    assert_eq!(manager.state(), ConnectionState::Connected);
    assert_eq!(manager.dequeue(), Err(QueueError::QueueEmpty));
}

#[test]
fn close_and_read_failures_are_fatal_to_the_reader() {
    let mut manager = connected(4);
    assert_eq!(manager.receive(Inbound::Close), ReaderStep::Fatal(TransportError::ConnectionClosed));
    assert_eq!(manager.receive(Inbound::End), ReaderStep::Fatal(TransportError::ConnectionClosed));
    assert_eq!(
        manager.receive(Inbound::Failed("broken pipe".to_string())),
        ReaderStep::Fatal(TransportError::WebSocket("broken pipe".to_string()))
    );
}

#[test]
fn transport_failure_leads_back_to_connecting_and_on() {
    let mut manager = connected(4);
    let _ = manager.transmit(command(Some("1"), "/u"), 10);
    let _ = manager.transmit(command(Some("2"), "/u"), 20);
    assert_eq!(manager.receive(Inbound::Envelope(envelope(None, "kept"))), ReaderStep::Published);
    let mut abandoned = manager.on_loop_exit(Err(TransportError::WebSocket("reset".to_string())));
    abandoned.sort();
    assert_eq!(abandoned, vec![("1".to_string(), 10), ("2".to_string(), 20)]);
    assert_eq!(manager.state(), ConnectionState::Failed);
    assert!(!manager.is_pending(&"1".to_string()));
    assert!(manager.reconnect());
    assert_eq!(manager.state(), ConnectionState::Connecting);
    assert_eq!(manager.on_connect(ConnectAttempt::TimedOut), Err(TransportError::Timeout));
    assert_eq!(manager.state(), ConnectionState::Connecting);
    assert_eq!(manager.on_connect(ConnectAttempt::Established), Ok(()));
    assert_eq!(manager.state(), ConnectionState::Connected);
    assert_eq!(manager.dequeue(), Ok(envelope(None, "kept")));
    let step = manager.transmit(command(Some("1"), "/u"), 11);
    assert_eq!(
        step,
        WriterStep::Transmit { frame: "{\"corrId\":\"1\",\"cmd\":\"/u\"}".to_string(), released: None }
    );
}

#[test]
fn orderly_end_goes_through_closing() {
    let mut manager = connected(4);
    assert!(manager.on_loop_exit(Ok(())).is_empty());
    assert_eq!(manager.state(), ConnectionState::Closing);
    assert!(manager.reconnect());
    assert_eq!(manager.state(), ConnectionState::Connecting);

    let mut manager = connected(4);
    assert!(manager.on_loop_exit(Err(TransportError::ConnectionClosed)).is_empty());
    assert_eq!(manager.state(), ConnectionState::Closing);
}

#[test]
fn loop_exit_outside_connected_changes_nothing() {
    let mut manager: ConnectionManager<u32> = ConnectionManager::new(4);
    assert!(manager.on_loop_exit(Err(TransportError::Timeout)).is_empty());
    assert_eq!(manager.state(), ConnectionState::Disconnected);
    assert!(!manager.reconnect());
    assert_eq!(manager.state(), ConnectionState::Disconnected);
    assert!(manager.start());
    assert!(!manager.reconnect());
    assert_eq!(manager.state(), ConnectionState::Connecting);
}

#[test]
fn command_during_outage_comes_back_with_its_sink() {
    let mut manager = connected(4);
    let _ = manager.on_loop_exit(Err(TransportError::WebSocket("reset".to_string())));
    let step = manager.transmit(command(Some("9"), "/u"), 90);
    assert_eq!(step, WriterStep::NotConnected { command: command(Some("9"), "/u"), sink: 90 });
    assert!(!manager.is_pending(&"9".to_string()));
    assert!(manager.reconnect());
    let step = manager.transmit(command(Some("9"), "/u"), 90);
    assert_eq!(step, WriterStep::NotConnected { command: command(Some("9"), "/u"), sink: 90 });
    assert_eq!(manager.on_connect(ConnectAttempt::Established), Ok(()));
    let step = manager.transmit(command(Some("9"), "/u"), 90);
    assert_eq!(
        step,
        WriterStep::Transmit { frame: "{\"corrId\":\"9\",\"cmd\":\"/u\"}".to_string(), released: None }
    );
    assert!(manager.is_pending(&"9".to_string()));
}

#[test]
fn command_before_start_comes_back() {
    let mut manager: ConnectionManager<u32> = ConnectionManager::new(4);
    let step = manager.transmit(command(Some("1"), "/u"), 1);
    assert_eq!(step, WriterStep::NotConnected { command: command(Some("1"), "/u"), sink: 1 });
}

#[test]
fn duplicate_id_displaces_the_older_sink() {
    let mut manager = connected(4);
    let _ = manager.transmit(command(Some("1"), "/u"), 10);
    let step = manager.transmit(command(Some("1"), "/address"), 11);
    assert_eq!(
        step,
        WriterStep::Transmit {
            frame: "{\"corrId\":\"1\",\"cmd\":\"/address\"}".to_string(),
            released: Some(10),
        }
    );
    let reply = envelope(Some("1"), "reply");
    assert_eq!(
        manager.receive(Inbound::Envelope(reply.clone())),
        ReaderStep::Reply { sink: 11, response: reply }
    );
}

#[test]
fn command_without_id_releases_its_sink() {
    let mut manager = connected(4);
    let step = manager.transmit(command(None, "/u"), 10);
    assert_eq!(
        step,
        WriterStep::Transmit { frame: "{\"corrId\":null,\"cmd\":\"/u\"}".to_string(), released: Some(10) }
    );
}

#[test]
fn after_writing_sends_or_ends() {
    assert_eq!(
        ConnectionManager::<u32>::after_writing(Ok("frame".to_string()), Some(3)),
        WriterStep::Transmit { frame: "frame".to_string(), released: Some(3) }
    );
    assert_eq!(
        ConnectionManager::<u32>::after_writing(
            Err(TransportError::InvalidFormat("bad".to_string())),
            None
        ),
        WriterStep::Fatal { error: TransportError::InvalidFormat("bad".to_string()), released: None }
    );
}

#[test]
fn expire_races_with_the_reply() {
    let mut manager = connected(4);
    let _ = manager.transmit(command(Some("1"), "/u"), 10);
    assert!(manager.expire(&"1".to_string()));
    assert!(!manager.expire(&"1".to_string()));
    assert_eq!(manager.receive(Inbound::Envelope(envelope(Some("1"), "late"))), ReaderStep::Published);

    let _ = manager.transmit(command(Some("2"), "/u"), 20);
    let reply = envelope(Some("2"), "reply");
    assert_eq!(
        manager.receive(Inbound::Envelope(reply.clone())),
        ReaderStep::Reply { sink: 20, response: reply }
    );
    assert!(!manager.expire(&"2".to_string()));
}

#[test]
fn shutdown_gives_up_every_sink_and_closes_the_queue() {
    let mut manager = connected(4);
    let _ = manager.transmit(command(Some("1"), "/u"), 10);
    assert_eq!(manager.receive(Inbound::Envelope(envelope(None, "backlog"))), ReaderStep::Published);
    let abandoned = manager.shutdown();
    assert_eq!(abandoned, vec![("1".to_string(), 10)]);
    assert_eq!(manager.state(), ConnectionState::Disconnected);
    let late = envelope(None, "late");
    assert_eq!(
        manager.receive(Inbound::Envelope(late.clone())),
        ReaderStep::Refused { error: QueueError::EnqueueClosed, response: late }
    );
    assert_eq!(manager.dequeue(), Ok(envelope(None, "backlog")));
    assert_eq!(manager.dequeue(), Err(QueueError::QueueClosed));
    assert_eq!(manager.dequeue(), Err(QueueError::DequeueClosed));
    let step = manager.transmit(command(Some("2"), "/u"), 20);
    assert_eq!(step, WriterStep::NotConnected { command: command(Some("2"), "/u"), sink: 20 });
}

#[test]
fn manager_hands_out_the_same_stream_through_every_step() {
    let mut manager: ConnectionManager<u32> = ConnectionManager::new(2);
    let first = manager.subscribe();
    assert!(manager.start());
    assert_eq!(manager.on_connect(ConnectAttempt::Established), Ok(()));
    let _ = manager.transmit(command(Some("1"), "/u"), 1);
    assert_eq!(manager.receive(Inbound::Envelope(envelope(None, "event"))), ReaderStep::Published);
    assert!(std::sync::Arc::ptr_eq(&first, &manager.subscribe()));
    let _ = manager.on_loop_exit(Err(TransportError::Timeout));
    assert!(manager.reconnect());
    let _ = manager.shutdown();
    assert!(std::sync::Arc::ptr_eq(&first, &manager.subscribe()));
    assert_eq!(first.try_lock().unwrap().try_recv().ok(), Some(envelope(None, "event")));
}

#[test]
fn every_command_goes_out_as_its_frame_in_order() {
    let mut manager = connected(4);
    let commands = [
        command(Some("3"), "/u"),
        command(Some("4"), "/address"),
        command(None, "say \"hi\""),
        command(Some("five"), ""),
    ];
    let expected = [
        "{\"corrId\":\"3\",\"cmd\":\"/u\"}",
        "{\"corrId\":\"4\",\"cmd\":\"/address\"}",
        "{\"corrId\":null,\"cmd\":\"say \\\"hi\\\"\"}",
        "{\"corrId\":\"five\",\"cmd\":\"\"}",
    ];
    let mut frames: Vec<String> = Vec::new();
    for (sink, cmd) in commands.into_iter().enumerate() {
        match manager.transmit(cmd, sink as u32) {
            WriterStep::Transmit { frame, .. } => frames.push(frame),
            other => panic!("no frame: {:?}", other),
        }
    }
    assert_eq!(frames, expected);
}
