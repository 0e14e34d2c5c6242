use request_engine::cancel::CancelSignal;
use request_engine::events::ConnectionLog;
use request_engine::events::GrpcEventType;
use request_engine::events::RpcFailure;
use request_engine::events::RpcStatus;
use request_engine::grpc::apply_observation;
use request_engine::grpc::call_shape;
use request_engine::grpc::effective_initial_message;
use request_engine::grpc::fail_connection;
use request_engine::grpc::handle_caller_signal;
use request_engine::grpc::CallShape;
use request_engine::grpc::CallerSignal;
use request_engine::grpc::PayloadParse;
use request_engine::grpc::SignalAction;
use request_engine::grpc::StreamObservation;
use request_engine::models::GrpcConnection;
use request_engine::relay::MessageRelay;
use request_engine::relay::RELAY_CAPACITY;

#[test]
fn the_two_flags_pick_the_four_shapes() {
    assert_eq!(call_shape(false, false), CallShape::Unary);
    assert_eq!(call_shape(false, true), CallShape::ServerStreaming);
    assert_eq!(call_shape(true, false), CallShape::ClientStreaming);
    assert_eq!(call_shape(true, true), CallShape::BidiStreaming);
}

#[test]
fn empty_initial_message_becomes_the_empty_object() {
    assert_eq!(effective_initial_message(""), "{}");
    assert_eq!(effective_initial_message("{\"x\":1}"), "{\"x\":1}");
}

#[test]
fn the_log_opens_with_a_connecting_note() {
    let mut log = ConnectionLog::new();
    log.record_start("grpc.example.com:50051", vec![("k".to_string(), "v".to_string())]);
    let events = log.events();
    assert_eq!(events.len(), 1);
    assert_eq!(events[0].event_type, GrpcEventType::ConnectionStart);
    assert_eq!(events[0].content, "Connecting to grpc.example.com:50051");
    assert_eq!(events[0].metadata, vec![("k".to_string(), "v".to_string())]);
}

#[test]
fn clean_completion_ends_with_exactly_one_end_event_and_its_status() {
    let mut log = ConnectionLog::new();
    log.record_start("u", vec![]);
    log.record_client_message("{}".to_string());
    log.record_response_info(vec![]);
    log.record_server_message("{\"ok\":true}".to_string());
    log.end_ok();
    assert!(log.terminal());
    let ends: Vec<_> = log
        .events()
        .iter()
        .filter(|e| e.event_type == GrpcEventType::ConnectionEnd)
        .collect();
    assert_eq!(ends.len(), 1);
    assert_eq!(ends[0].content, "Connection complete");
    assert_eq!(ends[0].status, Some(0));
    assert_eq!(log.terminal_status(), 0);
    let conn = GrpcConnection {
        id: "gc_1".to_string(),
        workspace_id: "wk_1".to_string(),
        request_id: "gr_1".to_string(),
        url: "u".to_string(),
        status: -1,
        elapsed: 0,
        error: None,
    };
    let done = log.finalize_connection(conn, 42);
    assert_eq!(done.status, 0);
    assert_eq!(done.elapsed, 42);
    assert_eq!(done.error, None);
}

#[test]
fn response_info_distinguishes_empty_metadata() {
    let mut log = ConnectionLog::new();
    log.record_response_info(vec![]);
    log.record_response_info(vec![("k".to_string(), "v".to_string())]);
    assert_eq!(log.events()[0].content, "Received response");
    assert_eq!(log.events()[1].content, "Received response with metadata");
}

#[test]
fn three_server_messages_replay_in_receipt_order() {
    let mut log = ConnectionLog::new();
    log.record_start("u", vec![]);
    log.record_server_message("one".to_string());
    log.record_server_message("two".to_string());
    log.record_server_message("three".to_string());
    log.end_stream_closed(vec![]);
    let replayed: Vec<String> = log
        .events()
        .iter()
        .filter(|e| e.event_type == GrpcEventType::ServerMessage)
        .map(|e| e.content.clone())
        .collect();
    assert_eq!(replayed, vec!["one", "two", "three"]);
}

#[test]
fn a_stream_that_closes_without_a_status_ends_unavailable() {
    let mut log = ConnectionLog::new();
    log.record_start("u", vec![]);
    log.end_stream_closed(vec![("trailer".to_string(), "t".to_string())]);
    assert_eq!(log.terminal_status(), 14);
    let last = log.events().last().unwrap();
    assert_eq!(last.content, "Connection complete");
    assert_eq!(last.metadata, vec![("trailer".to_string(), "t".to_string())]);
}

#[test]
fn a_failure_with_a_status_keeps_its_code_and_message() {
    let mut log = ConnectionLog::new();
    log.record_start("u", vec![]);
    log.end_failed(RpcFailure {
        status: Some(RpcStatus {
            code: 5,
            message: "not found".to_string(),
            metadata: vec![],
        }),
        message: "outer".to_string(),
    });
    let last = log.events().last().unwrap();
    assert_eq!(last.content, "Failed to connect");
    assert_eq!(last.status, Some(5));
    assert_eq!(last.error, Some("not found".to_string()));
    assert_eq!(log.terminal_status(), 5);
}

#[test]
fn a_failure_without_a_status_ends_unknown() {
    let mut log = ConnectionLog::new();
    log.end_failed(RpcFailure { status: None, message: "dns exploded".to_string() });
    let last = log.events().last().unwrap();
    assert_eq!(last.status, Some(2));
    assert_eq!(last.error, Some("dns exploded".to_string()));
}

#[test]
fn cancellation_ends_cancelled_with_no_server_side_effects() {
    let mut log = ConnectionLog::new();
    log.record_start("u", vec![]);
    log.record_server_message("before".to_string());
    log.end_cancelled();
    assert_eq!(log.terminal_status(), 1);
    let last = log.events().last().unwrap();
    assert_eq!(last.content, "Cancelled");
    let replayed: Vec<String> = log
        .events()
        .iter()
        .filter(|e| e.event_type == GrpcEventType::ServerMessage)
        .map(|e| e.content.clone())
        .collect();
    assert_eq!(replayed, vec!["before"]);
}

#[test]
fn relay_is_ordered_and_bounded() {
    let mut relay = MessageRelay::new();
    for i in 0..RELAY_CAPACITY {
        assert!(relay.offer(format!("m{}", i)));
    }
    assert!(!relay.offer("overflow".to_string()));
    assert_eq!(relay.len(), RELAY_CAPACITY);
    assert_eq!(relay.take_next(), Some("m0".to_string()));
    assert_eq!(relay.take_next(), Some("m1".to_string()));
}

#[test]
fn a_committed_relay_refuses_new_messages_but_drains_old_ones() {
    let mut relay = MessageRelay::new();
    assert!(relay.offer("queued".to_string()));
    relay.commit();
    assert!(!relay.offer("late".to_string()));
    assert_eq!(relay.take_next(), Some("queued".to_string()));
    assert_eq!(relay.take_next(), None);
}

#[test]
fn committing_with_zero_messages_still_reaches_the_response() {
    let mut log = ConnectionLog::new();
    let mut relay = MessageRelay::new();
    let mut cancel = CancelSignal::new();
    log.record_start("u", vec![]);
    let action = handle_caller_signal(&mut log, &mut relay, &mut cancel, CallerSignal::Commit);
    assert_eq!(action, Some(SignalAction::OutboundClosed));
    assert!(relay.committed());
    assert_eq!(relay.len(), 0);
    assert_eq!(relay.take_next(), None);
    // The empty request stream is valid: the single response still arrives
    // and the connection completes cleanly.
    apply_observation(&mut log, StreamObservation::ResponseMetadata { metadata: vec![] });
    apply_observation(
        &mut log,
        StreamObservation::ResponseMessage { content: "{\"done\":1}".to_string() },
    );
    apply_observation(&mut log, StreamObservation::StreamClosed { trailers: vec![] });
    assert!(log.terminal());
    assert_eq!(
        log.events()
            .iter()
            .filter(|e| e.event_type == GrpcEventType::ClientMessage)
            .count(),
        0
    );
}

#[test]
fn a_parsed_payload_is_forwarded_and_recorded() {
    let mut log = ConnectionLog::new();
    let mut relay = MessageRelay::new();
    let mut cancel = CancelSignal::new();
    let action = handle_caller_signal(
        &mut log,
        &mut relay,
        &mut cancel,
        CallerSignal::Payload { content: "{\"n\":1}".to_string(), parse: PayloadParse::Parsed },
    );
    assert_eq!(action, Some(SignalAction::ForwardMessage));
    assert_eq!(relay.take_next(), Some("{\"n\":1}".to_string()));
    let last = log.events().last().unwrap();
    assert_eq!(last.event_type, GrpcEventType::ClientMessage);
    assert_eq!(last.content, "{\"n\":1}");
}

#[test]
fn a_bad_payload_is_recorded_raw_with_its_error_and_the_connection_lives_on() {
    let mut log = ConnectionLog::new();
    let mut relay = MessageRelay::new();
    let mut cancel = CancelSignal::new();
    let action = handle_caller_signal(
        &mut log,
        &mut relay,
        &mut cancel,
        CallerSignal::Payload {
            content: "not json".to_string(),
            parse: PayloadParse::ParseFailed { message: "expected an object".to_string() },
        },
    );
    assert_eq!(action, Some(SignalAction::MessageRejected));
    assert_eq!(relay.len(), 0);
    assert!(!log.terminal());
    assert_eq!(log.events().len(), 2);
    assert_eq!(log.events()[0].event_type, GrpcEventType::ClientMessage);
    assert_eq!(log.events()[0].content, "not json");
    assert_eq!(log.events()[1].event_type, GrpcEventType::Error);
    assert_eq!(log.events()[1].content, "expected an object");
}

#[test]
fn a_cancel_signal_flips_the_latch_and_later_signals_are_ignored() {
    let mut log = ConnectionLog::new();
    let mut relay = MessageRelay::new();
    let mut cancel = CancelSignal::new();
    let action =
        handle_caller_signal(&mut log, &mut relay, &mut cancel, CallerSignal::CancelRequested);
    assert_eq!(action, Some(SignalAction::CancelSignalled));
    assert!(cancel.is_cancelled());
    let ignored = handle_caller_signal(
        &mut log,
        &mut relay,
        &mut cancel,
        CallerSignal::Payload { content: "late".to_string(), parse: PayloadParse::Parsed },
    );
    assert_eq!(ignored, None);
    assert_eq!(relay.len(), 0);
    assert_eq!(log.events().len(), 0);
}

#[test]
fn a_failed_dial_still_writes_one_terminal_event_and_update() {
    let mut log = ConnectionLog::new();
    log.record_start("u", vec![]);
    let conn = GrpcConnection {
        id: "gc_2".to_string(),
        workspace_id: "wk_1".to_string(),
        request_id: "gr_1".to_string(),
        url: "u".to_string(),
        status: -1,
        elapsed: 0,
        error: None,
    };
    let done = fail_connection(
        &mut log,
        conn,
        RpcFailure { status: None, message: "connect refused".to_string() },
        7,
    );
    assert!(log.terminal());
    assert_eq!(done.status, 2);
    assert_eq!(done.elapsed, 7);
    assert_eq!(done.error, Some("connect refused".to_string()));
    let ends: Vec<_> = log
        .events()
        .iter()
        .filter(|e| e.event_type == GrpcEventType::ConnectionEnd)
        .collect();
    assert_eq!(ends.len(), 1);
}

#[test]
fn the_latch_moves_once_and_stays() {
    let mut c = CancelSignal::new();
    assert!(!c.is_cancelled());
    c.signal();
    assert!(c.is_cancelled());
    c.signal();
    assert!(c.is_cancelled());
}
