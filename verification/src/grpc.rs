//! The gRPC connection engine's decisions.
//!
//! The engine drives one dial-and-call lifecycle: the method descriptor's
//! two streaming flags pick one of four call shapes, fixed for the
//! connection's lifetime; caller signals feed the relay, the log and the
//! cancellation latch; and every observation the transport makes maps to
//! exactly one recording on the event log. The waiting itself — on the
//! network, on the caller, on the latch — happens outside the library;
//! every decision about what a wait's outcome means happens here.

use vstd::prelude::*;

use crate::cancel::CancelSignal;
use crate::events::ConnectionLog;
use crate::events::RpcFailure;
use crate::events::CODE_CANCELLED;
use crate::events::CODE_OK;
use crate::events::CODE_UNAVAILABLE;
use crate::events::server_contents;
use crate::events::terminal_status_of;
use crate::models::GrpcConnection;
use crate::relay::MessageRelay;

verus! {

/// The four call shapes, decided at connect time by the method
/// descriptor's two streaming flags.
#[derive(Clone, Copy, Debug, PartialEq, Eq, Structural)]
pub enum CallShape {
    Unary,
    ClientStreaming,
    ServerStreaming,
    BidiStreaming,
}

/// The shape the two streaming flags map to.
pub open spec fn shape_of(client_streams: bool, server_streams: bool) -> CallShape {
    if client_streams {
        if server_streams {
            CallShape::BidiStreaming
        } else {
            CallShape::ClientStreaming
        }
    } else {
        if server_streams {
            CallShape::ServerStreaming
        } else {
            CallShape::Unary
        }
    }
}

/// Whether this shape takes its request messages from the caller relay.
pub open spec fn shape_client_streams(s: CallShape) -> bool {
    s == CallShape::ClientStreaming || s == CallShape::BidiStreaming
}

/// Whether this shape reads a stream of response messages.
pub open spec fn shape_server_streams(s: CallShape) -> bool {
    s == CallShape::ServerStreaming || s == CallShape::BidiStreaming
}

/// Decide the call shape from the method descriptor's streaming flags.
pub fn call_shape(client_streams: bool, server_streams: bool) -> (s: CallShape)
    ensures
        s == shape_of(client_streams, server_streams),
        shape_client_streams(s) == client_streams,
        shape_server_streams(s) == server_streams,
{
    if client_streams {
        if server_streams {
            CallShape::BidiStreaming
        } else {
            CallShape::ClientStreaming
        }
    } else {
        if server_streams {
            CallShape::ServerStreaming
        } else {
            CallShape::Unary
        }
    }
}

/// The initial request message of a non-client-streaming call: an empty
/// message text stands for the empty JSON object.
pub fn effective_initial_message(message: &str) -> (r: String)
    ensures
        message@.len() == 0 ==> r@ == "{}"@,
        message@.len() > 0 ==> r@ == message@,
{
    if message.is_empty() {
        String::from_str("{}")
    } else {
        message.to_owned()
    }
}

/// Whether a caller payload parsed against the method's request schema.
pub enum PayloadParse {
    Parsed,
    ParseFailed { message: String },
}

/// One signal from the caller's channel.
pub enum CallerSignal {
    /// A payload message, with the outcome of parsing it.
    Payload { content: String, parse: PayloadParse },
    /// No further client messages will be sent.
    Commit,
    /// Flip the connection's cancellation latch.
    CancelRequested,
}

/// What the driver must do after one caller signal.
#[derive(Clone, Copy, Debug, PartialEq, Eq, Structural)]
pub enum SignalAction {
    /// The payload was queued: forward it into the stream; a
    /// `ClientMessage` event records its raw content.
    ForwardMessage,
    /// The relay refused the payload (committed or full): nothing happens.
    MessageDropped,
    /// The payload did not parse: a `ClientMessage` event records its raw
    /// content and an `Error` event the failure, scoped to this message
    /// only; the connection lives on.
    MessageRejected,
    /// The outbound half is closed.
    OutboundClosed,
    /// The cancellation latch is set.
    CancelSignalled,
}

/// Apply one caller signal to the connection's state. A parsed payload is
/// queued in arrival order and recorded as a `ClientMessage`; a payload
/// that fails to parse still records its raw content as a `ClientMessage`
/// event, followed by an `Error` event scoped to that message — the
/// connection lives on either way; a commit closes the outbound half; a
/// cancel sets the latch. A signal arriving after cancellation is ignored
/// entirely.
pub fn handle_caller_signal(
    log: &mut ConnectionLog,
    relay: &mut MessageRelay,
    cancel: &mut CancelSignal,
    signal: CallerSignal,
) -> (action: Option<SignalAction>)
    requires
        old(log).wf(),
        !old(log).is_terminal(),
        old(relay).wf(),
    ensures
        final(log).wf(),
        !final(log).is_terminal(),
        final(relay).wf(),
        old(cancel).is_set() ==> (action is None && *final(log) == *old(log) && *final(relay)
            == *old(relay) && *final(cancel) == *old(cancel)),
        !old(cancel).is_set() ==> match signal {
            CallerSignal::Payload { content, parse } => {
                &&& *final(cancel) == *old(cancel)
                &&& match parse {
                    PayloadParse::Parsed => {
                        if !old(relay).is_committed() && old(relay).queue_seq().len()
                            < crate::relay::RELAY_CAPACITY {
                            &&& action == Some(SignalAction::ForwardMessage)
                            &&& final(relay).queue_seq() == old(relay).queue_seq().push(
                                content@,
                            )
                            &&& final(log).recorded_one(*old(log))
                            &&& final(log).events_seq().last().event_type
                                == crate::events::GrpcEventType::ClientMessage
                            &&& final(log).events_seq().last().content == content
                        } else {
                            &&& action == Some(SignalAction::MessageDropped)
                            &&& final(relay).queue_seq() == old(relay).queue_seq()
                            &&& *final(log) == *old(log)
                        }
                    },
                    PayloadParse::ParseFailed { message } => {
                        &&& action == Some(SignalAction::MessageRejected)
                        &&& final(relay).queue_seq() == old(relay).queue_seq()
                        &&& final(relay).is_committed() == old(relay).is_committed()
                        &&& final(log).events_seq().len() == old(log).events_seq().len() + 2
                        &&& final(log).events_seq() == old(log).events_seq().push(
                            final(log).events_seq()[old(log).events_seq().len() as int],
                        ).push(final(log).events_seq().last())
                        &&& ({
                            let recorded = final(log).events_seq()[old(
                                log,
                            ).events_seq().len() as int];
                            &&& recorded.event_type
                                == crate::events::GrpcEventType::ClientMessage
                            &&& recorded.content == content
                        })
                        &&& final(log).events_seq().last().event_type
                            == crate::events::GrpcEventType::Error
                        &&& final(log).events_seq().last().content == message
                    },
                }
            },
            CallerSignal::Commit => {
                &&& action == Some(SignalAction::OutboundClosed)
                &&& final(relay).is_committed()
                &&& final(relay).queue_seq() == old(relay).queue_seq()
                &&& *final(log) == *old(log)
                &&& *final(cancel) == *old(cancel)
            },
            CallerSignal::CancelRequested => {
                &&& action == Some(SignalAction::CancelSignalled)
                &&& final(cancel).is_set()
                &&& final(relay).queue_seq() == old(relay).queue_seq()
                &&& final(relay).is_committed() == old(relay).is_committed()
                &&& *final(log) == *old(log)
            },
        },
{
    if cancel.is_cancelled() {
        return None;
    }
    match signal {
        CallerSignal::Payload { content, parse } => {
            match parse {
                PayloadParse::Parsed => {
                    let accepted = relay.offer(content.clone());
                    if accepted {
                        log.record_client_message(content);
                        Some(SignalAction::ForwardMessage)
                    } else {
                        Some(SignalAction::MessageDropped)
                    }
                },
                PayloadParse::ParseFailed { message } => {
                    let ghost pre = log.events_seq();
                    log.record_client_message(content);
                    log.record_message_error(message);
                    proof {
                        assert(log.events_seq() =~= pre.push(
                            log.events_seq()[pre.len() as int],
                        ).push(log.events_seq().last()));
                    }
                    Some(SignalAction::MessageRejected)
                },
            }
        },
        CallerSignal::Commit => {
            relay.commit();
            Some(SignalAction::OutboundClosed)
        },
        CallerSignal::CancelRequested => {
            cancel.signal();
            Some(SignalAction::CancelSignalled)
        },
    }
}

/// One observation the transport makes on the open exchange.
pub enum StreamObservation {
    /// Response metadata arrived (the initial response of any shape).
    ResponseMetadata { metadata: Vec<(String, String)> },
    /// One response message arrived.
    ResponseMessage { content: String },
    /// The response stream closed without an explicit status; the trailers
    /// are what it left behind.
    StreamClosed { trailers: Vec<(String, String)> },
    /// The exchange failed with an explicit status: its code, display text
    /// and metadata.
    StreamErrored { code: i64, display: String, metadata: Vec<(String, String)> },
    /// The dial or the call itself failed.
    CallFailed { failure: RpcFailure },
    /// The cancellation latch won the race.
    Cancelled,
}

/// Whether this observation terminates the connection.
pub open spec fn observation_ends(o: StreamObservation) -> bool {
    match o {
        StreamObservation::ResponseMetadata { .. } => false,
        StreamObservation::ResponseMessage { .. } => false,
        StreamObservation::StreamClosed { .. } => true,
        StreamObservation::StreamErrored { .. } => true,
        StreamObservation::CallFailed { .. } => true,
        StreamObservation::Cancelled => true,
    }
}

/// Map one transport observation to its one recording on the log: metadata
/// to an `Info` event, each message to a `ServerMessage` event in receipt
/// order, and each way of ending to its one terminal event — the
/// status-less close to `CODE_UNAVAILABLE`, an explicit status to its own
/// code, a failed call to the failure's code, cancellation to
/// `CODE_CANCELLED`.
pub fn apply_observation(log: &mut ConnectionLog, observation: StreamObservation)
    requires
        old(log).wf(),
        !old(log).is_terminal(),
    ensures
        final(log).wf(),
        final(log).is_terminal() == observation_ends(observation),
        match observation {
            StreamObservation::ResponseMetadata { metadata } => {
                &&& final(log).recorded_one(*old(log))
                &&& ({
                    let e = final(log).events_seq().last();
                    &&& e.event_type == crate::events::GrpcEventType::Info
                    &&& (metadata@.len() == 0 ==> e.content@ == "Received response"@)
                    &&& (metadata@.len() > 0 ==> e.content@
                        == "Received response with metadata"@)
                    &&& e.metadata == metadata
                })
            },
            StreamObservation::ResponseMessage { content } => {
                &&& final(log).recorded_one(*old(log))
                &&& final(log).events_seq().last().event_type
                    == crate::events::GrpcEventType::ServerMessage
                &&& final(log).events_seq().last().content == content
                &&& server_contents(final(log).events_seq()) == server_contents(
                    old(log).events_seq(),
                ).push(content@)
            },
            StreamObservation::StreamClosed { trailers } => {
                &&& final(log).ended_one(*old(log))
                &&& terminal_status_of(final(log).events_seq()) == CODE_UNAVAILABLE
                &&& ({
                    let e = final(log).events_seq().last();
                    &&& e.content@ == "Connection complete"@
                    &&& e.status == Some(CODE_UNAVAILABLE)
                    &&& e.metadata == trailers
                    &&& e.error is None
                })
            },
            StreamObservation::StreamErrored { code, display, metadata } => {
                &&& final(log).ended_one(*old(log))
                &&& terminal_status_of(final(log).events_seq()) == code
                &&& ({
                    let e = final(log).events_seq().last();
                    &&& e.content == display
                    &&& e.status == Some(code)
                    &&& e.metadata == metadata
                })
            },
            StreamObservation::CallFailed { failure } => {
                &&& final(log).ended_one(*old(log))
                &&& terminal_status_of(final(log).events_seq()) == (match failure.status {
                    Some(st) => st.code,
                    None => crate::events::CODE_UNKNOWN,
                })
                &&& ({
                    let e = final(log).events_seq().last();
                    &&& e.content@ == "Failed to connect"@
                    &&& match failure.status {
                        Some(st) => {
                            &&& e.status == Some(st.code)
                            &&& e.error == Some(st.message)
                            &&& e.metadata == st.metadata
                        },
                        None => {
                            &&& e.status == Some(crate::events::CODE_UNKNOWN)
                            &&& e.error == Some(failure.message)
                            &&& e.metadata@.len() == 0
                        },
                    }
                })
            },
            StreamObservation::Cancelled => {
                &&& final(log).ended_one(*old(log))
                &&& terminal_status_of(final(log).events_seq()) == CODE_CANCELLED
                &&& ({
                    let e = final(log).events_seq().last();
                    &&& e.content@ == "Cancelled"@
                    &&& e.status == Some(CODE_CANCELLED)
                })
                &&& server_contents(final(log).events_seq()) == server_contents(
                    old(log).events_seq(),
                )
            },
        },
{
    match observation {
        StreamObservation::ResponseMetadata { metadata } => log.record_response_info(metadata),
        StreamObservation::ResponseMessage { content } => log.record_server_message(content),
        StreamObservation::StreamClosed { trailers } => log.end_stream_closed(trailers),
        StreamObservation::StreamErrored { code, display, metadata } => log.end_stream_error(
            code,
            display,
            metadata,
        ),
        StreamObservation::CallFailed { failure } => log.end_failed(failure),
        StreamObservation::Cancelled => log.end_cancelled(),
    }
}

/// Terminate a connection whose dial failed before any exchange: the
/// terminal event is recorded and the connection record gets its one
/// terminal update, carrying the failure's message as its error.
pub fn fail_connection(
    log: &mut ConnectionLog,
    conn: GrpcConnection,
    failure: RpcFailure,
    elapsed: i64,
) -> (r: GrpcConnection)
    requires
        old(log).wf(),
        !old(log).is_terminal(),
    ensures
        final(log).wf(),
        final(log).ended_one(*old(log)),
        r.status == terminal_status_of(final(log).events_seq()),
        r.elapsed == elapsed,
        r.error == Some(failure.message),
        r.id == conn.id,
        r.workspace_id == conn.workspace_id,
        r.request_id == conn.request_id,
        r.url == conn.url,
{
    let message = failure.message.clone();
    log.end_failed(failure);
    let finalized = log.finalize_connection(conn, elapsed);
    GrpcConnection { error: Some(message), ..finalized }
}

} // verus!
