//! The per-connection event log.
//!
//! Everything that happens on one gRPC connection is recorded as an ordered,
//! append-only sequence of events. The log owns the terminal rule of the
//! connection: exactly one `ConnectionEnd` event exists once the connection
//! is terminal — never zero, never more than one — and the connection's
//! terminal status is read back from that event, falling back to
//! `CODE_UNAVAILABLE` when none is found.

use vstd::prelude::*;

use crate::models::GrpcConnection;

verus! {

/// The gRPC status code of a clean completion.
pub const CODE_OK: i64 = 0;

/// The gRPC status code of a cancelled call.
pub const CODE_CANCELLED: i64 = 1;

/// The gRPC status code used when an error carries no status of its own.
pub const CODE_UNKNOWN: i64 = 2;

/// The gRPC status code a server-streaming call ends with when its stream
/// closes without an explicit status, and the fallback when no terminal
/// event is found.
pub const CODE_UNAVAILABLE: i64 = 14;

/// The kind of one timestamped occurrence within a connection.
#[derive(Clone, Copy, Debug, PartialEq, Eq, Structural)]
pub enum GrpcEventType {
    ConnectionStart,
    ClientMessage,
    ServerMessage,
    Info,
    Error,
    ConnectionEnd,
}

/// One occurrence within a connection: its kind, a human-readable or
/// payload content, the metadata map that arrived with it, and — for the
/// terminal event — the status code and error message.
pub struct GrpcEvent {
    pub event_type: GrpcEventType,
    pub content: String,
    pub metadata: Vec<(String, String)>,
    pub status: Option<i64>,
    pub error: Option<String>,
}

/// Whether an event terminates its connection.
pub open spec fn is_end(e: GrpcEvent) -> bool {
    e.event_type == GrpcEventType::ConnectionEnd
}

/// How many terminal events a log holds.
pub open spec fn end_count(s: Seq<GrpcEvent>) -> int
    decreases s.len(),
{
    if s.len() == 0 {
        0
    } else {
        end_count(s.drop_last()) + if is_end(s.last()) {
            1int
        } else {
            0int
        }
    }
}

/// The server-message contents of a log, in receipt order: what a replay
/// exposes.
pub open spec fn server_contents(s: Seq<GrpcEvent>) -> Seq<Seq<char>>
    decreases s.len(),
{
    if s.len() == 0 {
        Seq::empty()
    } else {
        let rest = server_contents(s.drop_last());
        if s.last().event_type == GrpcEventType::ServerMessage {
            rest.push(s.last().content@)
        } else {
            rest
        }
    }
}

/// The status read back from the most recent terminal event, or
/// `CODE_UNAVAILABLE` when none is found or the event carries no status.
pub open spec fn terminal_status_of(s: Seq<GrpcEvent>) -> i64
    decreases s.len(),
{
    if s.len() == 0 {
        CODE_UNAVAILABLE
    } else if is_end(s.last()) {
        match s.last().status {
            Some(c) => c,
            None => CODE_UNAVAILABLE,
        }
    } else {
        terminal_status_of(s.drop_last())
    }
}

/// Appending one event changes the terminal count by one exactly when the
/// event is terminal.
pub proof fn lemma_end_count_push(s: Seq<GrpcEvent>, e: GrpcEvent)
    ensures
        end_count(s.push(e)) == end_count(s) + if is_end(e) {
            1int
        } else {
            0int
        },
{
    assert(s.push(e).drop_last() =~= s);
}

/// Replay preserves receipt order: appending a server message appends its
/// content to what a replay exposes, and appending any other event leaves
/// the replay unchanged.
pub proof fn lemma_server_contents_push(s: Seq<GrpcEvent>, e: GrpcEvent)
    ensures
        e.event_type == GrpcEventType::ServerMessage ==> server_contents(s.push(e))
            == server_contents(s).push(e.content@),
        e.event_type != GrpcEventType::ServerMessage ==> server_contents(s.push(e))
            == server_contents(s),
{
    assert(s.push(e).drop_last() =~= s);
}

/// A connection that receives messages before its terminal event exposes
/// them, on replay, in receipt order with identical content: recording
/// three messages in a row appends exactly their three contents, in that
/// order, to what a replay shows.
pub proof fn lemma_replay_three_in_order(
    s: Seq<GrpcEvent>,
    e1: GrpcEvent,
    e2: GrpcEvent,
    e3: GrpcEvent,
)
    requires
        e1.event_type == GrpcEventType::ServerMessage,
        e2.event_type == GrpcEventType::ServerMessage,
        e3.event_type == GrpcEventType::ServerMessage,
    ensures
        server_contents(s.push(e1).push(e2).push(e3)) == server_contents(s).push(
            e1.content@,
        ).push(e2.content@).push(e3.content@),
{
    lemma_server_contents_push(s, e1);
    lemma_server_contents_push(s.push(e1), e2);
    lemma_server_contents_push(s.push(e1).push(e2), e3);
}

proof fn lemma_end_count_nonneg(s: Seq<GrpcEvent>)
    ensures
        end_count(s) >= 0,
    decreases s.len(),
{
    if s.len() > 0 {
        lemma_end_count_nonneg(s.drop_last());
    }
}

proof fn lemma_end_count_at_least_one(s: Seq<GrpcEvent>, i: int)
    requires
        0 <= i < s.len(),
        is_end(s[i]),
    ensures
        end_count(s) >= 1,
    decreases s.len(),
{
    if i < s.len() - 1 {
        assert(s.drop_last()[i] == s[i]);
        lemma_end_count_at_least_one(s.drop_last(), i);
    } else {
        lemma_end_count_nonneg(s.drop_last());
    }
}

proof fn lemma_end_count_at_least_two(s: Seq<GrpcEvent>, i: int, j: int)
    requires
        0 <= i < j < s.len(),
        is_end(s[i]),
        is_end(s[j]),
    ensures
        end_count(s) >= 2,
    decreases s.len(),
{
    if j == s.len() - 1 {
        assert(s.drop_last()[i] == s[i]);
        lemma_end_count_at_least_one(s.drop_last(), i);
    } else {
        assert(s.drop_last()[i] == s[i]);
        assert(s.drop_last()[j] == s[j]);
        lemma_end_count_at_least_two(s.drop_last(), i, j);
    }
}

/// The append-only event log of one connection, with its terminal rule.
pub struct ConnectionLog {
    events: Vec<GrpcEvent>,
    terminal: bool,
}

impl ConnectionLog {
    /// The recorded events, in creation order.
    pub closed spec fn events_seq(&self) -> Seq<GrpcEvent> {
        self.events@
    }

    /// Whether a terminal event has been recorded.
    pub closed spec fn is_terminal(&self) -> bool {
        self.terminal
    }

    /// The terminal rule: a terminal log holds exactly one `ConnectionEnd`,
    /// as its last event; a live log holds none.
    pub open spec fn wf(&self) -> bool {
        &&& end_count(self.events_seq()) == if self.is_terminal() {
            1int
        } else {
            0int
        }
        &&& (self.is_terminal() ==> self.events_seq().len() > 0 && is_end(
            self.events_seq().last(),
        ))
    }

    /// What every non-terminal recording guarantees: one event appended,
    /// nothing else touched, the log still live and well-formed.
    pub open spec fn recorded_one(&self, pre: ConnectionLog) -> bool {
        &&& self.wf()
        &&& !self.is_terminal()
        &&& self.events_seq() == pre.events_seq().push(self.events_seq().last())
    }

    /// What every terminal recording guarantees: one `ConnectionEnd`
    /// appended, the log now terminal and well-formed.
    pub open spec fn ended_one(&self, pre: ConnectionLog) -> bool {
        &&& self.wf()
        &&& self.is_terminal()
        &&& self.events_seq() == pre.events_seq().push(self.events_seq().last())
        &&& is_end(self.events_seq().last())
    }

    /// A fresh, empty, live log.
    pub fn new() -> (log: ConnectionLog)
        ensures
            log.wf(),
            !log.is_terminal(),
            log.events_seq().len() == 0,
    {
        ConnectionLog { events: Vec::new(), terminal: false }
    }

    /// The recorded events, for persistence and replay.
    pub fn events(&self) -> (r: &Vec<GrpcEvent>)
        ensures
            r@ == self.events_seq(),
    {
        &self.events
    }

    /// Whether a terminal event has been recorded.
    pub fn terminal(&self) -> (r: bool)
        ensures
            r == self.is_terminal(),
    {
        self.terminal
    }

    fn append(&mut self, e: GrpcEvent)
        requires
            old(self).wf(),
            !old(self).is_terminal(),
        ensures
            final(self).events_seq() == old(self).events_seq().push(e),
            final(self).is_terminal() == is_end(e),
            final(self).wf(),
    {
        proof {
            lemma_end_count_push(self.events@, e);
        }
        let terminal = match e.event_type {
            GrpcEventType::ConnectionEnd => true,
            _ => false,
        };
        self.events.push(e);
        self.terminal = terminal;
        proof {
            assert(self.events@.last() == e);
        }
    }

    /// Record the opening event: a human-readable connecting note carrying
    /// the outbound request metadata.
    pub fn record_start(&mut self, url: &str, metadata: Vec<(String, String)>)
        requires
            old(self).wf(),
            !old(self).is_terminal(),
        ensures
            final(self).recorded_one(*old(self)),
            ({
                let e = final(self).events_seq().last();
                &&& e.event_type == GrpcEventType::ConnectionStart
                &&& e.content@ == "Connecting to "@ + url@
                &&& e.metadata == metadata
                &&& e.status is None
                &&& e.error is None
            }),
    {
        let content = String::from_str("Connecting to ").concat(url);
        self.append(
            GrpcEvent {
                event_type: GrpcEventType::ConnectionStart,
                content,
                metadata,
                status: None,
                error: None,
            },
        );
    }

    /// Record one caller-originated message, with its raw content.
    pub fn record_client_message(&mut self, content: String)
        requires
            old(self).wf(),
            !old(self).is_terminal(),
        ensures
            final(self).recorded_one(*old(self)),
            ({
                let e = final(self).events_seq().last();
                &&& e.event_type == GrpcEventType::ClientMessage
                &&& e.content == content
                &&& e.metadata@.len() == 0
                &&& e.status is None
                &&& e.error is None
            }),
    {
        self.append(
            GrpcEvent {
                event_type: GrpcEventType::ClientMessage,
                content,
                metadata: Vec::new(),
                status: None,
                error: None,
            },
        );
    }

    /// Record one inbound application message, in receipt order.
    pub fn record_server_message(&mut self, content: String)
        requires
            old(self).wf(),
            !old(self).is_terminal(),
        ensures
            final(self).recorded_one(*old(self)),
            server_contents(final(self).events_seq()) == server_contents(
                old(self).events_seq(),
            ).push(content@),
            ({
                let e = final(self).events_seq().last();
                &&& e.event_type == GrpcEventType::ServerMessage
                &&& e.content == content
                &&& e.metadata@.len() == 0
                &&& e.status is None
                &&& e.error is None
            }),
    {
        let ghost pre = self.events@;
        self.append(
            GrpcEvent {
                event_type: GrpcEventType::ServerMessage,
                content,
                metadata: Vec::new(),
                status: None,
                error: None,
            },
        );
        proof {
            lemma_server_contents_push(pre, self.events@.last());
        }
    }

    /// Record the arrival of response metadata: the note distinguishes an
    /// empty metadata map from a non-empty one.
    pub fn record_response_info(&mut self, metadata: Vec<(String, String)>)
        requires
            old(self).wf(),
            !old(self).is_terminal(),
        ensures
            final(self).recorded_one(*old(self)),
            ({
                let e = final(self).events_seq().last();
                &&& e.event_type == GrpcEventType::Info
                &&& (metadata@.len() == 0 ==> e.content@ == "Received response"@)
                &&& (metadata@.len() > 0 ==> e.content@ == "Received response with metadata"@)
                &&& e.metadata == metadata
                &&& e.status is None
                &&& e.error is None
            }),
    {
        let content = if metadata.len() == 0 {
            String::from_str("Received response")
        } else {
            String::from_str("Received response with metadata")
        };
        self.append(
            GrpcEvent {
                event_type: GrpcEventType::Info,
                content,
                metadata,
                status: None,
                error: None,
            },
        );
    }

    /// Record a message-scoped error — a caller message that failed to
    /// parse against the method's schema — without terminating the
    /// connection.
    pub fn record_message_error(&mut self, message: String)
        requires
            old(self).wf(),
            !old(self).is_terminal(),
        ensures
            final(self).recorded_one(*old(self)),
            ({
                let e = final(self).events_seq().last();
                &&& e.event_type == GrpcEventType::Error
                &&& e.content == message
                &&& e.metadata@.len() == 0
                &&& e.status is None
                &&& e.error is None
            }),
    {
        self.append(
            GrpcEvent {
                event_type: GrpcEventType::Error,
                content: message,
                metadata: Vec::new(),
                status: None,
                error: None,
            },
        );
    }

    /// Terminate cleanly after a single-response exchange.
    pub fn end_ok(&mut self)
        requires
            old(self).wf(),
            !old(self).is_terminal(),
        ensures
            final(self).ended_one(*old(self)),
            terminal_status_of(final(self).events_seq()) == CODE_OK,
            ({
                let e = final(self).events_seq().last();
                &&& e.content@ == "Connection complete"@
                &&& e.status == Some(CODE_OK)
                &&& e.error is None
            }),
    {
        self.append(
            GrpcEvent {
                event_type: GrpcEventType::ConnectionEnd,
                content: String::from_str("Connection complete"),
                metadata: Vec::new(),
                status: Some(CODE_OK),
                error: None,
            },
        );
    }

    /// Terminate after a server stream closed without an explicit status:
    /// the trailers are kept and the status defaults to `CODE_UNAVAILABLE`.
    pub fn end_stream_closed(&mut self, trailers: Vec<(String, String)>)
        requires
            old(self).wf(),
            !old(self).is_terminal(),
        ensures
            final(self).ended_one(*old(self)),
            terminal_status_of(final(self).events_seq()) == CODE_UNAVAILABLE,
            ({
                let e = final(self).events_seq().last();
                &&& e.content@ == "Connection complete"@
                &&& e.status == Some(CODE_UNAVAILABLE)
                &&& e.metadata == trailers
                &&& e.error is None
            }),
    {
        self.append(
            GrpcEvent {
                event_type: GrpcEventType::ConnectionEnd,
                content: String::from_str("Connection complete"),
                metadata: trailers,
                status: Some(CODE_UNAVAILABLE),
                error: None,
            },
        );
    }

    /// Terminate on a failed dial or call: the carried RPC status wins;
    /// an error without one ends with `CODE_UNKNOWN` and its own message.
    pub fn end_failed(&mut self, failure: RpcFailure)
        requires
            old(self).wf(),
            !old(self).is_terminal(),
        ensures
            final(self).ended_one(*old(self)),
            ({
                let e = final(self).events_seq().last();
                &&& e.content@ == "Failed to connect"@
                &&& match failure.status {
                    Some(st) => {
                        &&& e.status == Some(st.code)
                        &&& e.error == Some(st.message)
                        &&& e.metadata == st.metadata
                    },
                    None => {
                        &&& e.status == Some(CODE_UNKNOWN)
                        &&& e.error == Some(failure.message)
                        &&& e.metadata@.len() == 0
                    },
                }
            }),
            terminal_status_of(final(self).events_seq()) == (match failure.status {
                Some(st) => st.code,
                None => CODE_UNKNOWN,
            }),
    {
        let e = match failure.status {
            Some(st) => GrpcEvent {
                event_type: GrpcEventType::ConnectionEnd,
                content: String::from_str("Failed to connect"),
                metadata: st.metadata,
                status: Some(st.code),
                error: Some(st.message),
            },
            None => GrpcEvent {
                event_type: GrpcEventType::ConnectionEnd,
                content: String::from_str("Failed to connect"),
                metadata: Vec::new(),
                status: Some(CODE_UNKNOWN),
                error: Some(failure.message),
            },
        };
        self.append(e);
    }

    /// Terminate on a stream that ended with an explicit error status: its
    /// display text, code and metadata are kept.
    pub fn end_stream_error(
        &mut self,
        code: i64,
        display: String,
        metadata: Vec<(String, String)>,
    )
        requires
            old(self).wf(),
            !old(self).is_terminal(),
        ensures
            final(self).ended_one(*old(self)),
            terminal_status_of(final(self).events_seq()) == code,
            ({
                let e = final(self).events_seq().last();
                &&& e.content == display
                &&& e.status == Some(code)
                &&& e.metadata == metadata
            }),
    {
        self.append(
            GrpcEvent {
                event_type: GrpcEventType::ConnectionEnd,
                content: display,
                metadata,
                status: Some(code),
                error: None,
            },
        );
    }

    /// Terminate on cancellation: the fixed note, `CODE_CANCELLED`, and no
    /// server-message side effects — the replay is exactly what had been
    /// received before the cancel.
    pub fn end_cancelled(&mut self)
        requires
            old(self).wf(),
            !old(self).is_terminal(),
        ensures
            final(self).ended_one(*old(self)),
            terminal_status_of(final(self).events_seq()) == CODE_CANCELLED,
            server_contents(final(self).events_seq()) == server_contents(old(self).events_seq()),
            ({
                let e = final(self).events_seq().last();
                &&& e.content@ == "Cancelled"@
                &&& e.status == Some(CODE_CANCELLED)
            }),
    {
        let ghost pre = self.events@;
        self.append(
            GrpcEvent {
                event_type: GrpcEventType::ConnectionEnd,
                content: String::from_str("Cancelled"),
                metadata: Vec::new(),
                status: Some(CODE_CANCELLED),
                error: None,
            },
        );
        proof {
            lemma_server_contents_push(pre, self.events@.last());
        }
    }

    /// The terminal status read back from the log.
    pub fn terminal_status(&self) -> (r: i64)
        ensures
            r == terminal_status_of(self.events_seq()),
    {
        let n = self.events.len();
        let mut i: usize = n;
        proof {
            assert(self.events_seq().subrange(0, n as int) =~= self.events_seq());
        }
        while i > 0
            invariant
                0 <= i <= n,
                n == self.events_seq().len(),
                terminal_status_of(self.events_seq()) == terminal_status_of(
                    self.events_seq().subrange(0, i as int),
                ),
            decreases i,
        {
            let e = &self.events[i - 1];
            proof {
                assert(self.events_seq().subrange(0, i as int).last() == self.events_seq()[i
                    - 1]);
                assert(self.events_seq().subrange(0, i as int).drop_last()
                    =~= self.events_seq().subrange(0, i - 1));
            }
            match e.event_type {
                GrpcEventType::ConnectionEnd => {
                    return match e.status {
                        Some(c) => c,
                        None => CODE_UNAVAILABLE,
                    };
                },
                _ => {},
            }
            i -= 1;
        }
        proof {
            assert(self.events_seq().subrange(0, 0) =~= Seq::<GrpcEvent>::empty());
        }
        CODE_UNAVAILABLE
    }

    /// Write the one terminal update of the connection record: its status
    /// is the log's terminal status, its elapsed time is set once, and its
    /// identity and error are untouched.
    pub fn finalize_connection(&self, conn: GrpcConnection, elapsed: i64) -> (r: GrpcConnection)
        requires
            self.wf(),
            self.is_terminal(),
        ensures
            r.status == terminal_status_of(self.events_seq()),
            r.elapsed == elapsed,
            r.id == conn.id,
            r.workspace_id == conn.workspace_id,
            r.request_id == conn.request_id,
            r.url == conn.url,
            r.error == conn.error,
    {
        let status = self.terminal_status();
        GrpcConnection { status, elapsed, ..conn }
    }
}

/// The status an RPC error carries, when it carries one.
pub struct RpcStatus {
    pub code: i64,
    pub message: String,
    pub metadata: Vec<(String, String)>,
}

/// A failed dial or call: a transport error with an optional RPC status.
pub struct RpcFailure {
    pub status: Option<RpcStatus>,
    pub message: String,
}

/// After completion exactly one terminal event exists, and the connection's
/// terminal status is that event's status.
pub proof fn lemma_one_terminal_end(log: ConnectionLog)
    requires
        log.wf(),
        log.is_terminal(),
    ensures
        end_count(log.events_seq()) == 1,
        log.events_seq().len() > 0,
        is_end(log.events_seq().last()),
        terminal_status_of(log.events_seq()) == (match log.events_seq().last().status {
            Some(c) => c,
            None => CODE_UNAVAILABLE,
        }),
{
}

/// A terminal log holds no second terminal event: any two terminal indexes
/// coincide.
pub proof fn lemma_terminal_end_unique(log: ConnectionLog, i: int, j: int)
    requires
        log.wf(),
        log.is_terminal(),
        0 <= i < log.events_seq().len(),
        0 <= j < log.events_seq().len(),
        is_end(log.events_seq()[i]),
        is_end(log.events_seq()[j]),
    ensures
        i == j,
{
    if i < j {
        lemma_end_count_at_least_two(log.events_seq(), i, j);
    } else if j < i {
        lemma_end_count_at_least_two(log.events_seq(), j, i);
    }
}

/// A live log holds no terminal event at all: the caller is never left
/// with a record that ended silently.
pub proof fn lemma_live_log_has_no_end(log: ConnectionLog, i: int)
    requires
        log.wf(),
        !log.is_terminal(),
        0 <= i < log.events_seq().len(),
    ensures
        !is_end(log.events_seq()[i]),
{
    if is_end(log.events_seq()[i]) {
        lemma_end_count_at_least_one(log.events_seq(), i);
    }
}

} // verus!
