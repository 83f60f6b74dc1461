//! The replication server: what is checked before streaming, and what is done
//! with each message of the stream.
//!
//! The server decides, and whoever runs it acts: it asks for one thing at a time,
//! a query, a message, a delivery, and is told what came of it.

use vstd::prelude::*;

use crate::config::{ConfigView, ReplicationConfig};
use crate::errors::{completion, text_option, ErrorView, ReplicationError, ReplicationResult};
use crate::event_history::read_literal;
use crate::messages::{
    law_the_greatest_position_counts, MessageView, ReplicationMessage, ReplicationState, StateView,
};
use crate::protocol::{
    in_stream_after, keepalive, law_where_the_parts_of_a_message_stand, parsed_message, postgres_timestamp, status_update, stream_after,
    system_time_to_postgres_timestamp, write_status_update, xlog_data, KeepaliveMessage,
    MessageParser, XLogDataMessage, XLogDataView,
};
use crate::text::{identifier_char, text_eq};
use crate::time::Timestamp;
use crate::wire::be_value;

verus! {

/// How a query came out.
#[derive(Debug, Clone, Copy, PartialEq, Eq, Structural)]
pub enum ExecStatus {
    EmptyQuery,
    CommandOk,
    TuplesOk,
    CopyOut,
    CopyIn,
    BadResponse,
    NonfatalError,
    FatalError,
    CopyBoth,
    SingleTuple,
    PipelineSync,
    PipelineAborted,
}

impl ExecStatus {
    /// The name of the status in the client library of PostgreSQL.
    pub open spec fn name(self) -> Seq<char> {
        match self {
            ExecStatus::EmptyQuery => "PGRES_EMPTY_QUERY"@,
            ExecStatus::CommandOk => "PGRES_COMMAND_OK"@,
            ExecStatus::TuplesOk => "PGRES_TUPLES_OK"@,
            ExecStatus::CopyOut => "PGRES_COPY_OUT"@,
            ExecStatus::CopyIn => "PGRES_COPY_IN"@,
            ExecStatus::BadResponse => "PGRES_BAD_RESPONSE"@,
            ExecStatus::NonfatalError => "PGRES_NONFATAL_ERROR"@,
            ExecStatus::FatalError => "PGRES_FATAL_ERROR"@,
            ExecStatus::CopyBoth => "PGRES_COPY_BOTH"@,
            ExecStatus::SingleTuple => "PGRES_SINGLE_TUPLE"@,
            ExecStatus::PipelineSync => "PGRES_PIPELINE_SYNC"@,
            ExecStatus::PipelineAborted => "PGRES_PIPELINE_ABORTED"@,
        }
    }

    /// The name of the status in the client library of PostgreSQL.
    pub fn to_text(&self) -> (text: String)
        ensures
            text@ == self.name(),
    {
        match self {
            ExecStatus::EmptyQuery => "PGRES_EMPTY_QUERY".to_string(),
            ExecStatus::CommandOk => "PGRES_COMMAND_OK".to_string(),
            ExecStatus::TuplesOk => "PGRES_TUPLES_OK".to_string(),
            ExecStatus::CopyOut => "PGRES_COPY_OUT".to_string(),
            ExecStatus::CopyIn => "PGRES_COPY_IN".to_string(),
            ExecStatus::BadResponse => "PGRES_BAD_RESPONSE".to_string(),
            ExecStatus::NonfatalError => "PGRES_NONFATAL_ERROR".to_string(),
            ExecStatus::FatalError => "PGRES_FATAL_ERROR".to_string(),
            ExecStatus::CopyBoth => "PGRES_COPY_BOTH".to_string(),
            ExecStatus::SingleTuple => "PGRES_SINGLE_TUPLE".to_string(),
            ExecStatus::PipelineSync => "PGRES_PIPELINE_SYNC".to_string(),
            ExecStatus::PipelineAborted => "PGRES_PIPELINE_ABORTED".to_string(),
        }
    }
}

/// The answer to a query.
#[derive(Debug)]
pub struct QueryResult {
    /// Whether the connection takes the query for successful.
    pub ok: bool,
    /// How the query came out.
    pub status: ExecStatus,
    /// How many rows the answer has.
    pub ntuples: i32,
    /// The first value of the first row, if there is one.
    pub value: Option<String>,
}

/// A [`QueryResult`] as a mathematical value.
pub struct QueryResultView {
    pub ok: bool,
    pub status: ExecStatus,
    pub ntuples: i32,
    pub value: Option<Seq<char>>,
}

impl View for QueryResult {
    type V = QueryResultView;

    open spec fn view(&self) -> QueryResultView {
        QueryResultView {
            ok: self.ok,
            status: self.status,
            ntuples: self.ntuples,
            value: text_option(self.value),
        }
    }
}

/// What came of a query: an answer, or an error of the connection.
pub type Queried = Result<QueryResultView, ErrorView>;

/// Asks for the setting that logical replication needs.
pub open spec fn wal_level_sql() -> Seq<char> {
    "SHOW wal_level;"@
}

/// Asks the server who it is.
pub open spec fn identify_sql() -> Seq<char> {
    "IDENTIFY_SYSTEM"@
}

/// Asks for the replication slot.
pub open spec fn slot_sql(config: ConfigView) -> Seq<char> {
    "SELECT slot_name FROM pg_replication_slots WHERE slot_name = '"@ + config.slot_name + "';"@
}

/// Asks for the publication.
pub open spec fn publication_sql(config: ConfigView) -> Seq<char> {
    "SELECT * FROM pg_publication WHERE pubname = '"@ + config.publication_name + "';"@
}

/// Starts the stream.
pub open spec fn start_sql(config: ConfigView) -> Seq<char> {
    "START_REPLICATION SLOT \""@ + config.slot_name
        + "\" LOGICAL 0/0 (proto_version '2', streaming 'on', publication_names '"@
        + config.publication_name + "');"@
}

/// A protocol error with a description.
pub open spec fn refused(message: Seq<char>) -> Result<(), ErrorView> {
    Err(ErrorView::Protocol(message))
}

/// Whether the answer about the `wal_level` lets the server go on.
pub open spec fn wal_level_verdict(queried: Queried) -> Result<(), ErrorView> {
    match queried {
        Err(e) => Err(e),
        Ok(result) => if !result.ok {
            refused("Failed to check wal_level"@)
        } else {
            match result.value {
                None => refused("Could not retrieve wal_level value"@),
                Some(level) => if level == "logical"@ {
                    Ok(())
                } else {
                    refused(
                        "wal_level is not set to 'logical'. Please set wal_level to 'logical' in postgresql.conf and restart the PostgreSQL server."@,
                    )
                },
            }
        },
    }
}

/// Whether the identification lets the server go on.
pub open spec fn identify_verdict(queried: Queried) -> Result<(), ErrorView> {
    match queried {
        Err(e) => refused("IDENTIFY_SYSTEM failed: "@ + e.text()),
        Ok(result) => if !result.ok {
            refused("IDENTIFY_SYSTEM failed: "@ + result.status.name())
        } else {
            Ok(())
        },
    }
}

/// The description of a missing replication slot.
pub open spec fn missing_slot_text(slot: Seq<char>) -> Seq<char> {
    "Replication slot '"@ + slot
        + "' does not exist. Please create it manually using the following SQL command:\n\nCREATE_REPLICATION_SLOT \""@
        + slot + "\" LOGICAL pgoutput NOEXPORT_SNAPSHOT;\n"@
}

/// Whether the answer about the replication slot lets the server go on.
pub open spec fn slot_verdict(config: ConfigView, queried: Queried) -> Result<(), ErrorView> {
    match queried {
        Err(e) => Err(e),
        Ok(result) => if !result.ok {
            refused("Failed to check existing replication slots: "@ + result.status.name())
        } else if result.ntuples == 0 {
            refused(missing_slot_text(config.slot_name))
        } else {
            Ok(())
        },
    }
}

/// The description of a missing publication.
pub open spec fn missing_publication_text(publication: Seq<char>) -> Seq<char> {
    "Publication '"@ + publication
        + "' does not exist. Please create it manually using the following SQL command:\n\nCREATE PUBLICATION \""@
        + publication
        + "\" FOR TABLE <your_table_name>;\n\nor\n\nCREATE PUBLICATION \""@ + publication
        + "\" FOR ALL TABLES;\n\ndepending on your configuration."@
}

/// Whether the answer about the publication lets the server go on.
pub open spec fn publication_verdict(config: ConfigView, queried: Queried) -> Result<
    (),
    ErrorView,
> {
    match queried {
        Err(e) => Err(e),
        Ok(result) => if !result.ok {
            refused("Failed to check existing publications: "@ + result.status.name())
        } else if result.ntuples == 0 {
            refused(missing_publication_text(config.publication_name))
        } else {
            Ok(())
        },
    }
}

/// Whether the stream has started.
pub open spec fn start_verdict(queried: Queried) -> Result<(), ErrorView> {
    match queried {
        Err(e) => Err(e),
        Ok(result) => if result.status != ExecStatus::CopyBoth {
            refused("Failed to start replication: "@ + result.status.name())
        } else {
            Ok(())
        },
    }
}

/// Where the server stands: what it has asked for last.
#[derive(Debug, Clone, Copy, PartialEq, Eq, Structural)]
pub enum ServerPhase {
    /// Connected, and nothing asked for yet.
    Connected,
    /// Asked who the server is.
    Identifying,
    /// Asked for the `wal_level`.
    CheckingWalLevel,
    /// Asked for the replication slot.
    CheckingSlot,
    /// Asked for the publication.
    CheckingPublication,
    /// Asked for the stream.
    Starting,
    /// About to receive: asked for the shutdown signal and the time.
    Turning,
    /// Sent feedback on schedule.
    Reporting,
    /// Asked for a message.
    Receiving,
    /// Waiting because there was no message.
    Pausing,
    /// Sent feedback because the server asked for it.
    Answering,
    /// Flushed the connection after such feedback.
    AnswerFlushing,
    /// Handed a message to the sink.
    Delivering,
    /// Sent feedback after a message of the log.
    Confirming,
    /// Asked for the shutdown signal after a message of the log.
    Rechecking,
    /// Sent the last feedback.
    ClosingReport,
    /// Flushed the connection for the last time.
    ClosingFlush,
    /// Done.
    Ended,
}

/// What the server is told.
#[derive(Debug)]
pub enum ServerEvent {
    /// The answer to a query.
    Queried(ReplicationResult<QueryResult>),
    /// Whether a shutdown is wanted, and the time in nanoseconds since the server
    /// was made.
    Looked { shutdown: bool, now: u64 },
    /// Whether feedback was sent, and the time after that.
    FeedbackSent { result: ReplicationResult<()>, now: u64 },
    /// A message of the stream, if there was one.
    Received(ReplicationResult<Option<Vec<u8>>>),
    /// The wait is over.
    Slept,
    /// Whether the connection was flushed.
    Flushed(ReplicationResult<()>),
    /// Whether the sink took a message.
    Delivered(ReplicationResult<()>),
}

/// What the server asks for.
#[derive(Debug)]
pub enum ServerAction {
    /// Run a query.
    Query { sql: String },
    /// Look at the shutdown signal and at the clock.
    Look,
    /// Send what [`ReplicationServer::send_feedback`] gives.
    SendFeedback,
    /// Receive a message of the stream.
    Receive,
    /// Wait.
    Sleep { millis: u64 },
    /// Flush the connection.
    Flush,
    /// Hand a message to the sink.
    Deliver { message: ReplicationMessage },
    /// Nothing more: the run is over.
    Finish(ReplicationResult<()>),
}

/// A [`ServerEvent`] as a mathematical value.
pub enum ServerEventView {
    Queried(Queried),
    Looked(bool, u64),
    FeedbackSent(Result<(), ErrorView>, u64),
    Received(Result<Option<Seq<u8>>, ErrorView>),
    Slept,
    Flushed(Result<(), ErrorView>),
    Delivered(Result<(), ErrorView>),
}

/// A [`ServerAction`] as a mathematical value.
pub enum ServerActionView {
    Query(Seq<char>),
    Look,
    SendFeedback,
    Receive,
    Sleep(u64),
    Flush,
    Deliver(MessageView),
    Finish(Result<(), ErrorView>),
}

impl View for ServerEvent {
    type V = ServerEventView;

    open spec fn view(&self) -> ServerEventView {
        match self {
            ServerEvent::Queried(result) => ServerEventView::Queried(
                crate::errors::outcome(*result),
            ),
            ServerEvent::Looked { shutdown, now } => ServerEventView::Looked(*shutdown, *now),
            ServerEvent::FeedbackSent { result, now } => ServerEventView::FeedbackSent(
                completion(*result),
                *now,
            ),
            ServerEvent::Received(result) => ServerEventView::Received(
                match result {
                    Ok(Some(data)) => Ok(Some(data@)),
                    Ok(None) => Ok(None),
                    Err(e) => Err(e@),
                },
            ),
            ServerEvent::Slept => ServerEventView::Slept,
            ServerEvent::Flushed(result) => ServerEventView::Flushed(completion(*result)),
            ServerEvent::Delivered(result) => ServerEventView::Delivered(completion(*result)),
        }
    }
}

impl View for ServerAction {
    type V = ServerActionView;

    open spec fn view(&self) -> ServerActionView {
        match self {
            ServerAction::Query { sql } => ServerActionView::Query(sql@),
            ServerAction::Look => ServerActionView::Look,
            ServerAction::SendFeedback => ServerActionView::SendFeedback,
            ServerAction::Receive => ServerActionView::Receive,
            ServerAction::Sleep { millis } => ServerActionView::Sleep(*millis),
            ServerAction::Flush => ServerActionView::Flush,
            ServerAction::Deliver { message } => ServerActionView::Deliver(message@),
            ServerAction::Finish(result) => ServerActionView::Finish(completion(*result)),
        }
    }
}

/// Whether an event tells what came of an action.
pub open spec fn answers(action: ServerActionView, event: ServerEventView) -> bool {
    match action {
        ServerActionView::Query(_) => event is Queried,
        ServerActionView::Look => event is Looked,
        ServerActionView::SendFeedback => event is FeedbackSent,
        ServerActionView::Receive => event is Received,
        ServerActionView::Sleep(_) => event is Slept,
        ServerActionView::Flush => event is Flushed,
        ServerActionView::Deliver(_) => event is Delivered,
        ServerActionView::Finish(_) => false,
    }
}

/// A [`ReplicationServer`] as a mathematical value, without its sink.
pub struct ServerView {
    pub config: ConfigView,
    pub state: StateView,
    pub has_sink: bool,
    pub in_stream: bool,
    pub phase: ServerPhase,
}

/// How long the server waits when there is no message, in milliseconds.
pub const PAUSE_MILLIS: u64 = 10;

impl ServerView {
    /// A server that has just been made.
    pub open spec fn initial(config: ConfigView, has_sink: bool) -> ServerView {
        ServerView {
            config,
            state: StateView::initial(),
            has_sink,
            in_stream: false,
            phase: ServerPhase::Connected,
        }
    }

    /// What has been applied has been received.
    pub open spec fn well_formed(self) -> bool {
        self.state.applied_lsn <= self.state.received_lsn
    }

    /// Whether the server can be told an event: what it asked for last.
    pub open spec fn expects(self, event: ServerEventView) -> bool {
        match self.phase {
            ServerPhase::Connected => false,
            ServerPhase::Identifying => event is Queried,
            ServerPhase::CheckingWalLevel => event is Queried,
            ServerPhase::CheckingSlot => event is Queried,
            ServerPhase::CheckingPublication => event is Queried,
            ServerPhase::Starting => event is Queried,
            ServerPhase::Turning => event is Looked,
            ServerPhase::Reporting => event is FeedbackSent,
            ServerPhase::Receiving => event is Received,
            ServerPhase::Pausing => event is Slept,
            ServerPhase::Answering => event is FeedbackSent,
            ServerPhase::AnswerFlushing => event is Flushed,
            ServerPhase::Delivering => event is Delivered,
            ServerPhase::Confirming => event is FeedbackSent,
            ServerPhase::Rechecking => event is Looked,
            ServerPhase::ClosingReport => event is FeedbackSent,
            ServerPhase::ClosingFlush => event is Flushed,
            ServerPhase::Ended => false,
        }
    }

    /// The server in another phase.
    pub open spec fn in_phase(self, phase: ServerPhase) -> ServerView {
        ServerView { phase, ..self }
    }

    /// The server in another state.
    pub open spec fn in_state(self, state: StateView) -> ServerView {
        ServerView { state, ..self }
    }

    /// The end of the run.
    pub open spec fn ended(self, result: Result<(), ErrorView>) -> (ServerView, ServerActionView) {
        (self.in_phase(ServerPhase::Ended), ServerActionView::Finish(result))
    }

    /// The end of the run for an error; otherwise another step.
    pub open spec fn unless_refused(
        self,
        verdict: Result<(), ErrorView>,
        next: ServerPhase,
        action: ServerActionView,
    ) -> (ServerView, ServerActionView) {
        match verdict {
            Ok(_) => (self.in_phase(next), action),
            Err(e) => self.ended(Err(e)),
        }
    }

    /// The start of the setup: the first of the checks that come before the
    /// stream. A new stream does not begin inside of another.
    pub open spec fn setup(self) -> (ServerView, ServerActionView) {
        (
            ServerView { in_stream: false, phase: ServerPhase::CheckingWalLevel, ..self },
            ServerActionView::Query(wal_level_sql()),
        )
    }

    /// Another turn of the loop.
    pub open spec fn turn(self) -> (ServerView, ServerActionView) {
        (self.in_phase(ServerPhase::Turning), ServerActionView::Look)
    }

    /// The last feedback before the end.
    pub open spec fn close(self) -> (ServerView, ServerActionView) {
        (self.in_phase(ServerPhase::ClosingReport), ServerActionView::SendFeedback)
    }

    /// Whether feedback is due on schedule.
    pub open spec fn feedback_due(self, now: u64) -> bool {
        now - self.state.last_feedback_time > self.config.feedback_interval_secs * 1_000_000_000
    }

    /// What is done with a keepalive message: the server gets feedback if it
    /// asks for some.
    pub open spec fn on_keepalive(self, data: Seq<u8>) -> (ServerView, ServerActionView) {
        match keepalive(data) {
            Err(e) => self.ended(Err(e)),
            Ok(message) => if message.reply_requested {
                (self.in_phase(ServerPhase::Answering), ServerActionView::SendFeedback)
            } else {
                self.turn()
            },
        }
    }

    /// The server once a piece of the log has been received.
    pub open spec fn on_position(self, data_start: u64) -> ServerView {
        if data_start > 0 {
            self.in_state(self.state.receive(data_start))
        } else {
            self
        }
    }

    /// The server once all that has been received counts as applied, with
    /// feedback on the way.
    pub open spec fn applied(self) -> (ServerView, ServerActionView) {
        (
            self.in_state(self.state.apply(self.state.received_lsn)).in_phase(
                ServerPhase::Confirming,
            ),
            ServerActionView::SendFeedback,
        )
    }

    /// The server once it has taken note of what a message says of the stream.
    pub open spec fn noted(self, message: MessageView) -> ServerView {
        let server = ServerView {
            in_stream: in_stream_after(message, self.in_stream),
            ..self
        };
        match message {
            MessageView::Relation(relation) => server.in_state(server.state.describe(relation)),
            _ => server,
        }
    }

    /// What is done with a logical replication message: a relation is remembered,
    /// and every message goes to the sink.
    pub open spec fn on_message(self, message: MessageView) -> (ServerView, ServerActionView) {
        let server = self.noted(message);
        if server.has_sink {
            (server.in_phase(ServerPhase::Delivering), ServerActionView::Deliver(message))
        } else {
            server.applied()
        }
    }

    /// What is done with a piece of the log.
    pub open spec fn on_wal(self, data: Seq<u8>) -> (ServerView, ServerActionView) {
        match xlog_data(data) {
            Err(e) => self.ended(Err(e)),
            Ok(wal) => if wal.data.len() == 0 {
                self.ended(refused("WAL message has no data"@))
            } else {
                let server = self.on_position(wal.data_start);
                match parsed_message(wal.data, self.in_stream) {
                    Err(e) => server.ended(Err(e)),
                    Ok(message) => server.on_message(message),
                }
            },
        }
    }

    /// What is done with a message of the stream, if there was one.
    pub open spec fn on_received(self, received: Result<Option<Seq<u8>>, ErrorView>) -> (
        ServerView,
        ServerActionView,
    ) {
        match received {
            Err(e) => self.ended(Err(e)),
            Ok(None) => (
                self.in_phase(ServerPhase::Pausing),
                ServerActionView::Sleep(PAUSE_MILLIS),
            ),
            Ok(Some(data)) => if data.len() == 0 {
                self.turn()
            } else if data[0] == 'k' as u8 {
                self.on_keepalive(data)
            } else if data[0] == 'w' as u8 {
                self.on_wal(data)
            } else {
                self.turn()
            },
        }
    }

    /// What is done before a message is received: the run is closed if a
    /// shutdown is wanted, and feedback is sent if it is due.
    pub open spec fn on_turn(self, shutdown: bool, now: u64) -> (ServerView, ServerActionView) {
        if shutdown {
            self.close()
        } else if self.feedback_due(now) {
            (self.in_phase(ServerPhase::Reporting), ServerActionView::SendFeedback)
        } else {
            (self.in_phase(ServerPhase::Receiving), ServerActionView::Receive)
        }
    }

    /// What is done with what the sink said.
    pub open spec fn on_delivered(self, result: Result<(), ErrorView>) -> (
        ServerView,
        ServerActionView,
    ) {
        match result {
            Ok(_) => self.applied(),
            Err(e) => self.ended(refused("Event sink failed: "@ + e.text())),
        }
    }

    /// What is done with the answer to a query: the next check, or the stream.
    pub open spec fn on_queried(self, queried: Queried) -> (ServerView, ServerActionView) {
        match self.phase {
            ServerPhase::Identifying => match identify_verdict(queried) {
                Ok(_) => self.setup(),
                Err(e) => self.ended(Err(e)),
            },
            ServerPhase::CheckingWalLevel => self.unless_refused(
                wal_level_verdict(queried),
                ServerPhase::CheckingSlot,
                ServerActionView::Query(slot_sql(self.config)),
            ),
            ServerPhase::CheckingSlot => self.unless_refused(
                slot_verdict(self.config, queried),
                ServerPhase::CheckingPublication,
                ServerActionView::Query(publication_sql(self.config)),
            ),
            ServerPhase::CheckingPublication => self.unless_refused(
                publication_verdict(self.config, queried),
                ServerPhase::Starting,
                ServerActionView::Query(start_sql(self.config)),
            ),
            _ => self.unless_refused(
                start_verdict(queried),
                ServerPhase::Turning,
                ServerActionView::Look,
            ),
        }
    }

    /// What is done once feedback has been sent, or could not be sent.
    pub open spec fn on_feedback(self, result: Result<(), ErrorView>, now: u64) -> (
        ServerView,
        ServerActionView,
    ) {
        match self.phase {
            ServerPhase::Reporting => match result {
                Ok(_) => (
                    self.in_state(self.state.report(now)).in_phase(ServerPhase::Receiving),
                    ServerActionView::Receive,
                ),
                Err(e) => self.ended(Err(e)),
            },
            ServerPhase::Answering => self.unless_refused(
                result,
                ServerPhase::AnswerFlushing,
                ServerActionView::Flush,
            ),
            ServerPhase::Confirming => self.unless_refused(
                result,
                ServerPhase::Rechecking,
                ServerActionView::Look,
            ),
            _ => (self.in_phase(ServerPhase::ClosingFlush), ServerActionView::Flush),
        }
    }

    /// What the server does when it is told an event.
    pub open spec fn step(self, event: ServerEventView) -> (ServerView, ServerActionView) {
        match event {
            ServerEventView::Queried(queried) => self.on_queried(queried),
            ServerEventView::Looked(shutdown, now) => if self.phase is Turning {
                self.on_turn(shutdown, now)
            } else if shutdown {
                self.close()
            } else {
                self.turn()
            },
            ServerEventView::FeedbackSent(result, now) => self.on_feedback(result, now),
            ServerEventView::Received(received) => self.on_received(received),
            ServerEventView::Slept => self.turn(),
            ServerEventView::Flushed(result) => if self.phase is ClosingFlush {
                self.ended(Ok(()))
            } else {
                self.unless_refused(result, ServerPhase::Turning, ServerActionView::Look)
            },
            ServerEventView::Delivered(result) => self.on_delivered(result),
        }
    }
}

/// Runs the replication of one connection. `S` is the sink that events go to.
pub struct ReplicationServer<S> {
    config: ReplicationConfig,
    state: ReplicationState,
    event_sink: Option<S>,
    in_stream: bool,
    phase: ServerPhase,
}

impl<S> View for ReplicationServer<S> {
    type V = ServerView;

    closed spec fn view(&self) -> ServerView {
        ServerView {
            config: self.config@,
            state: self.state@,
            has_sink: self.event_sink is Some,
            in_stream: self.in_stream,
            phase: self.phase,
        }
    }
}

impl<S> ReplicationServer<S> {
    /// The sink that events go to, if there is one.
    pub closed spec fn sink(&self) -> Option<S> {
        self.event_sink
    }

    /// A server for a connection, with the sink that the configuration asks for.
    /// Without that sink there is no server.
    pub fn new(config: ReplicationConfig, event_sink: ReplicationResult<S>) -> (server:
        ReplicationResult<ReplicationServer<S>>)
        ensures
            match (event_sink, server) {
                (Ok(sink), Ok(s)) => {
                    &&& s@ == ServerView::initial(config@, true)
                    &&& s.sink() == Some(sink)
                    &&& s@.well_formed()
                },
                (Err(cause), Err(e)) => e@ == ErrorView::Protocol(cause@.text()),
                _ => false,
            },
    {
        match event_sink {
            Ok(sink) => Ok(
                ReplicationServer {
                    config,
                    state: ReplicationState::new(),
                    event_sink: Some(sink),
                    in_stream: false,
                    phase: ServerPhase::Connected,
                },
            ),
            Err(e) => Err(ReplicationError::Protocol { message: e.to_text() }),
        }
    }

    /// The configuration.
    pub fn config(&self) -> (config: &ReplicationConfig)
        ensures
            config@ == self@.config,
    {
        &self.config
    }

    /// What is known of the stream.
    pub fn state(&self) -> (state: &ReplicationState)
        ensures
            state@ == self@.state,
    {
        &self.state
    }

    /// The sink that events go to, if there is one.
    pub fn event_sink(&self) -> (sink: Option<&S>)
        ensures
            match sink {
                Some(s) => self.sink() == Some(*s),
                None => self.sink() is None,
            },
    {
        self.event_sink.as_ref()
    }

    /// Where the server stands.
    pub fn phase(&self) -> (phase: ServerPhase)
        ensures
            phase == self@.phase,
    {
        self.phase
    }

    /// Whether the answer about the `wal_level` lets the server go on.
    pub fn check_wal_level(&self, result: ReplicationResult<QueryResult>) -> (verdict:
        ReplicationResult<()>)
        ensures
            completion(verdict) == wal_level_verdict(crate::errors::outcome(result)),
    {
        let result = match result {
            Ok(result) => result,
            Err(e) => return Err(e),
        };
        if !result.ok {
            return Err(ReplicationError::protocol("Failed to check wal_level"));
        }
        match &result.value {
            Some(level) => {
                if text_eq(level.as_str(), "logical") {
                    Ok(())
                } else {
                    Err(
                        ReplicationError::protocol(
                            "wal_level is not set to 'logical'. Please set wal_level to 'logical' in postgresql.conf and restart the PostgreSQL server.",
                        ),
                    )
                }
            },
            None => Err(ReplicationError::protocol("Could not retrieve wal_level value")),
        }
    }

    /// Whether the identification lets the server go on.
    pub fn identify_system(&self, result: ReplicationResult<QueryResult>) -> (verdict:
        ReplicationResult<()>)
        ensures
            completion(verdict) == identify_verdict(crate::errors::outcome(result)),
    {
        match result {
            Ok(result) => {
                if !result.ok {
                    let message = "IDENTIFY_SYSTEM failed: ".to_string().concat(
                        result.status.to_text().as_str(),
                    );
                    return Err(ReplicationError::Protocol { message });
                }
                Ok(())
            },
            Err(e) => {
                let message = "IDENTIFY_SYSTEM failed: ".to_string().concat(e.to_text().as_str());
                Err(ReplicationError::Protocol { message })
            },
        }
    }

    /// Whether the answer about the replication slot lets the server go on.
    pub fn check_replication_slot(&self, result: ReplicationResult<QueryResult>) -> (verdict:
        ReplicationResult<()>)
        ensures
            completion(verdict) == slot_verdict(self@.config, crate::errors::outcome(result)),
    {
        let result = match result {
            Ok(result) => result,
            Err(e) => return Err(e),
        };
        if !result.ok {
            let message = "Failed to check existing replication slots: ".to_string().concat(
                result.status.to_text().as_str(),
            );
            return Err(ReplicationError::Protocol { message });
        }
        if result.ntuples == 0 {
            let slot = self.config.slot_name.as_str();
            let message = "Replication slot '".to_string().concat(slot).concat(
                "' does not exist. Please create it manually using the following SQL command:\n\nCREATE_REPLICATION_SLOT \"",
            ).concat(slot).concat("\" LOGICAL pgoutput NOEXPORT_SNAPSHOT;\n");
            return Err(ReplicationError::Protocol { message });
        }
        Ok(())
    }

    /// Whether the answer about the publication lets the server go on.
    pub fn check_publication(&self, result: ReplicationResult<QueryResult>) -> (verdict:
        ReplicationResult<()>)
        ensures
            completion(verdict) == publication_verdict(
                self@.config,
                crate::errors::outcome(result),
            ),
    {
        let result = match result {
            Ok(result) => result,
            Err(e) => return Err(e),
        };
        if !result.ok {
            let message = "Failed to check existing publications: ".to_string().concat(
                result.status.to_text().as_str(),
            );
            return Err(ReplicationError::Protocol { message });
        }
        if result.ntuples == 0 {
            let publication = self.config.publication_name.as_str();
            let message = "Publication '".to_string().concat(publication).concat(
                "' does not exist. Please create it manually using the following SQL command:\n\nCREATE PUBLICATION \"",
            ).concat(publication).concat(
                "\" FOR TABLE <your_table_name>;\n\nor\n\nCREATE PUBLICATION \"",
            ).concat(publication).concat(
                "\" FOR ALL TABLES;\n\ndepending on your configuration.",
            );
            return Err(ReplicationError::Protocol { message });
        }
        Ok(())
    }

    /// Whether the stream has started.
    pub fn check_started(&self, result: ReplicationResult<QueryResult>) -> (verdict:
        ReplicationResult<()>)
        ensures
            completion(verdict) == start_verdict(crate::errors::outcome(result)),
    {
        let result = match result {
            Ok(result) => result,
            Err(e) => return Err(e),
        };
        if result.status != ExecStatus::CopyBoth {
            let message = "Failed to start replication: ".to_string().concat(
                result.status.to_text().as_str(),
            );
            return Err(ReplicationError::Protocol { message });
        }
        Ok(())
    }

    /// Starts the run: asks the server who it is.
    pub fn run(&mut self) -> (action: ServerAction)
        ensures
            final(self)@ == old(self)@.in_phase(ServerPhase::Identifying),
            final(self).sink() == old(self).sink(),
            action@ == ServerActionView::Query(identify_sql()),
    {
        self.phase = ServerPhase::Identifying;
        ServerAction::Query { sql: "IDENTIFY_SYSTEM".to_string() }
    }

    /// Starts the setup: the checks that come before the stream, in order. After a
    /// run that has ended it can be started again.
    pub fn create_replication_slot_and_start(&mut self) -> (action: ServerAction)
        ensures
            (final(self)@, action@) == old(self)@.setup(),
            final(self).sink() == old(self).sink(),
    {
        self.in_stream = false;
        self.phase = ServerPhase::CheckingWalLevel;
        ServerAction::Query { sql: "SHOW wal_level;".to_string() }
    }

    /// Asks for the stream.
    fn start_replication(&mut self) -> (action: ServerAction)
        ensures
            final(self)@ == old(self)@.in_phase(ServerPhase::Starting),
            final(self).sink() == old(self).sink(),
            action@ == ServerActionView::Query(start_sql(old(self)@.config)),
    {
        self.phase = ServerPhase::Starting;
        let sql = "START_REPLICATION SLOT \"".to_string().concat(
            self.config.slot_name.as_str(),
        ).concat(
            "\" LOGICAL 0/0 (proto_version '2', streaming 'on', publication_names '",
        ).concat(self.config.publication_name.as_str()).concat("');");
        ServerAction::Query { sql }
    }

    fn finish(&mut self, result: ReplicationResult<()>) -> (action: ServerAction)
        ensures
            (final(self)@, action@) == old(self)@.ended(completion(result)),
            final(self).sink() == old(self).sink(),
    {
        self.phase = ServerPhase::Ended;
        ServerAction::Finish(result)
    }

    fn go_to(&mut self, phase: ServerPhase, action: ServerAction) -> (next: ServerAction)
        ensures
            final(self)@ == old(self)@.in_phase(phase),
            final(self).sink() == old(self).sink(),
            next == action,
    {
        self.phase = phase;
        action
    }

    fn turn(&mut self) -> (action: ServerAction)
        ensures
            (final(self)@, action@) == old(self)@.turn(),
            final(self).sink() == old(self).sink(),
    {
        self.phase = ServerPhase::Turning;
        ServerAction::Look
    }

    /// Goes on with another step, unless something was refused.
    fn go_on(&mut self, verdict: ReplicationResult<()>, phase: ServerPhase, action: ServerAction) ->
        (next: ServerAction)
        ensures
            (final(self)@, next@) == old(self)@.unless_refused(completion(verdict), phase, action@),
            final(self).sink() == old(self).sink(),
    {
        match verdict {
            Ok(_) => self.go_to(phase, action),
            Err(e) => self.finish(Err(e)),
        }
    }

    /// Begins the end: the last feedback, and then a flush, whatever comes of
    /// the two.
    fn perform_graceful_shutdown(&mut self) -> (action: ServerAction)
        ensures
            (final(self)@, action@) == old(self)@.close(),
            final(self).sink() == old(self).sink(),
    {
        self.phase = ServerPhase::ClosingReport;
        ServerAction::SendFeedback
    }

    /// Sends feedback if it is due, and receives a message otherwise.
    fn check_and_send_feedback(&mut self, now: u64) -> (action: ServerAction)
        ensures
            (final(self)@, action@) == old(self)@.on_turn(false, now),
            final(self).sink() == old(self).sink(),
    {
        let elapsed: u128 = if now > self.state.last_feedback_time {
            (now - self.state.last_feedback_time) as u128
        } else {
            0
        };
        let interval: u128 = self.config.feedback_interval_secs as u128 * 1_000_000_000;
        if elapsed > interval {
            self.go_to(ServerPhase::Reporting, ServerAction::SendFeedback)
        } else {
            self.go_to(ServerPhase::Receiving, ServerAction::Receive)
        }
    }

    /// The report to send to the server at the given time.
    pub fn send_feedback(&self, now: Timestamp) -> (bytes: Vec<u8>)
        ensures
            postgres_timestamp(now@) == postgres_timestamp(now@) as i64,
            bytes@ == status_update(
                self@.state.received_lsn,
                self@.state.applied_lsn,
                postgres_timestamp(now@) as i64,
            ),
            bytes@.len() == 34,
    {
        write_status_update(
            self.state.received_lsn,
            self.state.applied_lsn,
            system_time_to_postgres_timestamp(now),
        )
    }

    fn process_keepalive_message(&mut self, data: &[u8]) -> (action: ServerAction)
        ensures
            (final(self)@, action@) == old(self)@.on_keepalive(data@),
            final(self).sink() == old(self).sink(),
    {
        match KeepaliveMessage::parse(data) {
            Ok(k) => {
                if k.reply_requested {
                    self.go_to(ServerPhase::Answering, ServerAction::SendFeedback)
                } else {
                    self.turn()
                }
            },
            Err(e) => self.finish(Err(e)),
        }
    }

    fn process_wal_message(&mut self, data: &[u8]) -> (action: ServerAction)
        ensures
            (final(self)@, action@) == old(self)@.on_wal(data@),
            final(self).sink() == old(self).sink(),
    {
        let w = match XLogDataMessage::parse(data) {
            Ok(w) => w,
            Err(e) => return self.finish(Err(e)),
        };
        if w.data.len() == 0 {
            return self.finish(Err(ReplicationError::protocol("WAL message has no data")));
        }
        if w.data_start > 0 {
            self.state.update_lsn(w.data_start);
        }
        match MessageParser::parse_wal_message(w.data.as_slice(), self.in_stream) {
            Ok(message) => self.process_replication_message(message),
            Err(e) => self.finish(Err(e)),
        }
    }

    fn process_replication_message(&mut self, message: ReplicationMessage) -> (action: ServerAction)
        ensures
            (final(self)@, action@) == old(self)@.on_message(message@),
            final(self).sink() == old(self).sink(),
    {
        self.in_stream = stream_after(&message, self.in_stream);
        if let ReplicationMessage::Relation { relation } = &message {
            self.state.add_relation(relation.clone());
        }
        if self.event_sink.is_some() {
            self.go_to(ServerPhase::Delivering, ServerAction::Deliver { message })
        } else {
            self.apply_received()
        }
    }

    fn apply_received(&mut self) -> (action: ServerAction)
        ensures
            (final(self)@, action@) == old(self)@.applied(),
            final(self).sink() == old(self).sink(),
    {
        let received: u64 = self.state.received_lsn;
        self.state.update_applied_lsn(received);
        self.go_to(ServerPhase::Confirming, ServerAction::SendFeedback)
    }

    fn process_received(&mut self, received: ReplicationResult<Option<Vec<u8>>>) -> (action:
        ServerAction)
        ensures
            (final(self)@, action@) == old(self)@.on_received(
                match received {
                    Ok(Some(data)) => Ok(Some(data@)),
                    Ok(None) => Ok(None),
                    Err(e) => Err(e@),
                },
            ),
            final(self).sink() == old(self).sink(),
    {
        match received {
            Err(e) => self.finish(Err(e)),
            Ok(None) => self.go_to(
                ServerPhase::Pausing,
                ServerAction::Sleep { millis: PAUSE_MILLIS },
            ),
            Ok(Some(data)) => {
                if data.len() == 0 {
                    self.turn()
                } else if data[0] == 'k' as u8 {
                    self.process_keepalive_message(data.as_slice())
                } else if data[0] == 'w' as u8 {
                    self.process_wal_message(data.as_slice())
                } else {
                    self.turn()
                }
            },
        }
    }

    fn process_queried(&mut self, result: ReplicationResult<QueryResult>) -> (action: ServerAction)
        requires
            old(self)@.expects(ServerEventView::Queried(crate::errors::outcome(result))),
        ensures
            (final(self)@, action@) == old(self)@.on_queried(crate::errors::outcome(result)),
            final(self).sink() == old(self).sink(),
    {
        match self.phase {
            ServerPhase::Identifying => match self.identify_system(result) {
                Ok(_) => self.create_replication_slot_and_start(),
                Err(e) => self.finish(Err(e)),
            },
            ServerPhase::CheckingWalLevel => {
                let verdict = self.check_wal_level(result);
                let sql =
                    "SELECT slot_name FROM pg_replication_slots WHERE slot_name = '".to_string().concat(
                self.config.slot_name.as_str()).concat("';");
                self.go_on(verdict, ServerPhase::CheckingSlot, ServerAction::Query { sql })
            },
            ServerPhase::CheckingSlot => {
                let verdict = self.check_replication_slot(result);
                let sql = "SELECT * FROM pg_publication WHERE pubname = '".to_string().concat(
                    self.config.publication_name.as_str(),
                ).concat("';");
                self.go_on(verdict, ServerPhase::CheckingPublication, ServerAction::Query { sql })
            },
            ServerPhase::CheckingPublication => match self.check_publication(result) {
                Ok(_) => self.start_replication(),
                Err(e) => self.finish(Err(e)),
            },
            _ => {
                let verdict = self.check_started(result);
                self.go_on(verdict, ServerPhase::Turning, ServerAction::Look)
            },
        }
    }

    fn process_feedback(&mut self, result: ReplicationResult<()>, now: u64) -> (action:
        ServerAction)
        requires
            old(self)@.expects(ServerEventView::FeedbackSent(completion(result), now)),
        ensures
            (final(self)@, action@) == old(self)@.on_feedback(completion(result), now),
            final(self).sink() == old(self).sink(),
    {
        match self.phase {
            ServerPhase::Reporting => match result {
                Ok(_) => {
                    self.state.update_feedback_time(now);
                    self.go_to(ServerPhase::Receiving, ServerAction::Receive)
                },
                Err(e) => self.finish(Err(e)),
            },
            ServerPhase::Answering => self.go_on(
                result,
                ServerPhase::AnswerFlushing,
                ServerAction::Flush,
            ),
            ServerPhase::Confirming => self.go_on(
                result,
                ServerPhase::Rechecking,
                ServerAction::Look,
            ),
            _ => self.go_to(ServerPhase::ClosingFlush, ServerAction::Flush),
        }
    }

    fn process_delivered(&mut self, result: ReplicationResult<()>) -> (action: ServerAction)
        ensures
            (final(self)@, action@) == old(self)@.on_delivered(completion(result)),
            final(self).sink() == old(self).sink(),
    {
        match result {
            Ok(_) => self.apply_received(),
            Err(e) => {
                let message = "Event sink failed: ".to_string().concat(e.to_text().as_str());
                self.finish(Err(ReplicationError::Protocol { message }))
            },
        }
    }

    /// Takes note of an event, and decides what to do next.
    pub fn step(&mut self, event: ServerEvent) -> (action: ServerAction)
        requires
            old(self)@.expects(event@),
        ensures
            (final(self)@, action@) == old(self)@.step(event@),
            final(self).sink() == old(self).sink(),
            old(self)@.well_formed() ==> final(self)@.well_formed(),
    {
        match event {
            ServerEvent::Queried(result) => self.process_queried(result),
            ServerEvent::Looked { shutdown, now } => {
                if shutdown {
                    self.perform_graceful_shutdown()
                } else if self.phase == ServerPhase::Turning {
                    self.check_and_send_feedback(now)
                } else {
                    self.turn()
                }
            },
            ServerEvent::FeedbackSent { result, now } => self.process_feedback(result, now),
            ServerEvent::Received(received) => self.process_received(received),
            ServerEvent::Slept => self.turn(),
            ServerEvent::Flushed(result) => {
                if self.phase == ServerPhase::ClosingFlush {
                    self.finish(Ok(()))
                } else {
                    self.go_on(result, ServerPhase::Turning, ServerAction::Look)
                }
            },
            ServerEvent::Delivered(result) => self.process_delivered(result),
        }
    }
}

/// Whether an answer is expected exactly if it answers what was asked for, and
/// nothing was asked for exactly if the run is over.
pub open spec fn in_step(
    next: (ServerView, ServerActionView),
    answer: ServerEventView,
) -> bool {
    &&& next.0.expects(answer) <==> answers(next.1, answer)
    &&& next.1 is Finish <==> next.0.phase is Ended
}

proof fn lemma_message_in_step(
    server: ServerView,
    message: MessageView,
    answer: ServerEventView,
)
    ensures
        in_step(server.on_message(message), answer),
{
}

proof fn lemma_wal_in_step(server: ServerView, data: Seq<u8>, answer: ServerEventView)
    ensures
        in_step(server.on_wal(data), answer),
{
    if let Ok(wal) = xlog_data(data) {
        if let Ok(message) = parsed_message(wal.data, server.in_stream) {
            lemma_message_in_step(server.on_position(wal.data_start), message, answer);
        }
    }
}

proof fn lemma_received_in_step(
    server: ServerView,
    received: Result<Option<Seq<u8>>, ErrorView>,
    answer: ServerEventView,
)
    ensures
        in_step(server.on_received(received), answer),
{
    if let Ok(Some(data)) = received {
        lemma_wal_in_step(server, data, answer);
        assert(in_step(server.on_keepalive(data), answer));
    }
}

proof fn lemma_queried_in_step(server: ServerView, queried: Queried, answer: ServerEventView)
    ensures
        in_step(server.on_queried(queried), answer),
{
}

proof fn lemma_feedback_in_step(
    server: ServerView,
    result: Result<(), ErrorView>,
    now: u64,
    answer: ServerEventView,
)
    ensures
        in_step(server.on_feedback(result, now), answer),
{
}

/// Whatever is asked for, its answer is what the server expects next, and once
/// the run is over nothing is.
#[verifier::spinoff_prover]
pub proof fn law_every_answer_is_expected(
    server: ServerView,
    event: ServerEventView,
    answer: ServerEventView,
)
    requires
        server.expects(event),
    ensures
        ({
            let (next, action) = server.step(event);
            &&& next.expects(answer) <==> answers(action, answer)
            &&& action is Finish <==> next.phase is Ended
        }),
{
    match event {
        ServerEventView::Queried(queried) => {
            lemma_queried_in_step(server, queried, answer);
        },
        ServerEventView::FeedbackSent(result, now) => {
            lemma_feedback_in_step(server, result, now, answer);
        },
        ServerEventView::Received(received) => {
            lemma_received_in_step(server, received, answer);
        },
        _ => {},
    }
    assert(in_step(server.step(event), answer));
}

/// A position counts as applied only after the sink has taken a message, or when
/// there is no sink, and then all that has been received counts. Feedback never
/// claims more than that: what is applied has been received.
#[verifier::spinoff_prover]
pub proof fn law_applied_only_when_delivered(server: ServerView, event: ServerEventView)
    requires
        server.expects(event),
        server.well_formed(),
    ensures
        ({
            let next = server.step(event).0;
            &&& next.well_formed()
            &&& next.state.applied_lsn != server.state.applied_lsn ==> {
                &&& server.has_sink ==> (event matches ServerEventView::Delivered(Ok(_)))
                &&& next.state.applied_lsn == next.state.received_lsn
            }
            &&& event matches ServerEventView::Delivered(Ok(_)) ==> next.state.applied_lsn
                == server.state.received_lsn
        }),
{
}

/// Neither position ever moves back, and neither the configuration nor the sink
/// changes. The received position moves only with a message of the log.
#[verifier::spinoff_prover]
pub proof fn law_the_server_only_advances(server: ServerView, event: ServerEventView)
    ensures
        ({
            let next = server.step(event).0;
            &&& next.config == server.config
            &&& next.has_sink == server.has_sink
            &&& next.state.received_lsn >= server.state.received_lsn
            &&& next.state.applied_lsn >= server.state.applied_lsn
            &&& next.state.received_lsn != server.state.received_lsn ==> {
                &&& event matches ServerEventView::Received(Ok(Some(data)))
                &&& data[0] == 'w' as u8
                &&& xlog_data(data) matches Ok(wal)
                &&& next.state.received_lsn == wal.data_start
            }
        }),
{
}

/// A message that the sink does not take ends the run with an error that says
/// why, and it does not count as applied: it is sent again after a reconnect.
pub proof fn law_a_refused_message_is_not_applied(server: ServerView, error: ErrorView)
    ensures
        server.step(ServerEventView::Delivered(Err(error))) == (
            server.in_phase(ServerPhase::Ended),
            ServerActionView::Finish(
                Err(ErrorView::Protocol("Event sink failed: "@ + error.text())),
            ),
        ),
{
}

/// Once a shutdown is seen, the server sends its feedback, flushes the
/// connection and ends without an error, whatever comes of the two.
pub proof fn law_a_shutdown_ends_the_run(
    server: ServerView,
    now: u64,
    sent: Result<(), ErrorView>,
    then: u64,
    flushed: Result<(), ErrorView>,
)
    requires
        server.phase is Turning || server.phase is Rechecking,
    ensures
        ({
            let (closing, report) = server.step(ServerEventView::Looked(true, now));
            let (flushing, flush) = closing.step(ServerEventView::FeedbackSent(sent, then));
            let (ended, end) = flushing.step(ServerEventView::Flushed(flushed));
            &&& report == ServerActionView::SendFeedback
            &&& closing.state == server.state
            &&& flush == ServerActionView::Flush
            &&& end == ServerActionView::Finish(Ok(()))
            &&& ended == server.in_phase(ServerPhase::Ended)
        }),
{
}

/// From whatever state the setup is started, the `wal_level`, the slot and the
/// publication are checked in this order, and the stream is asked for only after
/// all three. A check that is refused ends the run with its error, and nothing
/// more is asked for. Nothing is created: the four queries are all there is.
#[verifier::spinoff_prover]
pub proof fn law_the_setup_checks_in_order(
    server: ServerView,
    wal_level: Queried,
    slot: Queried,
    publication: Queried,
    started: Queried,
)
    ensures
        ({
            let config = server.config;
            let (s1, a1) = server.setup();
            let (s2, a2) = s1.step(ServerEventView::Queried(wal_level));
            let (s3, a3) = s2.step(ServerEventView::Queried(slot));
            let (s4, a4) = s3.step(ServerEventView::Queried(publication));
            let (s5, a5) = s4.step(ServerEventView::Queried(started));
            &&& a1 == ServerActionView::Query(wal_level_sql())
            &&& if wal_level_verdict(wal_level) is Err {
                &&& a2 == ServerActionView::Finish(wal_level_verdict(wal_level))
                &&& s2.phase is Ended
            } else {
                &&& a2 == ServerActionView::Query(slot_sql(config))
                &&& if slot_verdict(config, slot) is Err {
                    &&& a3 == ServerActionView::Finish(slot_verdict(config, slot))
                    &&& s3.phase is Ended
                } else {
                    &&& a3 == ServerActionView::Query(publication_sql(config))
                    &&& if publication_verdict(config, publication) is Err {
                        &&& a4 == ServerActionView::Finish(
                            publication_verdict(config, publication),
                        )
                        &&& s4.phase is Ended
                    } else {
                        &&& a4 == ServerActionView::Query(start_sql(config))
                        &&& if start_verdict(started) is Err {
                            &&& a5 == ServerActionView::Finish(start_verdict(started))
                            &&& s5.phase is Ended
                        } else {
                            (s5, a5) == (
                                server.setup().0.in_phase(ServerPhase::Turning),
                                ServerActionView::Look,
                            )
                        }
                    }
                }
            }
        }),
{
}

/// The identification comes before the setup; if it is refused, it ends the run
/// with its error. Neither it nor the setup changes what is known of the stream.
pub proof fn law_the_identification_comes_before_the_setup(
    server: ServerView,
    identified: Queried,
)
    requires
        server.phase is Identifying,
    ensures
        server.step(ServerEventView::Queried(identified)) == (match identify_verdict(identified) {
            Ok(_) => server.setup(),
            Err(e) => (
                server.in_phase(ServerPhase::Ended),
                ServerActionView::Finish(Err(e)),
            ),
        }),
        server.setup().0.state == server.state,
        server.setup().0.config == server.config,
        server.setup().0.has_sink == server.has_sink,
{
}

/// Feedback on schedule is sent exactly if more than the interval has passed
/// since the last time, and its time is remembered only once it has been sent.
pub proof fn law_feedback_is_sent_on_schedule(
    server: ServerView,
    now: u64,
    sent: Result<(), ErrorView>,
    then: u64,
)
    requires
        server.phase is Turning,
    ensures
        ({
            let (next, action) = server.step(ServerEventView::Looked(false, now));
            &&& action is SendFeedback <==> now - server.state.last_feedback_time
                > server.config.feedback_interval_secs * 1_000_000_000
            &&& action is SendFeedback ==> {
                let (after, receive) = next.step(ServerEventView::FeedbackSent(sent, then));
                match sent {
                    Ok(_) => {
                        &&& receive == ServerActionView::Receive
                        &&& after.state == server.state.report(then)
                    },
                    Err(e) => {
                        &&& receive == ServerActionView::Finish(Err(e))
                        &&& after.state == server.state
                    },
                }
            }
            &&& !(action is SendFeedback) ==> action == ServerActionView::Receive
        }),
{
}

/// Every message of the log that can be read goes to the sink, and feedback
/// follows once the sink has taken it.
#[verifier::spinoff_prover]
pub proof fn law_every_message_reaches_the_sink(
    server: ServerView,
    data: Seq<u8>,
    wal: XLogDataView,
    message: MessageView,
)
    requires
        server.phase is Receiving,
        server.has_sink,
        data.len() > 0,
        data[0] == 'w' as u8,
        xlog_data(data) == Ok::<XLogDataView, ErrorView>(wal),
        wal.data.len() > 0,
        parsed_message(wal.data, server.in_stream) == Ok::<MessageView, ErrorView>(message),
    ensures
        ({
            let (delivering, action) = server.step(ServerEventView::Received(Ok(Some(data))));
            let (confirming, report) = delivering.step(ServerEventView::Delivered(Ok(())));
            &&& action == ServerActionView::Deliver(message)
            &&& report == ServerActionView::SendFeedback
            &&& delivering.state.received_lsn >= wal.data_start
            &&& confirming.state.applied_lsn >= wal.data_start
        }),
{
}

/// Whether a server can be told the given events, one after the other.
pub open spec fn can_be_told(server: ServerView, events: Seq<ServerEventView>) -> bool
    decreases events.len(),
{
    events.len() == 0 || {
        &&& server.expects(events[0])
        &&& can_be_told(server.step(events[0]).0, events.skip(1))
    }
}

/// The server once it has been told the given events.
pub open spec fn after_events(server: ServerView, events: Seq<ServerEventView>) -> ServerView
    decreases events.len(),
{
    if events.len() == 0 {
        server
    } else {
        after_events(server.step(events[0]).0, events.skip(1))
    }
}

/// In a run in which the sink has taken no message yet, nothing counts as
/// applied, whatever else has happened.
pub proof fn law_nothing_is_confirmed_without_a_delivery(
    config: ConfigView,
    events: Seq<ServerEventView>,
)
    requires
        can_be_told(
            ServerView::initial(config, true).in_phase(ServerPhase::Identifying),
            events,
        ),
        forall|i: int|
            0 <= i < events.len() ==> !(#[trigger] events[i] matches ServerEventView::Delivered(
                Ok(_),
            )),
    ensures
        after_events(
            ServerView::initial(config, true).in_phase(ServerPhase::Identifying),
            events,
        ).state.applied_lsn == 0,
{
    lemma_applied_stays(
        ServerView::initial(config, true).in_phase(ServerPhase::Identifying),
        events,
    );
}

proof fn lemma_applied_stays(server: ServerView, events: Seq<ServerEventView>)
    requires
        can_be_told(server, events),
        server.well_formed(),
        server.has_sink,
        forall|i: int|
            0 <= i < events.len() ==> !(#[trigger] events[i] matches ServerEventView::Delivered(
                Ok(_),
            )),
    ensures
        after_events(server, events).state.applied_lsn == server.state.applied_lsn,
    decreases events.len(),
{
    if events.len() > 0 {
        let event = events[0];
        let rest = events.skip(1);
        assert(!(event matches ServerEventView::Delivered(Ok(_))));
        law_applied_only_when_delivered(server, event);
        law_the_server_only_advances(server, event);
        assert forall|i: int| 0 <= i < rest.len() implies !(#[trigger] rest[i] matches
            ServerEventView::Delivered(Ok(_))) by {
            assert(rest[i] == events[i + 1]);
        }
        lemma_applied_stays(server.step(event).0, rest);
    }
}

/// The name of the slot of a valid configuration stays inside the quotes that it
/// is put in.
pub proof fn law_slot_name_stays_in_its_literal(config: ConfigView)
    requires
        config.well_formed(),
    ensures
        exists|literal: Seq<char>|
            {
                &&& slot_sql(config)
                    == "SELECT slot_name FROM pg_replication_slots WHERE slot_name = '"@ + literal
                &&& #[trigger] read_literal(literal) == Some((config.slot_name, ";"@))
            },
{
    reveal_strlit("';");
    reveal_strlit(";");
    assert("';"@ == seq!['\''] + ";"@);
    lemma_unquoted_text_reads_as_it_is(config.slot_name, ";"@);
    let literal = config.slot_name + seq!['\''] + ";"@;
    assert(slot_sql(config)
        == "SELECT slot_name FROM pg_replication_slots WHERE slot_name = '"@ + literal);
}

proof fn lemma_unquoted_text_reads_as_it_is(text: Seq<char>, rest: Seq<char>)
    requires
        forall|i: int| 0 <= i < text.len() ==> identifier_char(#[trigger] text[i]),
        rest.len() > 0 ==> rest[0] != '\'',
    ensures
        read_literal(text + seq!['\''] + rest) == Some((text, rest)),
    decreases text.len(),
{
    let sql = text + seq!['\''] + rest;
    if text.len() == 0 {
        assert(sql == seq!['\''] + rest);
        assert(sql.skip(1) == rest);
        assert(text == Seq::<char>::empty());
    } else {
        let tail = text.skip(1);
        assert(identifier_char(text[0]));
        assert forall|i: int| 0 <= i < tail.len() implies identifier_char(#[trigger] tail[i]) by {
            assert(tail[i] == text[i + 1]);
        }
        lemma_unquoted_text_reads_as_it_is(tail, rest);
        assert(sql.skip(1) == tail + seq!['\''] + rest);
        assert(sql[0] == text[0]);
        assert(seq![text[0]] + tail == text);
    }
}

/// The identification lets the server go on exactly if an answer came and the
/// connection takes it for successful.
#[verifier::spinoff_prover]
pub proof fn law_when_the_identification_passes(server: ServerView, queried: Queried)
    requires
        server.phase is Identifying,
    ensures
        ({
            let (next, action) = server.step(ServerEventView::Queried(queried));
            if queried matches Ok(result) && result.ok {
                next.phase is CheckingWalLevel && action == ServerActionView::Query(
                    "SHOW wal_level;"@,
                )
            } else {
                &&& next.phase is Ended
                &&& action == ServerActionView::Finish(
                    Err(
                        ErrorView::Protocol(
                            "IDENTIFY_SYSTEM failed: "@ + (match queried {
                                Ok(result) => result.status.name(),
                                Err(e) => e.text(),
                            }),
                        ),
                    ),
                )
            }
        }),
{
}

/// The `wal_level` lets the server go on exactly if a successful answer came whose
/// first value is `logical`.
#[verifier::spinoff_prover]
pub proof fn law_when_the_wal_level_passes(server: ServerView, queried: Queried)
    requires
        server.phase is CheckingWalLevel,
    ensures
        ({
            let (next, action) = server.step(ServerEventView::Queried(queried));
            if queried matches Ok(result) && result.ok && result.value == Some("logical"@) {
                next.phase is CheckingSlot && action == ServerActionView::Query(
                    "SELECT slot_name FROM pg_replication_slots WHERE slot_name = '"@
                        + server.config.slot_name + "';"@,
                )
            } else {
                &&& next.phase is Ended
                &&& action == ServerActionView::Finish(
                    Err(
                        match queried {
                            Err(e) => e,
                            Ok(result) => ErrorView::Protocol(
                                if !result.ok {
                                    "Failed to check wal_level"@
                                } else if result.value is None {
                                    "Could not retrieve wal_level value"@
                                } else {
                                    "wal_level is not set to 'logical'. Please set wal_level to 'logical' in postgresql.conf and restart the PostgreSQL server."@
                                },
                            ),
                        },
                    ),
                )
            }
        }),
{
}

/// The slot lets the server go on exactly if a successful answer came that has a row.
#[verifier::spinoff_prover]
pub proof fn law_when_the_slot_passes(server: ServerView, queried: Queried)
    requires
        server.phase is CheckingSlot,
    ensures
        ({
            let (next, action) = server.step(ServerEventView::Queried(queried));
            let slot = server.config.slot_name;
            if queried matches Ok(result) && result.ok && result.ntuples != 0 {
                next.phase is CheckingPublication && action == ServerActionView::Query(
                    "SELECT * FROM pg_publication WHERE pubname = '"@
                        + server.config.publication_name + "';"@,
                )
            } else {
                &&& next.phase is Ended
                &&& action == ServerActionView::Finish(
                    Err(
                        match queried {
                            Err(e) => e,
                            Ok(result) => ErrorView::Protocol(
                                if !result.ok {
                                    "Failed to check existing replication slots: "@
                                        + result.status.name()
                                } else {
                                    "Replication slot '"@ + slot
                                        + "' does not exist. Please create it manually using the following SQL command:\n\nCREATE_REPLICATION_SLOT \""@
                                        + slot + "\" LOGICAL pgoutput NOEXPORT_SNAPSHOT;\n"@
                                },
                            ),
                        },
                    ),
                )
            }
        }),
{
}

/// The publication lets the server go on exactly if a successful answer came that has
/// a row.
#[verifier::spinoff_prover]
pub proof fn law_when_the_publication_passes(server: ServerView, queried: Queried)
    requires
        server.phase is CheckingPublication,
    ensures
        ({
            let (next, action) = server.step(ServerEventView::Queried(queried));
            let publication = server.config.publication_name;
            if queried matches Ok(result) && result.ok && result.ntuples != 0 {
                next.phase is Starting && action == ServerActionView::Query(
                    "START_REPLICATION SLOT \""@ + server.config.slot_name
                        + "\" LOGICAL 0/0 (proto_version '2', streaming 'on', publication_names '"@
                        + publication + "');"@,
                )
            } else {
                &&& next.phase is Ended
                &&& action == ServerActionView::Finish(
                    Err(
                        match queried {
                            Err(e) => e,
                            Ok(result) => ErrorView::Protocol(
                                if !result.ok {
                                    "Failed to check existing publications: "@
                                        + result.status.name()
                                } else {
                                    "Publication '"@ + publication
                                        + "' does not exist. Please create it manually using the following SQL command:\n\nCREATE PUBLICATION \""@
                                        + publication
                                        + "\" FOR TABLE <your_table_name>;\n\nor\n\nCREATE PUBLICATION \""@
                                        + publication
                                        + "\" FOR ALL TABLES;\n\ndepending on your configuration."@
                                },
                            ),
                        },
                    ),
                )
            }
        }),
{
}

/// The loop is entered exactly if an answer came to the request for the stream and its
/// status is that of a stream in both directions, whatever else the answer holds.
#[verifier::spinoff_prover]
pub proof fn law_when_the_stream_has_started(server: ServerView, queried: Queried)
    requires
        server.phase is Starting,
    ensures
        ({
            let (next, action) = server.step(ServerEventView::Queried(queried));
            if queried matches Ok(result) && result.status is CopyBoth {
                next == server.in_phase(ServerPhase::Turning) && action is Look
            } else {
                &&& next.phase is Ended
                &&& action == ServerActionView::Finish(
                    Err(
                        match queried {
                            Err(e) => e,
                            Ok(result) => ErrorView::Protocol(
                                "Failed to start replication: "@ + result.status.name(),
                            ),
                        },
                    ),
                )
            }
        }),
{
}

/// The answer to a query changes nothing that is known of the stream, nor the
/// configuration or the sink.
pub proof fn law_checks_change_no_state(server: ServerView, queried: Queried)
    ensures
        ({
            let next = server.step(ServerEventView::Queried(queried)).0;
            &&& next.state == server.state
            &&& next.config == server.config
            &&& next.has_sink == server.has_sink
        }),
        server.setup().0.phase is CheckingWalLevel,
        !server.setup().0.in_stream,
        identify_sql() == "IDENTIFY_SYSTEM"@,
{
}

/// Statuses have the names that the client library of PostgreSQL gives them.
pub proof fn law_statuses_have_names()
    ensures
        ExecStatus::EmptyQuery.name() == "PGRES_EMPTY_QUERY"@,
        ExecStatus::CommandOk.name() == "PGRES_COMMAND_OK"@,
        ExecStatus::TuplesOk.name() == "PGRES_TUPLES_OK"@,
        ExecStatus::CopyOut.name() == "PGRES_COPY_OUT"@,
        ExecStatus::CopyIn.name() == "PGRES_COPY_IN"@,
        ExecStatus::BadResponse.name() == "PGRES_BAD_RESPONSE"@,
        ExecStatus::NonfatalError.name() == "PGRES_NONFATAL_ERROR"@,
        ExecStatus::FatalError.name() == "PGRES_FATAL_ERROR"@,
        ExecStatus::CopyBoth.name() == "PGRES_COPY_BOTH"@,
        ExecStatus::SingleTuple.name() == "PGRES_SINGLE_TUPLE"@,
        ExecStatus::PipelineSync.name() == "PGRES_PIPELINE_SYNC"@,
        ExecStatus::PipelineAborted.name() == "PGRES_PIPELINE_ABORTED"@,
{
}

/// A keepalive message changes nothing. It is answered with feedback exactly if it
/// asks for that, and ends the run exactly if it is shorter than 18 bytes.
#[verifier::spinoff_prover]
pub proof fn law_keepalive_messages_are_answered_if_asked_for(server: ServerView, data: Seq<u8>)
    requires
        server.phase is Receiving,
        data.len() > 0,
        data[0] == 'k' as u8,
    ensures
        ({
            let (next, action) = server.step(ServerEventView::Received(Ok(Some(data))));
            &&& next == server.in_phase(next.phase)
            &&& if data.len() < 18 {
                next.phase is Ended && action == ServerActionView::Finish(
                    Err(ErrorView::Protocol("Keepalive message too short"@)),
                )
            } else if data[17] != 0 {
                next.phase is Answering && action is SendFeedback
            } else {
                next.phase is Turning && action is Look
            }
        }),
{
    law_where_the_parts_of_a_message_stand(data);
}

/// Without a message the server waits for ten milliseconds; an empty message, and one
/// of an unknown type, is passed over; a broken connection ends the run. None of these
/// changes anything else.
#[verifier::spinoff_prover]
pub proof fn law_what_is_passed_over(server: ServerView, data: Seq<u8>, error: ErrorView)
    requires
        server.phase is Receiving,
        data.len() > 0 ==> data[0] != 'k' as u8 && data[0] != 'w' as u8,
    ensures
        server.step(ServerEventView::Received(Ok(None))) == (
            server.in_phase(ServerPhase::Pausing),
            ServerActionView::Sleep(10),
        ),
        server.step(ServerEventView::Received(Ok(Some(data)))) == (
            server.in_phase(ServerPhase::Turning),
            ServerActionView::Look,
        ),
        server.step(ServerEventView::Received(Err(error))) == (
            server.in_phase(ServerPhase::Ended),
            ServerActionView::Finish(Err(error)),
        ),
{
}

/// A message of the log moves the received position forward to the one that it starts
/// at, if that is greater. Its data are read as a message; a relation is remembered,
/// and the message goes to the sink, or counts as applied if there is none. A message
/// that is cut off, that has no data, or that cannot be read, ends the run.
#[verifier::spinoff_prover]
pub proof fn law_what_is_done_with_the_log(server: ServerView, data: Seq<u8>)
    requires
        server.phase is Receiving,
        data.len() > 0,
        data[0] == 'w' as u8,
    ensures
        ({
            let (next, action) = server.step(ServerEventView::Received(Ok(Some(data))));
            let start = be_value(data.subrange(1, 9));
            let body = data.subrange(25, data.len() as int);
            &&& data.len() < 25 ==> next == server.in_phase(ServerPhase::Ended) && action
                == ServerActionView::Finish(
                Err(ErrorView::Protocol("XLogData message too short"@)),
            )
            &&& data.len() == 25 ==> next == server.in_phase(ServerPhase::Ended) && action
                == ServerActionView::Finish(Err(ErrorView::Protocol("WAL message has no data"@)))
            &&& data.len() > 25 ==> {
                &&& next.state.received_lsn == (if start > server.state.received_lsn {
                    start as int
                } else {
                    server.state.received_lsn as int
                })
                &&& next.state.last_feedback_time == server.state.last_feedback_time
                &&& next.config == server.config
                &&& next.has_sink == server.has_sink
                &&& match parsed_message(body, server.in_stream) {
                    Err(e) => {
                        &&& next.phase is Ended
                        &&& action == ServerActionView::Finish(Err(e))
                        &&& next.state.relations == server.state.relations
                        &&& next.state.applied_lsn == server.state.applied_lsn
                    },
                    Ok(message) => {
                        &&& next.in_stream == in_stream_after(message, server.in_stream)
                        &&& next.state.relations == (match message {
                            MessageView::Relation(relation) => server.state.relations.insert(
                                relation.oid,
                                relation,
                            ),
                            _ => server.state.relations,
                        })
                        &&& if server.has_sink {
                            &&& next.phase is Delivering
                            &&& action == ServerActionView::Deliver(message)
                            &&& next.state.applied_lsn == server.state.applied_lsn
                        } else {
                            &&& next.phase is Confirming
                            &&& action is SendFeedback
                            &&& next.state.applied_lsn == (if next.state.received_lsn
                                > server.state.applied_lsn {
                                next.state.received_lsn
                            } else {
                                server.state.applied_lsn
                            })
                        }
                    },
                }
            }
        }),
{
    law_where_the_parts_of_a_message_stand(data);
    if data.len() >= 25 {
        let wal = xlog_data(data)->Ok_0;
        law_the_greatest_position_counts(server.state, wal.data_start);
    }
}

/// A message that the sink has taken counts as applied, with all that was received
/// before it, and feedback says so. Nothing else changes.
pub proof fn law_what_is_delivered_is_confirmed(server: ServerView)
    requires
        server.well_formed(),
    ensures
        ({
            let (next, action) = server.step(ServerEventView::Delivered(Ok(())));
            &&& action is SendFeedback
            &&& next.phase is Confirming
            &&& next.state.applied_lsn == server.state.received_lsn
            &&& next.state.received_lsn == server.state.received_lsn
            &&& next.state.relations == server.state.relations
            &&& next.state.last_feedback_time == server.state.last_feedback_time
            &&& next.in_stream == server.in_stream
        }),
        server.well_formed() <==> server.state.applied_lsn <= server.state.received_lsn,
{
}

/// The steps of the loop that only lead on: after feedback that was asked for comes a
/// flush, and then another turn; after feedback on a message of the log comes another
/// look at the shutdown signal, and then another turn; after a wait comes another
/// turn. Feedback or a flush that fails in these places ends the run with its error.
#[verifier::spinoff_prover]
pub proof fn law_how_the_loop_goes_on(server: ServerView, now: u64, error: ErrorView)
    ensures
        server.phase is Answering ==> {
            &&& server.step(ServerEventView::FeedbackSent(Ok(()), now)) == (
                server.in_phase(ServerPhase::AnswerFlushing),
                ServerActionView::Flush,
            )
            &&& server.step(ServerEventView::FeedbackSent(Err(error), now)) == (
                server.in_phase(ServerPhase::Ended),
                ServerActionView::Finish(Err(error)),
            )
        },
        server.phase is AnswerFlushing ==> {
            &&& server.step(ServerEventView::Flushed(Ok(()))) == (
                server.in_phase(ServerPhase::Turning),
                ServerActionView::Look,
            )
            &&& server.step(ServerEventView::Flushed(Err(error))) == (
                server.in_phase(ServerPhase::Ended),
                ServerActionView::Finish(Err(error)),
            )
        },
        server.phase is Confirming ==> {
            &&& server.step(ServerEventView::FeedbackSent(Ok(()), now)) == (
                server.in_phase(ServerPhase::Rechecking),
                ServerActionView::Look,
            )
            &&& server.step(ServerEventView::FeedbackSent(Err(error), now)) == (
                server.in_phase(ServerPhase::Ended),
                ServerActionView::Finish(Err(error)),
            )
        },
        server.phase is Rechecking ==> server.step(ServerEventView::Looked(false, now)) == (
            server.in_phase(ServerPhase::Turning),
            ServerActionView::Look,
        ),
        server.phase is Pausing ==> server.step(ServerEventView::Slept) == (
            server.in_phase(ServerPhase::Turning),
            ServerActionView::Look,
        ),
{
}

/// A look before a message changes nothing but where the server stands.
pub proof fn law_a_look_changes_nothing_else(server: ServerView, shutdown: bool, now: u64)
    ensures
        ({
            let next = server.step(ServerEventView::Looked(shutdown, now)).0;
            next == server.in_phase(next.phase)
        }),
        server.in_phase(ServerPhase::Ended) == (ServerView { phase: ServerPhase::Ended, ..server }),
        server.in_phase(ServerPhase::Turning) == (ServerView {
            phase: ServerPhase::Turning,
            ..server
        }),
{
}

/// A new server has received nothing and asked for nothing.
pub proof fn law_a_new_server_knows_nothing(config: ConfigView, has_sink: bool)
    ensures
        ServerView::initial(config, has_sink).config == config,
        ServerView::initial(config, has_sink).has_sink == has_sink,
        ServerView::initial(config, has_sink).state.received_lsn == 0,
        ServerView::initial(config, has_sink).state.applied_lsn == 0,
        ServerView::initial(config, has_sink).state.last_feedback_time == 0,
        ServerView::initial(config, has_sink).phase is Connected,
        !ServerView::initial(config, has_sink).in_stream,
{
}

/// The view of an answer leaves nothing out.
pub proof fn law_answers_are_seen_whole(result: QueryResult)
    ensures
        result@.ok == result.ok,
        result@.status == result.status,
        result@.ntuples == result.ntuples,
        result@.value == (match result.value {
            Some(text) => Some(text@),
            None => None,
        }),
{
}

/// The views of what the server is told and of what it asks for leave nothing out.
pub proof fn law_events_and_actions_are_seen_whole(
    data: Vec<u8>,
    error: ReplicationError,
    sql: String,
    message: ReplicationMessage,
    millis: u64,
    now: u64,
    shutdown: bool,
)
    ensures
        ServerEvent::Queried(Err(error))@ == ServerEventView::Queried(Err(error@)),
        (ServerEvent::Looked { shutdown, now })@ == ServerEventView::Looked(shutdown, now),
        (ServerEvent::FeedbackSent { result: Err(error), now })@ == ServerEventView::FeedbackSent(
            Err(error@),
            now,
        ),
        (ServerEvent::FeedbackSent { result: Ok(()), now })@ == ServerEventView::FeedbackSent(
            Ok(()),
            now,
        ),
        ServerEvent::Received(Ok(Some(data)))@ == ServerEventView::Received(Ok(Some(data@))),
        ServerEvent::Received(Ok(None))@ == ServerEventView::Received(Ok(None)),
        ServerEvent::Received(Err(error))@ == ServerEventView::Received(Err(error@)),
        ServerEvent::Slept@ == ServerEventView::Slept,
        ServerEvent::Flushed(Ok(()))@ == ServerEventView::Flushed(Ok(())),
        ServerEvent::Flushed(Err(error))@ == ServerEventView::Flushed(Err(error@)),
        ServerEvent::Delivered(Ok(()))@ == ServerEventView::Delivered(Ok(())),
        ServerEvent::Delivered(Err(error))@ == ServerEventView::Delivered(Err(error@)),
        (ServerAction::Query { sql })@ == ServerActionView::Query(sql@),
        (ServerAction::Deliver { message })@ == ServerActionView::Deliver(message@),
        (ServerAction::Sleep { millis })@ == ServerActionView::Sleep(millis),
        ServerAction::Finish(Ok(()))@ == ServerActionView::Finish(Ok(())),
        ServerAction::Finish(Err(error))@ == ServerActionView::Finish(Err(error@)),
{
}

/// The view of a server leaves out nothing but the sink, of which it has whether there is
/// one.
proof fn law_a_server_is_seen_whole<S>(server: ReplicationServer<S>)
    ensures
        server@.config == server.config@,
        server@.state == server.state@,
        server@.has_sink <==> server.event_sink is Some,
        server.sink() == server.event_sink,
        server@.in_stream == server.in_stream,
        server@.phase == server.phase,
        ServerAction::Look@ == ServerActionView::Look,
        ServerAction::SendFeedback@ == ServerActionView::SendFeedback,
        ServerAction::Receive@ == ServerActionView::Receive,
        ServerAction::Flush@ == ServerActionView::Flush,
{
}

/// A server in another phase, or in another state, is the same otherwise.
pub proof fn law_a_phase_is_all_that_changes(server: ServerView, phase: ServerPhase, state: StateView)
    ensures
        server.in_phase(phase).phase == phase,
        server.in_phase(phase).config == server.config,
        server.in_phase(phase).state == server.state,
        server.in_phase(phase).has_sink == server.has_sink,
        server.in_phase(phase).in_stream == server.in_stream,
        server.in_state(state).state == state,
        server.in_state(state).config == server.config,
        server.in_state(state).phase == server.phase,
        server.in_state(state).has_sink == server.has_sink,
        server.in_state(state).in_stream == server.in_stream,
{
}

} // verus!
