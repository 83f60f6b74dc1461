//! The Hook0 event sink: which events are sent, what is sent of them, and which
//! are left out for a while because the API does not know their type.

use vstd::prelude::*;

use crate::column::ColumnView;
use crate::decoder::{DecoderView, ReplicationEventDecoder};
use crate::delivery::{ActionView, Delivery, DeliveryAction, OutcomeView, SendResponse};
use crate::email::{
    compose_notification, email_address, email_option, notification_plan, EmailConfig,
    EmailConfigView, NotificationPlan, PlanView,
};
use crate::errors::{outcome, text_option, ErrorView, ReplicationError};
use crate::event_history::{delivery_record, EventHistoryRecord, RecordView};
use crate::event_row::{event_of, parse_event_row, EventTableRow, EventView};
use crate::hook0_error::Hook0ErrorId;
use crate::ids::Uuid;
use crate::json::{law_all_strings_of_an_object, pairs_view, string_members};
use crate::messages::{MessageView, ReplicationMessage};
use crate::text_map::{distinct_keys, inserted, law_insert, law_remove, lookup, removed, TextMap};
use crate::time::Timestamp;

verus! {

/// How to reach the Hook0 API.
#[derive(Debug)]
pub struct Hook0EventSinkConfig {
    /// The URL of the API.
    pub api_url: String,
    /// The application that the events are of.
    pub application_id: Uuid,
    /// The token that grants access.
    pub api_token: String,
}

/// An event as it is sent to the Hook0 API.
#[derive(Debug)]
pub struct Hook0Event {
    pub event_id: Uuid,
    pub event_type: String,
    pub payload: String,
    pub payload_content_type: String,
    pub metadata: Vec<(String, String)>,
    pub occurred_at: Timestamp,
    pub labels: Vec<(String, String)>,
}

/// A [`Hook0Event`] as a mathematical value.
pub struct Hook0EventView {
    pub event_id: u128,
    pub event_type: Seq<char>,
    pub payload: Seq<char>,
    pub payload_content_type: Seq<char>,
    pub metadata: Seq<(Seq<char>, Seq<char>)>,
    pub occurred_at: (i64, u32),
    pub labels: Seq<(Seq<char>, Seq<char>)>,
}

impl View for Hook0Event {
    type V = Hook0EventView;

    open spec fn view(&self) -> Hook0EventView {
        Hook0EventView {
            event_id: self.event_id.bits,
            event_type: self.event_type@,
            payload: self.payload@,
            payload_content_type: self.payload_content_type@,
            metadata: pairs_view(self.metadata@),
            occurred_at: self.occurred_at@,
            labels: pairs_view(self.labels@),
        }
    }
}

/// Whether an event can be sent: its metadata and its labels are JSON objects.
pub open spec fn sendable(event: EventView) -> bool {
    event.metadata.members is Some && event.labels.members is Some
}

/// What is sent of an event: its payload as compact JSON, and those of its
/// metadata and labels that are strings.
pub open spec fn sent_event(event: EventView) -> Hook0EventView {
    Hook0EventView {
        event_id: event.event_id,
        event_type: event.event_type,
        payload: event.payload.text,
        payload_content_type: "application/json"@,
        metadata: string_members(event.metadata.members->0),
        occurred_at: event.created_at,
        labels: string_members(event.labels.members->0),
    }
}

/// What is sent of an event.
pub fn build_hook0_event(row: &EventTableRow) -> (event: Hook0Event)
    requires
        sendable(row@),
    ensures
        event@ == sent_event(row@),
{
    Hook0Event {
        event_id: row.event_id,
        event_type: row.event_type.clone(),
        payload: row.payload.text.clone(),
        payload_content_type: "application/json".to_string(),
        metadata: row.metadata.string_members(),
        occurred_at: row.created_at,
        labels: row.labels.string_members(),
    }
}

/// For how long an event type that the API does not know is left out, in
/// nanoseconds: five minutes.
pub const SUPPRESSION_NANOS: i128 = 300_000_000_000;

/// The nanoseconds from one instant to another.
pub open spec fn nanos_between(earlier: (i64, u32), later: (i64, u32)) -> int {
    (later.0 - earlier.0) * 1_000_000_000 + (later.1 - earlier.1)
}

/// Event types that the API did not know, and when it said so.
pub type UnknownTypes = Seq<(Seq<char>, (i64, u32))>;

/// Whether an event type is left out.
pub open spec fn suppressed(unknown: UnknownTypes, event_type: Seq<char>, now: (i64, u32)) -> bool {
    match lookup(unknown, event_type) {
        Some(last) => nanos_between(last, now) < SUPPRESSION_NANOS,
        None => false,
    }
}

/// What becomes of a replication message.
#[derive(Debug)]
pub enum Preparation {
    /// There is nothing to send.
    Skip,
    /// The metadata or the labels of the event are not a JSON object.
    Unsendable,
    /// The event is sent.
    Send { row: EventTableRow, event: Hook0Event },
}

/// A [`Preparation`] as a mathematical value.
pub enum PreparationView {
    Skip,
    Unsendable,
    Send(EventView, Hook0EventView),
}

impl View for Preparation {
    type V = PreparationView;

    open spec fn view(&self) -> PreparationView {
        match self {
            Preparation::Skip => PreparationView::Skip,
            Preparation::Unsendable => PreparationView::Unsendable,
            Preparation::Send { row, event } => PreparationView::Send(row@, event@),
        }
    }
}

/// The types that are still taken for unknown once an event has been looked at:
/// a type whose time is over is forgotten.
pub open spec fn unknown_after(
    unknown: UnknownTypes,
    event_type: Seq<char>,
    now: (i64, u32),
) -> UnknownTypes {
    if lookup(unknown, event_type) is Some && !suppressed(unknown, event_type, now) {
        removed(unknown, event_type)
    } else {
        unknown
    }
}

/// What becomes of an event.
pub open spec fn prepared_event(unknown: UnknownTypes, event: EventView, now: (i64, u32)) ->
    PreparationView {
    if suppressed(unknown, event.event_type, now) {
        PreparationView::Skip
    } else if !sendable(event) {
        PreparationView::Unsendable
    } else {
        PreparationView::Send(event, sent_event(event))
    }
}

/// An event on its way to the API.
#[derive(Debug)]
pub struct Sending {
    /// The row that the event comes from.
    pub row: EventTableRow,
    /// What is sent.
    pub event: Hook0Event,
    /// The attempts so far.
    pub delivery: Delivery,
}

impl Sending {
    /// An event before the first attempt to send it.
    pub fn new(row: EventTableRow, event: Hook0Event) -> (sending: Sending)
        ensures
            sending.row == row,
            sending.event == event,
            sending.delivery == Delivery::initial(),
            sending.delivery.well_formed(),
    {
        Sending { row, event, delivery: Delivery::new() }
    }
}

/// What follows an attempt to send an event.
#[derive(Debug)]
pub enum SendStep {
    /// Send the event again at once.
    Attempt,
    /// Wait, and send the event again.
    AttemptAfter { delay_ms: u64 },
    /// The event is done with: hand out the record, send the notification, and
    /// stop the program for the reason, as far as there is one of each, in this
    /// order.
    Finish {
        record: Option<EventHistoryRecord>,
        notification: Option<NotificationPlan>,
        abort: Option<String>,
    },
}

/// A [`SendStep`] as a mathematical value.
pub enum SendStepView {
    Attempt,
    AttemptAfter(u64),
    Finish {
        record: Option<RecordView>,
        notification: Option<PlanView>,
        abort: Option<Seq<char>>,
    },
}

impl View for SendStep {
    type V = SendStepView;

    open spec fn view(&self) -> SendStepView {
        match self {
            SendStep::Attempt => SendStepView::Attempt,
            SendStep::AttemptAfter { delay_ms } => SendStepView::AttemptAfter(*delay_ms),
            SendStep::Finish { record, notification, abort } => SendStepView::Finish {
                record: match record {
                    Some(r) => Some(r@),
                    None => None,
                },
                notification: match notification {
                    Some(n) => Some(n@),
                    None => None,
                },
                abort: text_option(*abort),
            },
        }
    }
}

/// The record of the delivery of an event.
pub open spec fn record_of(event: EventView) -> RecordView {
    RecordView {
        event_id: event.event_id,
        event_type: event.event_type,
        source_created_at: event.created_at,
    }
}

/// A [`Hook0EventSink`] as a mathematical value, without its client and its
/// recorder.
pub struct SinkView {
    pub endpoint: Seq<char>,
    pub application_id: Uuid,
    pub api_token: Seq<char>,
    pub email_config: Option<EmailConfigView>,
    pub decoder: DecoderView,
    pub unknown_event_types: UnknownTypes,
}

impl SinkView {
    /// The sink once a message has been prepared.
    pub open spec fn after(self, message: MessageView, now: (i64, u32)) -> SinkView {
        let seen = SinkView { decoder: self.decoder.after(message), ..self };
        match self.decoder.row(message) {
            None => seen,
            Some(row) => match event_of(row) {
                Err(_) => seen,
                Ok(event) => SinkView {
                    unknown_event_types: unknown_after(
                        self.unknown_event_types,
                        event.event_type,
                        now,
                    ),
                    ..seen
                },
            },
        }
    }

    /// What becomes of a message: it is skipped if it is not a row of the event
    /// table, and refused if the row is not an event.
    pub open spec fn prepare(self, message: MessageView, now: (i64, u32)) -> Result<
        PreparationView,
        ErrorView,
    > {
        match self.decoder.row(message) {
            None => Ok(PreparationView::Skip),
            Some(row) => match event_of(row) {
                Err(e) => Err(e),
                Ok(event) => Ok(prepared_event(self.unknown_event_types, event, now)),
            },
        }
    }

    /// What becomes of a notification.
    pub open spec fn notify(self, message: Seq<char>) -> PlanView {
        match self.email_config {
            None => PlanView::Disabled,
            Some(c) => notification_plan(
                Some(c),
                message,
                email_address(c.from_email),
                email_address(c.to_email),
            ),
        }
    }

    /// What follows an attempt to send an event, once it is decided what to do.
    pub open spec fn conclude(
        self,
        has_recorder: bool,
        event: EventView,
        action: ActionView,
        now: (i64, u32),
    ) -> (SinkView, SendStepView) {
        match action {
            ActionView::Resend => (self, SendStepView::Attempt),
            ActionView::ResendAfter(delay_ms) => (self, SendStepView::AttemptAfter(delay_ms)),
            ActionView::RecordAndFinish => (
                self,
                SendStepView::Finish {
                    record: if has_recorder {
                        Some(record_of(event))
                    } else {
                        None
                    },
                    notification: None,
                    abort: None,
                },
            ),
            ActionView::SuppressAndFinish(message) => (
                self.marked_unknown(event.event_type, now),
                SendStepView::Finish {
                    record: None,
                    notification: Some(self.notify(message)),
                    abort: None,
                },
            ),
            ActionView::NotifyAndFinish(message) => (
                self,
                SendStepView::Finish {
                    record: None,
                    notification: Some(self.notify(message)),
                    abort: None,
                },
            ),
            ActionView::NotifyAndAbort(message, reason) => (
                self,
                SendStepView::Finish {
                    record: None,
                    notification: Some(self.notify(message)),
                    abort: Some(reason),
                },
            ),
        }
    }

    /// The sink once the API has said that it does not know an event type.
    pub open spec fn marked_unknown(self, event_type: Seq<char>, now: (i64, u32)) -> SinkView {
        SinkView {
            unknown_event_types: inserted(self.unknown_event_types, event_type, now),
            ..self
        }
    }
}

/// The URL that `reqwest::Url::parse` reads from a text, as it writes it again, or
/// the text of its error.
pub uninterp spec fn parsed_url(text: Seq<char>) -> Result<Seq<char>, Seq<char>>;

/// `reqwest::Url::parse`, and the URL as text. The contract names the result
/// [`parsed_url`]. An error is handed out in its `Display` form.
#[verifier::external_body]
fn parse_url(text: &str) -> (url: Result<String, String>)
    ensures
        match url {
            Ok(u) => parsed_url(text@) == Ok::<Seq<char>, Seq<char>>(u@),
            Err(e) => parsed_url(text@) == Err::<Seq<char>, Seq<char>>(e@),
        },
{
    reqwest::Url::parse(text).map(|url| url.to_string()).map_err(|e| e.to_string())
}

/// Sends events to the Hook0 API. `C` is the client that sends them, and `R` is what
/// takes records of deliveries.
pub struct Hook0EventSink<C, R> {
    hook0_client: C,
    /// The URL of the API.
    pub endpoint: String,
    /// The application that the events are of.
    pub application_id: Uuid,
    /// The token that grants access.
    pub api_token: String,
    /// Where notifications go, if anywhere.
    pub email_config: Option<EmailConfig>,
    /// Decodes the rows of the event table.
    pub decoder: ReplicationEventDecoder,
    unknown_event_types: TextMap<Timestamp>,
    event_history_recorder: Option<R>,
}

impl<C, R> View for Hook0EventSink<C, R> {
    type V = SinkView;

    closed spec fn view(&self) -> SinkView {
        SinkView {
            endpoint: self.endpoint@,
            application_id: self.application_id,
            api_token: self.api_token@,
            email_config: email_option(self.email_config),
            decoder: self.decoder@,
            unknown_event_types: self.unknown_event_types@,
        }
    }
}

/// The email configuration, if it could be read.
pub open spec fn email_result(config: Result<EmailConfig, String>) -> Option<EmailConfigView> {
    match config {
        Ok(c) => Some(c@),
        Err(_) => None,
    }
}

/// Why a client could not be made, if it could not.
pub open spec fn client_failure<C>(client: Result<C, String>) -> Option<Seq<char>> {
    match client {
        Ok(_) => None,
        Err(e) => Some(e@),
    }
}

/// A new sink, or why there is none: the URL cannot be read, or else the client
/// cannot be made.
pub open spec fn new_sink(
    url: Result<Seq<char>, Seq<char>>,
    application_id: Uuid,
    api_token: Seq<char>,
    email_config: Option<EmailConfigView>,
    client_failure: Option<Seq<char>>,
) -> Result<SinkView, Seq<char>> {
    match (url, client_failure) {
        (Err(reason), _) => Err("Invalid URL: "@ + reason),
        (Ok(_), Some(reason)) => Err("Failed to create Hook0 client: "@ + reason),
        (Ok(endpoint), None) => Ok(
            SinkView {
                endpoint,
                application_id,
                api_token,
                email_config,
                decoder: DecoderView::initial(),
                unknown_event_types: Seq::empty(),
            },
        ),
    }
}

impl<C, R> Hook0EventSink<C, R> {
    /// What takes records of deliveries, if anything does.
    pub closed spec fn recorder(&self) -> Option<R> {
        self.event_history_recorder
    }

    /// Whether the invariants of the parts hold.
    pub open spec fn well_formed(&self) -> bool {
        self@.decoder.well_formed() && distinct_keys(self@.unknown_event_types)
    }

    /// The client that sends the events.
    pub closed spec fn client(&self) -> C {
        self.hook0_client
    }

    /// A sink with the given configuration, if its URL can be read and its client
    /// could be made. Without an email configuration no notifications are sent.
    pub fn new(
        config: Hook0EventSinkConfig,
        email_config: Result<EmailConfig, String>,
        hook0_client: Result<C, String>,
        event_history_recorder: Option<R>,
    ) -> (sink: Result<Hook0EventSink<C, R>, String>)
        ensures
            outcome(sink) == new_sink(
                parsed_url(config.api_url@),
                config.application_id,
                config.api_token@,
                email_result(email_config),
                client_failure(hook0_client),
            ),
            sink matches Ok(s) ==> {
                &&& hook0_client == Ok::<C, String>(s.client())
                &&& s.recorder() == event_history_recorder
                &&& s.well_formed()
            },
    {
        let url = parse_url(config.api_url.as_str());
        Self::with_url(url, config, email_config, hook0_client, event_history_recorder)
    }

    /// A sink with the given configuration, given what its URL was read as.
    pub fn with_url(
        url: Result<String, String>,
        config: Hook0EventSinkConfig,
        email_config: Result<EmailConfig, String>,
        hook0_client: Result<C, String>,
        event_history_recorder: Option<R>,
    ) -> (sink: Result<Hook0EventSink<C, R>, String>)
        ensures
            outcome(sink) == new_sink(
                outcome(url),
                config.application_id,
                config.api_token@,
                email_result(email_config),
                client_failure(hook0_client),
            ),
            sink matches Ok(s) ==> {
                &&& hook0_client == Ok::<C, String>(s.client())
                &&& s.recorder() == event_history_recorder
                &&& s.well_formed()
            },
    {
        let endpoint = match url {
            Ok(endpoint) => endpoint,
            Err(e) => return Err("Invalid URL: ".to_string().concat(e.as_str())),
        };
        let hook0_client = match hook0_client {
            Ok(client) => client,
            Err(e) => return Err(
                "Failed to create Hook0 client: ".to_string().concat(e.as_str()),
            ),
        };
        Ok(
            Hook0EventSink {
                hook0_client,
                endpoint,
                application_id: config.application_id,
                api_token: config.api_token,
                email_config: match email_config {
                    Ok(c) => Some(c),
                    Err(_) => None,
                },
                decoder: ReplicationEventDecoder::new(),
                unknown_event_types: TextMap::new(),
                event_history_recorder,
            },
        )
    }

    /// The client that sends the events.
    pub fn hook0_client(&self) -> (client: &C)
        ensures
            *client == self.client(),
    {
        &self.hook0_client
    }

    /// What takes records of deliveries, if anything does.
    pub fn event_history_recorder(&self) -> (recorder: Option<&R>)
        ensures
            match recorder {
                Some(r) => self.recorder() == Some(*r),
                None => self.recorder() is None,
            },
    {
        self.event_history_recorder.as_ref()
    }

    /// Whether a message can be prepared.
    pub fn accepts(&self, message: &ReplicationMessage) -> (accepted: bool)
        ensures
            accepted == self@.decoder.accepts(message@),
    {
        self.decoder.accepts(message)
    }

    /// Whether an event type is left out, and forgets it if its time is over.
    fn check_unknown(&mut self, event_type: &str, now: Timestamp) -> (skip: bool)
        ensures
            skip == suppressed(old(self)@.unknown_event_types, event_type@, now@),
            final(self)@ == (SinkView {
                unknown_event_types: unknown_after(
                    old(self)@.unknown_event_types,
                    event_type@,
                    now@,
                ),
                ..old(self)@
            }),
            final(self).recorder() == old(self).recorder(),
            final(self).client() == old(self).client(),
            old(self).well_formed() ==> final(self).well_formed(),
    {
        let last = match self.unknown_event_types.get(event_type) {
            Some(last) => *last,
            None => return false,
        };
        let secs: i128 = now.secs() as i128 - last.secs() as i128;
        let nanos: i128 = now.nanos() as i128 - last.nanos() as i128;
        if secs * 1_000_000_000 + nanos < SUPPRESSION_NANOS {
            true
        } else {
            self.unknown_event_types.remove(event_type);
            false
        }
    }

    /// Looks at a message, and decides what becomes of it.
    pub fn prepare(&mut self, message: &ReplicationMessage, now: Timestamp) -> (preparation: Result<
        Preparation,
        ReplicationError,
    >)
        requires
            old(self)@.decoder.accepts(message@),
        ensures
            outcome(preparation) == old(self)@.prepare(message@, now@),
            final(self)@ == old(self)@.after(message@, now@),
            final(self).recorder() == old(self).recorder(),
            final(self).client() == old(self).client(),
            old(self).well_formed() ==> final(self).well_formed(),
    {
        let row = match self.decoder.decode(message) {
            Some(row) => row,
            None => return Ok(Preparation::Skip),
        };
        let event_row = match parse_event_row(&row) {
            Ok(event_row) => event_row,
            Err(e) => return Err(e),
        };
        if self.check_unknown(event_row.event_type.as_str(), now) {
            return Ok(Preparation::Skip);
        }
        if !event_row.metadata.is_object() || !event_row.labels.is_object() {
            return Ok(Preparation::Unsendable);
        }
        let event = build_hook0_event(&event_row);
        Ok(Preparation::Send { row: event_row, event })
    }

    /// What follows an attempt to send an event, once it is decided what to do.
    pub fn conclude(&mut self, event_row: &EventTableRow, action: DeliveryAction, now: Timestamp) ->
        (step: SendStep)
        ensures
            (final(self)@, step@) == old(self)@.conclude(
                old(self).recorder() is Some,
                event_row@,
                action@,
                now@,
            ),
            final(self).recorder() == old(self).recorder(),
            final(self).client() == old(self).client(),
            old(self).well_formed() ==> final(self).well_formed(),
    {
        match action {
            DeliveryAction::Resend => SendStep::Attempt,
            DeliveryAction::ResendAfter { delay_ms } => SendStep::AttemptAfter { delay_ms },
            DeliveryAction::RecordAndFinish => {
                let record = match self.record_event_history(event_row) {
                    Some((_, record)) => Some(record),
                    None => None,
                };
                SendStep::Finish { record, notification: None, abort: None }
            },
            DeliveryAction::SuppressAndFinish { notification } => {
                self.mark_unknown(event_row.event_type.as_str(), now);
                let plan = self.send_email_notification(notification.as_str());
                SendStep::Finish { record: None, notification: Some(plan), abort: None }
            },
            DeliveryAction::NotifyAndFinish { notification } => {
                let plan = self.send_email_notification(notification.as_str());
                SendStep::Finish { record: None, notification: Some(plan), abort: None }
            },
            DeliveryAction::NotifyAndAbort { notification, reason } => {
                let plan = self.send_email_notification(notification.as_str());
                SendStep::Finish { record: None, notification: Some(plan), abort: Some(reason) }
            },
        }
    }

    /// What follows an attempt to send an event.
    pub fn on_response(&mut self, sending: &mut Sending, response: SendResponse, now: Timestamp) ->
        (step: SendStep)
        requires
            old(sending).delivery.well_formed(),
        ensures
            ({
                let (delivery, action) = old(sending).delivery.step(
                    old(sending).row@.event_type,
                    response@,
                );
                &&& *final(sending) == (Sending { delivery, ..*old(sending) })
                &&& (final(self)@, step@) == old(self)@.conclude(
                    old(self).recorder() is Some,
                    old(sending).row@,
                    action,
                    now@,
                )
            }),
            final(sending).delivery.well_formed(),
            final(self).recorder() == old(self).recorder(),
            final(self).client() == old(self).client(),
            old(self).well_formed() ==> final(self).well_formed(),
    {
        let action = sending.delivery.on_response(sending.row.event_type.as_str(), response);
        self.conclude(&sending.row, action, now)
    }

    /// Remembers that the API does not know an event type.
    pub fn mark_unknown(&mut self, event_type: &str, now: Timestamp)
        ensures
            final(self)@ == old(self)@.marked_unknown(event_type@, now@),
            final(self).recorder() == old(self).recorder(),
            final(self).client() == old(self).client(),
            old(self).well_formed() ==> final(self).well_formed(),
    {
        self.unknown_event_types.insert(event_type.to_string(), now);
    }

    /// What becomes of a notification about a failure.
    pub fn send_email_notification(&self, message: &str) -> (plan: NotificationPlan)
        ensures
            plan@ == self@.notify(message@),
    {
        compose_notification(&self.email_config, message)
    }

    /// The record of the delivery of an event, and what takes it, if anything
    /// takes records.
    pub fn record_event_history(&self, event_row: &EventTableRow) -> (record: Option<
        (&R, EventHistoryRecord),
    >)
        ensures
            match record {
                None => self.recorder() is None,
                Some((recorder, r)) => {
                    &&& self.recorder() == Some(*recorder)
                    &&& r@ == record_of(event_row@)
                },
            },
    {
        match &self.event_history_recorder {
            None => None,
            Some(recorder) => Some((recorder, delivery_record(event_row))),
        }
    }
}

/// An event type that the API does not know is left out for five minutes: an
/// event of it is skipped until then, and not after.
pub proof fn law_unknown_types_are_left_out_for_five_minutes(
    sink: SinkView,
    event: EventView,
    marked: (i64, u32),
    now: (i64, u32),
)
    ensures
        ({
            let unknown = sink.marked_unknown(event.event_type, marked).unknown_event_types;
            prepared_event(unknown, event, now) is Skip <==> nanos_between(marked, now)
                < SUPPRESSION_NANOS
        }),
{
    law_insert(sink.unknown_event_types, event.event_type, marked);
}

/// Once the five minutes are over, the type is forgotten: the next event of it is
/// sent again. Other types are not touched, neither by this nor by marking a type.
pub proof fn law_other_types_are_not_touched(
    sink: SinkView,
    event_type: Seq<char>,
    other: Seq<char>,
    now: (i64, u32),
    later: (i64, u32),
)
    requires
        distinct_keys(sink.unknown_event_types),
        other != event_type,
    ensures
        suppressed(sink.marked_unknown(event_type, now).unknown_event_types, other, later)
            == suppressed(sink.unknown_event_types, other, later),
        suppressed(unknown_after(sink.unknown_event_types, event_type, now), other, later)
            == suppressed(sink.unknown_event_types, other, later),
        !suppressed(sink.unknown_event_types, event_type, now) ==> !suppressed(
            unknown_after(sink.unknown_event_types, event_type, now),
            event_type,
            later,
        ),
{
    law_insert(sink.unknown_event_types, event_type, now);
    law_remove(sink.unknown_event_types, event_type);
    assert(lookup(sink.unknown_event_types, other) == lookup(
        removed(sink.unknown_event_types, event_type),
        other,
    ));
}

/// An event is sent only from a row of the event table, and then with the
/// identifier, the type, the payload and the time of that row.
pub proof fn law_what_is_sent_is_in_the_row(sink: SinkView, message: MessageView, now: (i64, u32))
    ensures
        sink.prepare(message, now) matches Ok(PreparationView::Send(event, sent)) ==> {
            &&& sink.decoder.row(message) matches Some(row)
            &&& event_of(row) == Ok::<EventView, ErrorView>(event)
            &&& lookup(row, "event_id"@) == Some(ColumnView::Uuid(sent.event_id))
            &&& lookup(row, "event_type"@) == Some(ColumnView::String(sent.event_type))
            &&& lookup(row, "payload"@) matches Some(ColumnView::Json(payload))
            &&& sent.payload == payload.text
            &&& sent.occurred_at == event.created_at
        },
{
}

/// With a recorder, an event is recorded exactly if the API has accepted it, now
/// or before, and the record is of that event; without one, nothing is recorded.
pub proof fn law_accepted_events_are_recorded(
    sink: SinkView,
    has_recorder: bool,
    delivery: Delivery,
    event: EventView,
    outcome: OutcomeView,
    now: (i64, u32),
)
    ensures
        ({
            let action = delivery.step(event.event_type, outcome).1;
            let step = sink.conclude(has_recorder, event, action, now).1;
            let recorded = match step {
                SendStepView::Finish { record, .. } => record,
                _ => None,
            };
            let accepted = outcome is Sent || (outcome matches OutcomeView::Refused(error_id, _, _)
                && error_id == Some(Hook0ErrorId::EventAlreadyIngested));
            recorded == (if has_recorder && accepted {
                Some(record_of(event))
            } else {
                None
            })
        }),
{
}

/// No event goes unnoticed: when the sending of an event is over, the API has
/// accepted it, or a notification about it was asked for.
pub proof fn law_failures_are_notified(
    sink: SinkView,
    has_recorder: bool,
    delivery: Delivery,
    event: EventView,
    outcome: OutcomeView,
    now: (i64, u32),
)
    ensures
        ({
            let action = delivery.step(event.event_type, outcome).1;
            sink.conclude(has_recorder, event, action, now).1 matches SendStepView::Finish {
                notification,
                ..
            } ==> {
                ||| notification is Some
                ||| outcome is Sent
                ||| (outcome matches OutcomeView::Refused(error_id, _, _) && error_id == Some(
                    Hook0ErrorId::EventAlreadyIngested,
                ))
            }
        }),
{
}

/// Once the API has said that it does not know the type of an event, events of
/// that type are left out for five minutes.
pub proof fn law_a_refused_type_is_left_out(
    sink: SinkView,
    has_recorder: bool,
    delivery: Delivery,
    event: EventView,
    event_id: u128,
    error: Seq<char>,
    now: (i64, u32),
    later: (i64, u32),
)
    ensures
        ({
            let outcome = OutcomeView::Refused(
                Some(Hook0ErrorId::EventTypeDoesNotExist),
                event_id,
                error,
            );
            let action = delivery.step(event.event_type, outcome).1;
            let (after, step) = sink.conclude(has_recorder, event, action, now);
            &&& step is Finish
            &&& suppressed(after.unknown_event_types, event.event_type, later) <==> nanos_between(
                now,
                later,
            ) < SUPPRESSION_NANOS
        }),
{
    law_insert(sink.unknown_event_types, event.event_type, now);
}

/// What becomes of a message. Without a row of the event table it is skipped, and a
/// row that is no event is refused. An event whose type was found to be unknown is
/// skipped exactly if fewer than 300 seconds have passed since then. Otherwise it is
/// sent, if its metadata and its labels are JSON objects.
pub proof fn law_what_becomes_of_a_message(sink: SinkView, message: MessageView, now: (i64, u32))
    ensures
        match sink.decoder.row(message) {
            None => sink.prepare(message, now) == Ok::<PreparationView, ErrorView>(
                PreparationView::Skip,
            ),
            Some(row) => match event_of(row) {
                Err(e) => sink.prepare(message, now) == Err::<PreparationView, ErrorView>(e),
                Ok(event) => {
                    let recent = match lookup(sink.unknown_event_types, event.event_type) {
                        None => false,
                        Some(marked) => now.0 * 1_000_000_000 + now.1 < marked.0 * 1_000_000_000
                            + marked.1 + 300 * 1_000_000_000,
                    };
                    let objects = event.metadata.members is Some && event.labels.members is Some;
                    &&& sink.prepare(message, now) matches Ok(preparation)
                    &&& preparation is Skip <==> recent
                    &&& preparation is Unsendable <==> !recent && !objects
                    &&& preparation is Send <==> !recent && objects
                    &&& preparation matches PreparationView::Send(sent, _) ==> sent == event
                },
            },
        },
{
}

/// After a type was found to be unknown, an event of it is skipped exactly if it
/// comes less than 300 seconds later.
pub proof fn law_an_unknown_type_is_skipped_for_300_seconds(
    sink: SinkView,
    message: MessageView,
    event: EventView,
    marked: (i64, u32),
    now: (i64, u32),
)
    requires
        sink.decoder.row(message) matches Some(row) && event_of(row) == Ok::<EventView, ErrorView>(
            event,
        ),
    ensures
        sink.marked_unknown(event.event_type, marked).prepare(message, now) == Ok::<
            PreparationView,
            ErrorView,
        >(PreparationView::Skip) <==> now.0 * 1_000_000_000 + now.1 < marked.0 * 1_000_000_000
            + marked.1 + 300 * 1_000_000_000,
{
    law_insert(sink.unknown_event_types, event.event_type, marked);
}

/// A message that is not skipped at some time would not be skipped at a later time
/// either.
pub proof fn law_once_tried_again_never_skipped(
    sink: SinkView,
    message: MessageView,
    now: (i64, u32),
    later: (i64, u32),
)
    requires
        now.0 * 1_000_000_000 + now.1 <= later.0 * 1_000_000_000 + later.1,
    ensures
        sink.prepare(message, now) != Ok::<PreparationView, ErrorView>(PreparationView::Skip)
            ==> sink.prepare(message, later) != Ok::<PreparationView, ErrorView>(
            PreparationView::Skip,
        ),
{
}

/// Looking at a message teaches the decoder what the message says, and forgets the
/// type of its event if that was unknown and 300 seconds have passed. Nothing else
/// of the sink changes.
pub proof fn law_what_a_message_changes(sink: SinkView, message: MessageView, now: (i64, u32))
    requires
        distinct_keys(sink.unknown_event_types),
    ensures
        ({
            let after = sink.after(message, now);
            &&& after.decoder == sink.decoder.after(message)
            &&& after.endpoint == sink.endpoint
            &&& after.application_id == sink.application_id
            &&& after.api_token == sink.api_token
            &&& after.email_config == sink.email_config
            &&& forall|event_type: Seq<char>| #[trigger]
                lookup(after.unknown_event_types, event_type) == (match lookup(
                    sink.unknown_event_types,
                    event_type,
                ) {
                    None => None,
                    Some(marked) => if (sink.decoder.row(message) matches Some(row) && event_of(
                        row,
                    ) matches Ok(event) && event.event_type == event_type) && now.0
                        * 1_000_000_000 + now.1 >= marked.0 * 1_000_000_000 + marked.1 + 300
                        * 1_000_000_000 {
                        None
                    } else {
                        Some(marked)
                    },
                })
        }),
{
    if let Some(row) = sink.decoder.row(message) {
        if let Ok(event) = event_of(row) {
            law_remove(sink.unknown_event_types, event.event_type);
            let unknown = sink.unknown_event_types;
            assert forall|event_type: Seq<char>| event_type != event.event_type implies lookup(
                removed(unknown, event.event_type),
                event_type,
            ) == #[trigger] lookup(unknown, event_type) by {}
            assert forall|event_type: Seq<char>| #[trigger]
                lookup(sink.after(message, now).unknown_event_types, event_type) == (match lookup(
                    unknown,
                    event_type,
                ) {
                    None => None,
                    Some(marked) => if event.event_type == event_type && now.0 * 1_000_000_000
                        + now.1 >= marked.0 * 1_000_000_000 + marked.1 + 300 * 1_000_000_000 {
                        None
                    } else {
                        Some(marked)
                    },
                }) by {
                assert(lookup(unknown, event_type) == lookup(unknown, event_type));
            }
        }
    }
}

/// Marking a type as unknown sets its time, and changes neither another type nor
/// anything else of the sink.
pub proof fn law_marking_a_type_changes_only_that(
    sink: SinkView,
    event_type: Seq<char>,
    now: (i64, u32),
)
    ensures
        ({
            let after = sink.marked_unknown(event_type, now);
            &&& lookup(after.unknown_event_types, event_type) == Some(now)
            &&& forall|other: Seq<char>|
                other != event_type ==> lookup(after.unknown_event_types, other)
                    == #[trigger] lookup(sink.unknown_event_types, other)
            &&& after == SinkView { unknown_event_types: after.unknown_event_types, ..sink }
        }),
{
    law_insert(sink.unknown_event_types, event_type, now);
}

/// An event is sent with its identifier, its type, its payload as compact JSON and
/// its time.
pub proof fn law_an_event_is_sent_with_its_parts(event: EventView)
    ensures
        sent_event(event).event_id == event.event_id,
        sent_event(event).event_type == event.event_type,
        sent_event(event).payload == event.payload.text,
        sent_event(event).payload_content_type == "application/json"@,
        sent_event(event).occurred_at == event.created_at,
{
}

/// All labels are sent that are strings, and nothing else: a pair of a key and a
/// text is among the labels exactly if the labels of the row have a member with that
/// key and that string, they are as many as there are such members, and they are in
/// the same order. `at` gives the place of each.
pub proof fn law_all_labels_are_sent(event: EventView) -> (at: Seq<int>)
    requires
        event.labels.members is Some,
    ensures
        ({
            let members = event.labels.members->0;
            let labels = sent_event(event).labels;
            &&& at.len() == labels.len()
            &&& forall|j: int|
                0 <= j < at.len() ==> {
                    &&& 0 <= #[trigger] at[j] < members.len()
                    &&& members[at[j]] == (labels[j].0, Some(labels[j].1))
                }
            &&& forall|j: int, k: int|
                0 <= j < k < at.len() ==> #[trigger] at[j] < #[trigger] at[k]
            &&& forall|i: int|
                0 <= i < members.len() && (#[trigger] members[i]).1 is Some ==> at.contains(i)
            &&& forall|key: Seq<char>, text: Seq<char>| #[trigger]
                labels.contains((key, text)) <==> members.contains((key, Some(text)))
        }),
{
    let members = event.labels.members->0;
    let at = law_all_strings_of_an_object(members);
    lemma_strings_are_members(members, sent_event(event).labels, at);
    at
}

/// All metadata are sent that are strings, and nothing else, as for the labels.
pub proof fn law_all_metadata_are_sent(event: EventView) -> (at: Seq<int>)
    requires
        event.metadata.members is Some,
    ensures
        ({
            let members = event.metadata.members->0;
            let metadata = sent_event(event).metadata;
            &&& at.len() == metadata.len()
            &&& forall|j: int|
                0 <= j < at.len() ==> {
                    &&& 0 <= #[trigger] at[j] < members.len()
                    &&& members[at[j]] == (metadata[j].0, Some(metadata[j].1))
                }
            &&& forall|j: int, k: int|
                0 <= j < k < at.len() ==> #[trigger] at[j] < #[trigger] at[k]
            &&& forall|i: int|
                0 <= i < members.len() && (#[trigger] members[i]).1 is Some ==> at.contains(i)
            &&& forall|key: Seq<char>, text: Seq<char>| #[trigger]
                metadata.contains((key, text)) <==> members.contains((key, Some(text)))
        }),
{
    let members = event.metadata.members->0;
    let at = law_all_strings_of_an_object(members);
    lemma_strings_are_members(members, sent_event(event).metadata, at);
    at
}

proof fn lemma_strings_are_members(
    members: Seq<(Seq<char>, Option<Seq<char>>)>,
    pairs: Seq<(Seq<char>, Seq<char>)>,
    at: Seq<int>,
)
    requires
        at.len() == pairs.len(),
        forall|j: int|
            0 <= j < at.len() ==> {
                &&& 0 <= #[trigger] at[j] < members.len()
                &&& members[at[j]].0 == pairs[j].0
                &&& members[at[j]].1 == Some(pairs[j].1)
            },
        forall|i: int|
            0 <= i < members.len() && (#[trigger] members[i]).1 is Some ==> at.contains(i),
    ensures
        forall|key: Seq<char>, text: Seq<char>| #[trigger]
            pairs.contains((key, text)) <==> members.contains((key, Some(text))),
{
    assert forall|key: Seq<char>, text: Seq<char>| #[trigger]
        pairs.contains((key, text)) <==> members.contains((key, Some(text))) by {
        if pairs.contains((key, text)) {
            let j = choose|j: int| 0 <= j < pairs.len() && pairs[j] == (key, text);
            assert(members[at[j]] == (key, Some(text)));
        }
        if members.contains((key, Some(text))) {
            let i = choose|i: int| 0 <= i < members.len() && members[i] == (key, Some(text));
            assert(members[i].1 is Some);
            let j = choose|j: int| 0 <= j < at.len() && at[j] == i;
            assert(pairs[j] == (key, text));
        }
    }
}

/// What follows an attempt is what was decided: it is repeated, at once or after the
/// decided wait; or it is over, with a record of this event exactly if it is to be
/// recorded and there is a recorder, with the decided notification, and with the
/// decided reason to stop the program.
pub proof fn law_what_is_decided_is_done(
    sink: SinkView,
    has_recorder: bool,
    event: EventView,
    action: ActionView,
    now: (i64, u32),
)
    ensures
        ({
            let (after, step) = sink.conclude(has_recorder, event, action, now);
            &&& match action {
                ActionView::Resend => step == SendStepView::Attempt,
                ActionView::ResendAfter(delay_ms) => step == SendStepView::AttemptAfter(delay_ms),
                ActionView::RecordAndFinish => step matches SendStepView::Finish {
                    record,
                    notification,
                    abort,
                } && notification is None && abort is None && (record is Some <==> has_recorder)
                    && (record matches Some(r) ==> r.event_id == event.event_id && r.event_type
                    == event.event_type && r.source_created_at == event.created_at),
                ActionView::SuppressAndFinish(message) => step == (SendStepView::Finish {
                    record: None,
                    notification: Some(sink.notify(message)),
                    abort: None,
                }),
                ActionView::NotifyAndFinish(message) => step == (SendStepView::Finish {
                    record: None,
                    notification: Some(sink.notify(message)),
                    abort: None,
                }),
                ActionView::NotifyAndAbort(message, reason) => step == (SendStepView::Finish {
                    record: None,
                    notification: Some(sink.notify(message)),
                    abort: Some(reason),
                }),
            }
            &&& if action is SuppressAndFinish {
                after == sink.marked_unknown(event.event_type, now)
            } else {
                after == sink
            }
        }),
{
}

/// Without an email configuration nothing is notified; with one, the notification is
/// planned with it, and with whether its two addresses are email addresses.
pub proof fn law_notifications_use_the_configured_addresses(sink: SinkView, message: Seq<char>)
    ensures
        match sink.email_config {
            None => sink.notify(message) is Disabled,
            Some(c) => {
                &&& sink.notify(message) is InvalidFrom <==> !email_address(c.from_email)
                &&& sink.notify(message) is InvalidTo <==> email_address(c.from_email)
                    && !email_address(c.to_email)
                &&& sink.notify(message) matches PlanView::Send(email) ==> {
                    &&& email.from == c.from_email
                    &&& email.to == c.to_email
                    &&& email.body == message
                }
                &&& !(sink.notify(message) is Disabled)
            },
        },
{
}

/// A new sink knows nothing yet, and has all of its settings. There is none without a
/// URL that can be read, and else none without a client; the error says which.
pub proof fn law_a_new_sink_has_its_settings(
    url: Result<Seq<char>, Seq<char>>,
    application_id: Uuid,
    api_token: Seq<char>,
    email_config: Option<EmailConfigView>,
    failure: Option<Seq<char>>,
)
    ensures
        match (
            url,
            failure,
            new_sink(url, application_id, api_token, email_config, failure),
        ) {
            (Err(reason), _, Err(e)) => e == "Invalid URL: "@ + reason,
            (Ok(_), Some(reason), Err(e)) => e == "Failed to create Hook0 client: "@ + reason,
            (Ok(endpoint), None, Ok(sink)) => {
                &&& sink.endpoint == endpoint
                &&& sink.application_id == application_id
                &&& sink.api_token == api_token
                &&& sink.email_config == email_config
                &&& sink.unknown_event_types.len() == 0
                &&& sink.decoder == DecoderView::initial()
            },
            _ => false,
        },
{
}

/// The views of what is sent, and of what follows, leave nothing out.
pub proof fn law_events_are_seen_whole(event: Hook0Event, row: EventTableRow, config: EmailConfig)
    ensures
        event@.event_id == event.event_id.bits,
        event@.event_type == event.event_type@,
        event@.payload == event.payload@,
        event@.payload_content_type == event.payload_content_type@,
        event@.metadata.len() == event.metadata@.len(),
        event@.labels.len() == event.labels@.len(),
        event@.occurred_at == event.occurred_at@,
        (Preparation::Send { row, event })@ == PreparationView::Send(row@, event@),
        email_result(Ok(config)) == Some(config@),
{
}

/// The views of preparations and of steps leave nothing out.
pub proof fn law_steps_are_seen_whole(
    record: EventHistoryRecord,
    notification: NotificationPlan,
    abort: String,
    delay_ms: u64,
    failure: String,
)
    ensures
        Preparation::Skip@ == PreparationView::Skip,
        Preparation::Unsendable@ == PreparationView::Unsendable,
        SendStep::Attempt@ == SendStepView::Attempt,
        (SendStep::AttemptAfter { delay_ms })@ == SendStepView::AttemptAfter(delay_ms),
        (SendStep::Finish {
            record: Some(record),
            notification: Some(notification),
            abort: Some(abort),
        })@ == (SendStepView::Finish {
            record: Some(record@),
            notification: Some(notification@),
            abort: Some(abort@),
        }),
        (SendStep::Finish { record: None, notification: None, abort: None })@ == (
        SendStepView::Finish { record: None, notification: None, abort: None }),
{
}

/// The view of a sink leaves out nothing but the client and the recorder, which stand beside
/// it.
proof fn law_a_sink_is_seen_whole<C, R>(sink: Hook0EventSink<C, R>)
    ensures
        sink@.endpoint == sink.endpoint@,
        sink@.application_id == sink.application_id,
        sink@.api_token == sink.api_token@,
        sink@.email_config == email_option(sink.email_config),
        sink@.decoder == sink.decoder@,
        sink@.unknown_event_types == sink.unknown_event_types@,
        sink.client() == sink.hook0_client,
        sink.recorder() == sink.event_history_recorder,
{
}

/// Why a client could not be made is what it said, and what the sending of notifications is
/// configured by counts only if it could be read.
pub proof fn law_failures_are_passed_on<C>(client: C, config: EmailConfig, reason: String)
    ensures
        client_failure(Ok::<C, String>(client)) is None,
        client_failure(Err::<C, String>(reason)) == Some(reason@),
        email_result(Ok(config)) == Some(config@),
        email_result(Err(reason)) is None,
{
}

/// A sink is as it should be if its decoder knows the name of every table that it knows the
/// columns of, and no event type is marked twice.
pub proof fn law_what_holds_of_every_sink<C, R>(sink: Hook0EventSink<C, R>)
    ensures
        sink.well_formed() <==> {
            &&& sink@.decoder.relations.dom() == sink@.decoder.names.dom()
            &&& forall|i: int, j: int|
                0 <= i < j < sink@.unknown_event_types.len() ==> (
                #[trigger] sink@.unknown_event_types[i]).0 != (
                #[trigger] sink@.unknown_event_types[j]).0
        },
{
}

} // verus!
