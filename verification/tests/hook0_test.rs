//! The Hook0 sink: what is sent, and what follows each answer.

use walpipe::delivery::{Delivery, DeliveryAction, SendOutcome, SendResponse};
use walpipe::email::{compose_notification, plan_notification, EmailConfig, NotificationPlan};
use walpipe::hook0::{
    Hook0EventSink, Hook0EventSinkConfig, Preparation, SendStep, Sending,
};
use walpipe::hook0_error::Hook0ErrorId;
use walpipe::ids::Uuid;
use walpipe::messages::{
    ColumnData, ColumnInfo, RelationInfo, ReplicationMessage, TupleData,
};
use walpipe::time::Timestamp;

const EVENT_ID: Uuid = Uuid { bits: 5 };
const EVENT_TEXT: &str = "00000000-0000-0000-0000-000000000005";

fn config(api_url: &str) -> Hook0EventSinkConfig {
    Hook0EventSinkConfig {
        api_url: api_url.to_string(),
        application_id: Uuid { bits: 9 },
        api_token: "token".to_string(),
    }
}

fn email(from: &str, to: &str) -> EmailConfig {
    EmailConfig {
        smtp_host: "mail.example.org".to_string(),
        smtp_port: 587,
        smtp_username: "user".to_string(),
        smtp_password: "word".to_string(),
        from_email: from.to_string(),
        to_email: to.to_string(),
    }
}

fn sink() -> Hook0EventSink<&'static str, u32> {
    Hook0EventSink::new(
        config("https://api.hook0.com"),
        Ok(email("from@example.org", "to@example.org")),
        Ok("client"),
        Some(7),
    )
    .ok()
    .unwrap()
}

fn relation() -> ReplicationMessage {
    let columns = [
        ("event_id", 2950),
        ("event_type", 25),
        ("created_at", 1184),
        ("metadata", 3802),
        ("payload", 3802),
        ("labels", 3802),
    ];
    ReplicationMessage::Relation {
        relation: RelationInfo {
            oid: 7,
            namespace: "public".to_string(),
            relation_name: "event_stream".to_string(),
            replica_identity: 'd',
            column_count: 6,
            columns: columns
                .iter()
                .map(|(name, column_type)| ColumnInfo {
                    column_name: name.to_string(),
                    column_type: *column_type,
                })
                .collect(),
        },
    }
}

fn insert(event_type: &str, metadata: &str, labels: &str) -> ReplicationMessage {
    let texts =
        [EVENT_TEXT, event_type, "2024-05-01 10:20:30+00", metadata, "{ \"p\": 1 }", labels];
    ReplicationMessage::Insert {
        relation_id: 7,
        tuple_data: TupleData {
            columns: texts.iter().map(|t| ColumnData { data: t.to_string() }).collect(),
        },
        is_stream: false,
        xid: None,
    }
}

fn at(secs: i64) -> Timestamp {
    Timestamp::new(secs, 0).unwrap()
}

fn sending(sink: &mut Hook0EventSink<&'static str, u32>, now: i64) -> Option<Sending> {
    match sink.prepare(&insert("user.created", "{}", "{}"), at(now)).unwrap() {
        Preparation::Send { row, event } => Some(Sending::new(row, event)),
        Preparation::Skip => None,
        other => panic!("not sent: {:?}", other),
    }
}

#[test]
fn a_sink_needs_a_url() {
    let sink = sink();
    assert_eq!(sink.endpoint, "https://api.hook0.com/");
    assert_eq!(sink.application_id.bits, 9);
    assert_eq!(sink.api_token, "token");
    assert_eq!(*sink.hook0_client(), "client");
    for client in [Ok("client"), Err("broken".to_string())] {
        let error =
            Hook0EventSink::new(config("not a url"), Err("none".to_string()), client, None::<u32>)
                .err()
                .unwrap();
        assert_eq!(error, "Invalid URL: relative URL without a base");
    }
    let error = Hook0EventSink::<u8, u32>::with_url(
        Err("no URL".to_string()),
        config("https://api.hook0.com"),
        Err("none".to_string()),
        Ok(1),
        None,
    );
    assert_eq!(error.err().unwrap(), "Invalid URL: no URL");
}

#[test]
fn a_sink_needs_a_client() {
    let error = Hook0EventSink::<u8, u32>::new(
        config("https://api.hook0.com"),
        Err("none".to_string()),
        Err("broken".to_string()),
        None,
    );
    assert_eq!(error.err().unwrap(), "Failed to create Hook0 client: broken");
}

#[test]
fn without_an_email_configuration_nothing_is_notified() {
    let sink = Hook0EventSink::new(config("http://x"), Err("none".to_string()), Ok("client"), None::<u32>)
        .ok()
        .unwrap();
    assert!(sink.email_config.is_none());
    assert!(matches!(sink.send_email_notification("m"), NotificationPlan::Disabled));
}

#[test]
fn events_are_sent_with_their_strings() {
    let mut sink = sink();
    assert!(matches!(sink.prepare(&relation(), at(0)), Ok(Preparation::Skip)));
    let message = insert(
        "user.created",
        "{\"b\": \"2\", \"a\": \"1\", \"n\": 3}",
        "{\"l\": \"x\", \"m\": null}",
    );
    assert!(sink.accepts(&message));
    match sink.prepare(&message, at(0)).unwrap() {
        Preparation::Send { row, event } => {
            assert_eq!(row.event_id, EVENT_ID);
            assert_eq!(event.event_id, EVENT_ID);
            assert_eq!(event.event_type, "user.created");
            assert_eq!(event.payload, "{\"p\":1}");
            assert_eq!(event.payload_content_type, "application/json");
            assert_eq!(
                event.metadata,
                vec![
                    ("a".to_string(), "1".to_string()),
                    ("b".to_string(), "2".to_string())
                ]
            );
            assert_eq!(event.labels, vec![("l".to_string(), "x".to_string())]);
            assert_eq!(event.occurred_at.secs(), 1714558830);
        }
        other => panic!("not sent: {:?}", other),
    }
}

#[test]
fn messages_without_events_are_skipped_or_refused() {
    let mut sink = sink();
    assert!(matches!(
        sink.prepare(&insert("t", "{}", "{}"), at(0)),
        Ok(Preparation::Skip)
    ));
    sink.prepare(&relation(), at(0)).unwrap();
    let error = sink.prepare(&insert("t", "{", "{}"), at(0)).unwrap_err();
    assert_eq!(error.to_text(), "metadata not a json column value, is String(\"{\")");
    assert!(matches!(
        sink.prepare(&insert("t", "[]", "{}"), at(0)),
        Ok(Preparation::Unsendable)
    ));
    assert!(matches!(
        sink.prepare(&insert("t", "{}", "\"x\""), at(0)),
        Ok(Preparation::Unsendable)
    ));
}

fn refused(id: Option<&str>) -> SendResponse {
    SendResponse::Refused {
        body: id.map(|id| format!("{{\"id\": \"{}\", \"status\": 400}}", id)),
        event_id: EVENT_ID,
        error: "the error".to_string(),
    }
}

#[test]
fn unknown_types_are_left_out_for_five_minutes() {
    let mut sink = sink();
    sink.prepare(&relation(), at(0)).unwrap();
    let mut first = sending(&mut sink, 1000).unwrap();
    first.delivery.start_attempt();
    match sink.on_response(&mut first, refused(Some("EventTypeDoesNotExist")), at(1000)) {
        SendStep::Finish { record: None, notification: Some(plan), abort: None } => match plan {
            NotificationPlan::Send(email) => assert_eq!(
                email.body,
                "Failed to send replication event user.created to Hook0 API: Event type does not exist or was deactivated. You should (re)create it. Event ID: 00000000-0000-0000-0000-000000000005, Error: the error"
            ),
            other => panic!("no email: {:?}", other),
        },
        other => panic!("not finished: {:?}", other),
    }
    assert!(sending(&mut sink, 1001).is_none());
    assert!(sending(&mut sink, 1299).is_none());
    // another type is not concerned
    assert!(matches!(
        sink.prepare(&insert("user.deleted", "{}", "{}"), at(1001)),
        Ok(Preparation::Send { .. })
    ));
    // after five minutes the type is tried again, and stays known
    assert!(sending(&mut sink, 1300).is_some());
    assert!(sending(&mut sink, 1001).is_some());
    sink.mark_unknown("user.created", at(2000));
    assert!(sending(&mut sink, 2001).is_none());
}

#[test]
fn accepted_events_are_recorded() {
    let mut sink = sink();
    sink.prepare(&relation(), at(0)).unwrap();
    for response in [SendResponse::Sent, refused(Some("EventAlreadyIngested"))] {
        let mut sending = sending(&mut sink, 0).unwrap();
        sending.delivery.start_attempt();
        match sink.on_response(&mut sending, response, at(0)) {
            SendStep::Finish { record: Some(record), notification: None, abort: None } => {
                assert_eq!(record.event_id, EVENT_ID);
                assert_eq!(record.event_type, "user.created");
                assert_eq!(record.source_created_at.secs(), 1714558830);
            }
            other => panic!("not recorded: {:?}", other),
        }
    }
    let first = sending(&mut sink, 0).unwrap();
    let (recorder, _) = sink.record_event_history(&first.row).unwrap();
    assert_eq!(*recorder, 7);
}

#[test]
fn without_a_recorder_nothing_is_recorded() {
    let mut sink = Hook0EventSink::new(config("http://x"), Err("none".to_string()), Ok("client"), None::<u32>)
        .ok()
        .unwrap();
    sink.prepare(&relation(), at(0)).unwrap();
    let mut sending = sending(&mut sink, 0).unwrap();
    assert!(sink.record_event_history(&sending.row).is_none());
    sending.delivery.start_attempt();
    assert!(matches!(
        sink.on_response(&mut sending, SendResponse::Sent, at(0)),
        SendStep::Finish { record: None, notification: None, abort: None }
    ));
}

#[test]
fn waiting_times_double_until_the_event_is_given_up() {
    let mut sink = sink();
    sink.prepare(&relation(), at(0)).unwrap();
    let mut sending = sending(&mut sink, 0).unwrap();
    for expected in [1000, 2000, 4000, 8000] {
        sending.delivery.start_attempt();
        match sink.on_response(&mut sending, refused(Some("InvalidPayload")), at(0)) {
            SendStep::AttemptAfter { delay_ms } => assert_eq!(delay_ms, expected),
            other => panic!("no wait: {:?}", other),
        }
    }
    sending.delivery.start_attempt();
    match sink.on_response(&mut sending, refused(None), at(0)) {
        SendStep::Finish { record: None, notification: Some(_), abort: Some(reason) } => {
            assert_eq!(
                reason,
                "Failed to send replication event after 5 attempts. Hook0 API error: the error"
            )
        }
        other => panic!("not given up: {:?}", other),
    }
}

#[test]
fn unexpected_errors_do_not_stop_the_program() {
    let mut sink = sink();
    sink.prepare(&relation(), at(0)).unwrap();
    let mut sending = sending(&mut sink, 0).unwrap();
    for i in 0..4 {
        sending.delivery.start_attempt();
        let response = if i == 1 {
            SendResponse::Failed { error: "odd".to_string() }
        } else {
            refused(Some("InternalServerError"))
        };
        assert!(matches!(
            sink.on_response(&mut sending, response, at(0)),
            SendStep::AttemptAfter { .. }
        ));
    }
    sending.delivery.start_attempt();
    assert!(matches!(
        sink.on_response(&mut sending, refused(None), at(0)),
        SendStep::Finish { record: None, notification: Some(_), abort: None }
    ));
}

#[test]
fn a_refused_authentication_stops_the_program() {
    let mut sink = sink();
    sink.prepare(&relation(), at(0)).unwrap();
    let mut sending = sending(&mut sink, 0).unwrap();
    sending.delivery.start_attempt();
    match sink.on_response(&mut sending, refused(Some("Unauthorized")), at(0)) {
        SendStep::Finish {
            record: None,
            notification: Some(NotificationPlan::Send(email)),
            abort: Some(reason),
        } => {
            assert_eq!(
                email.body,
                "Unauthorized access to Hook0 API. Event ID: 00000000-0000-0000-0000-000000000005, Error: the error"
            );
            assert_eq!(reason, "Unauthorized access to Hook0 API, exiting.");
        }
        other => panic!("not stopped: {:?}", other),
    }
}

#[test]
fn rate_limits_double_the_waiting_time_once_more() {
    let mut delivery = Delivery::new();
    let limited = SendOutcome::Refused {
        error_id: Some(Hook0ErrorId::RateLimitExceeded),
        event_id: EVENT_ID,
        error: "e".to_string(),
    };
    for expected in [2000, 8000, 30000, 30000] {
        delivery.start_attempt();
        match delivery.on_outcome("t", &limited) {
            DeliveryAction::ResendAfter { delay_ms } => assert_eq!(delay_ms, expected),
            other => panic!("no wait: {:?}", other),
        }
        assert!(delivery.delay_ms <= 30000);
    }
    delivery.start_attempt();
    assert!(matches!(
        delivery.on_outcome("t", &limited),
        DeliveryAction::NotifyAndAbort { .. }
    ));
}

#[test]
fn attempts_that_time_out_are_repeated_at_once() {
    let mut delivery = Delivery::new();
    for i in 0..20 {
        delivery.start_attempt();
        assert!(matches!(
            delivery.on_outcome("t", &SendOutcome::TimedOut),
            DeliveryAction::Resend
        ));
        assert_eq!(delivery.attempt, i + 1);
        assert_eq!(delivery.delay_ms, 1000);
    }
    // a failure then finds the attempts used up
    delivery.start_attempt();
    assert!(matches!(
        delivery.on_outcome("t", &SendOutcome::Failed { error: "e".to_string() }),
        DeliveryAction::NotifyAndFinish { .. }
    ));
}

#[test]
fn errors_are_named_in_the_body() {
    for (id, error) in [
        ("EventTypeDoesNotExist", Hook0ErrorId::EventTypeDoesNotExist),
        ("EventAlreadyIngested", Hook0ErrorId::EventAlreadyIngested),
        ("InternalServerError", Hook0ErrorId::InternalServerError),
        ("InvalidEventId", Hook0ErrorId::InvalidEventId),
        ("InvalidPayload", Hook0ErrorId::InvalidPayload),
        ("Unauthorized", Hook0ErrorId::Unauthorized),
        ("RateLimitExceeded", Hook0ErrorId::RateLimitExceeded),
        ("Something", Hook0ErrorId::InternalServerError),
    ] {
        assert_eq!(Hook0ErrorId::from(id), error);
        assert_eq!(Hook0ErrorId::from_body(&format!("{{\"id\":\"{}\"}}", id)), error);
    }
    for body in ["", "nonsense", "{}", "{\"id\": 5}", "[\"Unauthorized\"]"] {
        assert_eq!(Hook0ErrorId::from_body(body), Hook0ErrorId::InternalServerError);
    }
    assert_eq!(Hook0ErrorId::from_details(&None), Hook0ErrorId::InternalServerError);
}

#[test]
fn notifications_are_emails() {
    let config = Some(email("from@example.org", "to@example.org"));
    match compose_notification(&config, "it failed") {
        NotificationPlan::Send(email) => {
            assert_eq!(email.from, "from@example.org");
            assert_eq!(email.to, "to@example.org");
            assert_eq!(email.subject, "Replication Event Failure");
            assert_eq!(email.body, "it failed");
            assert_eq!(email.smtp_host, "mail.example.org");
            assert_eq!(email.smtp_port, 587);
            assert_eq!(email.smtp_username, "user");
            assert_eq!(email.smtp_password, "word");
        }
        other => panic!("no email: {:?}", other),
    }
    assert!(matches!(
        compose_notification(&Some(email("nobody", "to@example.org")), "m"),
        NotificationPlan::InvalidFrom
    ));
    assert!(matches!(
        compose_notification(&Some(email("from@example.org", "to@")), "m"),
        NotificationPlan::InvalidTo
    ));
    assert!(matches!(compose_notification(&None, "m"), NotificationPlan::Disabled));
    assert!(matches!(
        plan_notification(&config, "m", false, false),
        NotificationPlan::InvalidFrom
    ));
    assert!(matches!(plan_notification(&config, "m", true, false), NotificationPlan::InvalidTo));
}
