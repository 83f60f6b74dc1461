//! The configuration, from the variables of the environment.

use walpipe::config::{Environment, EventSinkType, ReplicationConfig};
use walpipe::errors::ReplicationError;
use walpipe::ids::Uuid;
use walpipe::sink::{sink_made, EventSinkRegistry, Sink, SinkClients};

const ID: &str = "67e55044-10b1-426f-9247-bb680e5fe0c8";

fn empty() -> Environment {
    Environment {
        database_url: None,
        slot_name: None,
        pub_name: None,
        event_sink: None,
        http_endpoint_url: None,
        hook0_api_url: None,
        hook0_application_id: None,
        hook0_api_token: None,
    }
}

fn text(s: &str) -> Option<String> {
    Some(s.to_string())
}

fn with_sink(database_url: &str, event_sink: &str) -> Environment {
    Environment { database_url: text(database_url), event_sink: text(event_sink), ..empty() }
}

fn hook0() -> Environment {
    Environment {
        hook0_api_url: text("https://api.hook0.com"),
        hook0_application_id: text(ID),
        hook0_api_token: text("token"),
        ..with_sink("postgresql://test@localhost/test", "hook0")
    }
}

fn error_of(env: Environment) -> String {
    match ReplicationConfig::from_env(env) {
        Err(ReplicationError::Config { message }) => message,
        other => panic!("not a configuration error: {:?}", other),
    }
}

#[test]
fn test_config_from_env_missing_database_url() {
    let result = ReplicationConfig::from_env(empty());
    assert!(result.is_err());
    assert!(result.unwrap_err().to_text().contains("DATABASE_URL"));
}

#[test]
fn test_config_with_valid_database_url() {
    let result =
        ReplicationConfig::from_env(with_sink("postgresql://test@localhost/test", "stdout"));
    assert!(result.is_ok());

    let config = result.unwrap();
    assert_eq!(config.slot_name, "sub");
    assert_eq!(config.publication_name, "pub");
    assert!(config.uses_stdout_sink());
}

#[test]
fn test_config_http_sink_requires_endpoint() {
    let result =
        ReplicationConfig::from_env(with_sink("postgresql://test@localhost/test", "http"));
    assert!(result.is_err());
    assert!(result.unwrap_err().to_text().contains("HTTP_ENDPOINT_URL"));
}

#[test]
fn test_config_hook0_sink_requires_all_fields() {
    let result = ReplicationConfig::from_env(Environment {
        hook0_api_url: text("https://api.hook0.com"),
        ..with_sink("postgresql://test@localhost/test", "hook0")
    });
    assert!(result.is_err());
}

#[test]
fn test_connection_string_without_replication_param() {
    let config = ReplicationConfig::from_env(with_sink(
        "postgres://user@host/db?replication=database&sslmode=require",
        "stdout",
    ))
    .unwrap();
    assert_eq!(
        config.connection_string_without_replication_param(),
        "postgres://user@host/db?sslmode=require"
    );
}

#[test]
fn test_connection_string_without_replication_param_noop_when_no_query() {
    let config =
        ReplicationConfig::from_env(with_sink("postgresql://test@localhost/test", "stdout"))
            .unwrap();
    assert_eq!(
        config.connection_string_without_replication_param(),
        "postgresql://test@localhost/test"
    );
}

#[test]
fn a_database_url_is_enough() {
    let config =
        ReplicationConfig::from_env(Environment { database_url: text("db"), ..empty() }).unwrap();
    assert_eq!(config.connection_string, "db");
    assert_eq!(config.event_sink, EventSinkType::Stdout);
    assert_eq!(config.feedback_interval_secs, 1);
    assert_eq!(config.slot_name, "sub");
    assert_eq!(config.publication_name, "pub");
    assert!(config.http_endpoint_url.is_none());
}

#[test]
fn names_are_taken_from_the_environment() {
    let config = ReplicationConfig::from_env(Environment {
        slot_name: text("Slot_1"),
        pub_name: text("my pub"),
        ..with_sink("db", "stdout")
    })
    .unwrap();
    assert_eq!(config.slot_name, "Slot_1");
    assert_eq!(config.publication_name, "my pub");
}

#[test]
fn the_name_of_the_sink_may_be_in_upper_case() {
    let config = ReplicationConfig::from_env(with_sink("db", "StdOut")).unwrap();
    assert!(config.uses_stdout_sink());
    assert!(!config.uses_http_sink());
    let config =
        ReplicationConfig::from_env(Environment { event_sink: text("HOOK0"), ..hook0() }).unwrap();
    assert!(config.uses_hook0_sink());
    assert_eq!(config.event_sink_type(), &EventSinkType::Hook0);
    // the Kelvin sign is a `k` in lower case
    let config =
        ReplicationConfig::from_env(Environment { event_sink: text("hoo\u{212a}0"), ..hook0() })
            .unwrap();
    assert!(config.uses_hook0_sink());
}

#[test]
fn what_is_blank_is_refused() {
    assert_eq!(error_of(with_sink(" \t\n", "stdout")), "DATABASE_URL cannot be empty");
    assert_eq!(error_of(with_sink("", "stdout")), "DATABASE_URL cannot be empty");
    assert_eq!(error_of(with_sink("\u{2003}", "stdout")), "DATABASE_URL cannot be empty");
    assert_eq!(
        error_of(Environment { pub_name: text(" "), ..with_sink("db", "stdout") }),
        "Publication name cannot be empty"
    );
    assert_eq!(
        error_of(Environment { slot_name: text(""), ..with_sink("db", "stdout") }),
        "Slot name cannot be empty"
    );
}

#[test]
fn slot_names_are_checked() {
    assert_eq!(
        error_of(Environment { slot_name: text("a-b"), ..with_sink("db", "stdout") }),
        "Slot name can only contain alphanumeric characters and underscores"
    );
    assert_eq!(
        error_of(Environment { slot_name: text("é"), ..with_sink("db", "stdout") }),
        "Slot name can only contain alphanumeric characters and underscores"
    );
    let longest = "a".repeat(63);
    assert!(ReplicationConfig::from_env(Environment {
        slot_name: text(&longest),
        ..with_sink("db", "stdout")
    })
    .is_ok());
    assert_eq!(
        error_of(Environment { slot_name: text(&"a".repeat(64)), ..with_sink("db", "stdout") }),
        "Slot name cannot be longer than 63 characters"
    );
}

#[test]
fn unknown_sinks_are_refused() {
    assert_eq!(
        error_of(with_sink("db", "kafka")),
        "EVENT_SINK must be one of: 'http', 'hook0', or 'stdout'"
    );
    assert_eq!(
        error_of(with_sink("db", "")),
        "EVENT_SINK must be one of: 'http', 'hook0', or 'stdout'"
    );
}

#[test]
fn the_http_sink_needs_a_url_of_the_web() {
    assert_eq!(
        error_of(Environment { http_endpoint_url: text("  "), ..with_sink("db", "http") }),
        "HTTP_ENDPOINT_URL is required when using 'http' event sink"
    );
    assert_eq!(
        error_of(Environment { http_endpoint_url: text("ftp://x"), ..with_sink("db", "http") }),
        "HTTP_ENDPOINT_URL must start with http:// or https://"
    );
    let config = ReplicationConfig::from_env(Environment {
        http_endpoint_url: text("http://x"),
        ..with_sink("db", "http")
    })
    .unwrap();
    assert!(config.uses_http_sink());
}

#[test]
fn each_setting_of_hook0_is_needed() {
    assert_eq!(
        error_of(Environment { hook0_api_url: None, ..hook0() }),
        "HOOK0_API_URL is required when using 'hook0' event sink"
    );
    assert_eq!(
        error_of(Environment { hook0_application_id: None, ..hook0() }),
        "HOOK0_APPLICATION_ID is required when using 'hook0' event sink"
    );
    // not a UUID
    assert_eq!(
        error_of(Environment { hook0_application_id: text("42"), ..hook0() }),
        "HOOK0_APPLICATION_ID is required when using 'hook0' event sink"
    );
    assert_eq!(
        error_of(Environment { hook0_api_token: text(" "), ..hook0() }),
        "HOOK0_API_TOKEN is required when using 'hook0' event sink"
    );
    assert_eq!(
        error_of(Environment { hook0_api_url: text("api.hook0.com"), ..hook0() }),
        "HOOK0_API_URL must start with http:// or https://"
    );
    let config = ReplicationConfig::from_env(hook0()).unwrap();
    assert_eq!(
        config.hook0_application_id,
        Some(Uuid { bits: 0x67e5504410b1426f9247bb680e5fe0c8 })
    );
}

fn without_replication(database_url: &str) -> String {
    ReplicationConfig::from_env(with_sink(database_url, "stdout"))
        .unwrap()
        .connection_string_without_replication_param()
}

#[test]
fn only_the_replication_parameter_goes() {
    assert_eq!(without_replication("h?replication=database"), "h");
    assert_eq!(without_replication("h?replication="), "h");
    assert_eq!(without_replication("h?a=1&replication=x&b=2&replication=y"), "h?a=1&b=2");
    assert_eq!(without_replication("h?my_replication=1"), "h?my_replication=1");
    assert_eq!(without_replication("h?replication"), "h?replication");
    assert_eq!(without_replication("h?"), "h?");
    assert_eq!(without_replication("h?a?b&replication=1"), "h?a?b");
    assert_eq!(without_replication("h?&replication=1&"), "h?&");
    assert_eq!(without_replication("é?replication=1&ü=2"), "é?ü=2");
}

#[test]
fn removing_the_replication_parameter_twice_changes_nothing() {
    for url in ["h", "h?", "h?replication=1", "h?a=1&replication=2&b=3", "h?replication=1&&"] {
        let once = without_replication(url);
        assert_eq!(without_replication(&once), once);
    }
}

#[test]
fn sinks_have_names() {
    assert_eq!(EventSinkType::Http.to_text(), "http");
    assert_eq!(EventSinkType::Hook0.to_text(), "hook0");
    assert_eq!(EventSinkType::Stdout.to_text(), "stdout");
}

type Created = Result<Sink<&'static str, u8, u32>, ReplicationError>;

fn create(
    sink_type: &EventSinkType,
    config: &ReplicationConfig,
    http: Result<&'static str, String>,
    hook0: Result<u8, String>,
) -> Created {
    let none = Err("none".to_string());
    EventSinkRegistry::create_sink(sink_type, config, SinkClients { http, hook0 }, none, Some(7))
}

fn config_error(created: Created) -> String {
    match created {
        Err(ReplicationError::Config { message }) => message,
        _ => panic!("not a configuration error"),
    }
}

fn broken<T>() -> Result<T, String> {
    Err("broken".to_string())
}

fn http() -> ReplicationConfig {
    ReplicationConfig::from_env(Environment {
        http_endpoint_url: text("https://x/y"),
        ..with_sink("db", "http")
    })
    .unwrap()
}

#[test]
fn a_valid_configuration_has_its_sink() {
    let config = ReplicationConfig::from_env(hook0()).unwrap();
    match create(config.event_sink_type(), &config, broken(), Ok(3)) {
        Ok(Sink::Hook0(sink)) => {
            assert_eq!(sink.endpoint, "https://api.hook0.com/");
            assert_eq!(sink.application_id.to_text(), ID);
            assert_eq!(sink.api_token, "token");
            assert_eq!(*sink.hook0_client(), 3);
            assert_eq!(sink.event_history_recorder(), Some(&7));
            assert!(sink.email_config.is_none());
        }
        _ => panic!("not a Hook0 sink"),
    }
    let config = http();
    match create(config.event_sink_type(), &config, Ok("client"), broken()) {
        Ok(Sink::Http(sink)) => {
            assert_eq!(sink.endpoint_url, "https://x/y");
            assert_eq!(sink.client, "client");
        }
        _ => panic!("not an HTTP sink"),
    }
    let config = ReplicationConfig::from_env(with_sink("db", "stdout")).unwrap();
    assert!(matches!(
        create(config.event_sink_type(), &config, broken(), broken()),
        Ok(Sink::Stdout)
    ));
}

#[test]
fn a_sink_that_cannot_be_made_is_a_configuration_error() {
    let config = ReplicationConfig::from_env(hook0()).unwrap();
    assert_eq!(
        config_error(create(&EventSinkType::Hook0, &config, Ok("client"), broken())),
        "Failed to create Hook0 client: broken"
    );
    let config =
        ReplicationConfig::from_env(Environment { hook0_api_url: text("http://"), ..hook0() })
            .unwrap();
    assert_eq!(
        config_error(create(&EventSinkType::Hook0, &config, Ok("client"), Ok(3))),
        "Invalid URL: empty host"
    );
    assert_eq!(
        config_error(create(&EventSinkType::Http, &http(), broken(), Ok(3))),
        "broken"
    );
    assert_eq!(sink_made(Ok(5)).unwrap(), 5);
    assert_eq!(sink_made::<u8>(broken()).unwrap_err().to_text(), "broken");
}

#[test]
fn a_sink_without_its_settings_is_refused() {
    let config = ReplicationConfig::from_env(with_sink("db", "stdout")).unwrap();
    for hook0 in [Ok(3), broken()] {
        assert_eq!(
            config_error(create(&EventSinkType::Http, &config, broken(), hook0.clone())),
            "HTTP endpoint URL required for HTTP sink"
        );
        assert_eq!(
            config_error(create(&EventSinkType::Hook0, &config, Ok("client"), hook0)),
            "Hook0 API URL, application ID, and token required for Hook0 sink"
        );
    }
}

#[test]
fn a_copy_of_a_configuration_is_the_same() {
    let config = ReplicationConfig::from_env(hook0()).unwrap();
    let copy = config.clone();
    assert_eq!(copy.connection_string, config.connection_string);
    assert_eq!(copy.slot_name, config.slot_name);
    assert_eq!(copy.hook0_api_url, config.hook0_api_url);
    assert_eq!(copy.hook0_application_id, config.hook0_application_id);
    assert_eq!(copy.event_sink, config.event_sink);
}

#[test]
fn the_case_of_the_name_of_the_sink_does_not_matter() {
    for name in ["STDOUT", "Hook0", "HTTP", "Kafka", " stdout", "HOO\u{212a}0", "\u{130}", ""] {
        let lower = name.to_lowercase();
        let first = ReplicationConfig::from_env(Environment { event_sink: text(name), ..hook0() });
        let second =
            ReplicationConfig::from_env(Environment { event_sink: text(&lower), ..hook0() });
        match (first, second) {
            (Ok(a), Ok(b)) => assert_eq!(format!("{:?}", a), format!("{:?}", b)),
            (Err(a), Err(b)) => assert_eq!(format!("{:?}", a), format!("{:?}", b)),
            _ => panic!("{:?} and {:?} differ", name, lower),
        }
    }
}

#[test]
fn the_name_of_the_sink_is_not_trimmed() {
    assert_eq!(
        error_of(with_sink("db", " stdout")),
        "EVENT_SINK must be one of: 'http', 'hook0', or 'stdout'"
    );
}
