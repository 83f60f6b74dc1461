//! Event sinks, and which one a configuration asks for.

use vstd::prelude::*;

use crate::config::{ConfigView, EventSinkType, ReplicationConfig};
use crate::email::{EmailConfig, EmailConfigView};
use crate::errors::{outcome, ErrorView, ReplicationError, ReplicationResult};
use crate::hook0::{
    client_failure, email_result, new_sink, parsed_url, Hook0EventSink, Hook0EventSinkConfig,
    SinkView,
};

verus! {

/// Sends events to an HTTP endpoint. `H` is the client that sends them.
#[derive(Debug)]
pub struct HttpEventSink<H> {
    pub client: H,
    pub endpoint_url: String,
}

/// The clients that sinks send events with, or why one could not be made. A sink
/// needs that of its own kind only.
#[derive(Debug)]
pub struct SinkClients<H, C> {
    pub http: Result<H, String>,
    pub hook0: Result<C, String>,
}

/// A sink. `H` and `C` are the clients of the HTTP sink and of the Hook0 sink, and
/// `R` is what takes records of deliveries, which only the Hook0 sink hands out.
pub enum Sink<H, C, R> {
    Http(HttpEventSink<H>),
    Hook0(Hook0EventSink<C, R>),
    Stdout,
}

/// A [`Sink`] as a mathematical value, without its client and its recorder.
pub enum CreatedView {
    Http(Seq<char>),
    Hook0(SinkView),
    Stdout,
}

impl<H, C, R> View for Sink<H, C, R> {
    type V = CreatedView;

    open spec fn view(&self) -> CreatedView {
        match self {
            Sink::Http(sink) => CreatedView::Http(sink.endpoint_url@),
            Sink::Hook0(sink) => CreatedView::Hook0(sink@),
            Sink::Stdout => CreatedView::Stdout,
        }
    }
}

/// A sink that was made, or the configuration error for one that could not be.
pub open spec fn made<T>(sink: Result<T, Seq<char>>) -> Result<T, ErrorView> {
    match sink {
        Ok(s) => Ok(s),
        Err(e) => Err(ErrorView::Config(e)),
    }
}

/// A sink that was made, or the configuration error for one that could not be.
pub fn sink_made<T>(sink: Result<T, String>) -> (result: ReplicationResult<T>)
    ensures
        match (sink, result) {
            (Ok(s), Ok(r)) => r == s,
            (Err(e), Err(r)) => r@ == ErrorView::Config(e@),
            _ => false,
        },
{
    match sink {
        Ok(s) => Ok(s),
        Err(e) => Err(ReplicationError::Config { message: e }),
    }
}

/// The sink of a kind with the settings of a configuration, or the error for
/// settings that are missing or for a sink that cannot be made.
pub open spec fn created_sink(
    sink_type: EventSinkType,
    config: ConfigView,
    email_config: Option<EmailConfigView>,
    http_failure: Option<Seq<char>>,
    hook0_failure: Option<Seq<char>>,
) -> Result<CreatedView, ErrorView> {
    match sink_type {
        EventSinkType::Http => match (config.http_endpoint_url, http_failure) {
            (None, _) => Err(ErrorView::Config("HTTP endpoint URL required for HTTP sink"@)),
            (Some(_), Some(e)) => Err(ErrorView::Config(e)),
            (Some(url), None) => Ok(CreatedView::Http(url)),
        },
        EventSinkType::Hook0 => match (
            config.hook0_api_url,
            config.hook0_application_id,
            config.hook0_api_token,
        ) {
            (Some(url), Some(id), Some(token)) => match made(
                new_sink(parsed_url(url), id, token, email_config, hook0_failure),
            ) {
                Ok(sink) => Ok(CreatedView::Hook0(sink)),
                Err(e) => Err(e),
            },
            _ => Err(
                ErrorView::Config(
                    "Hook0 API URL, application ID, and token required for Hook0 sink"@,
                ),
            ),
        },
        EventSinkType::Stdout => Ok(CreatedView::Stdout),
    }
}

/// Makes event sinks.
pub struct EventSinkRegistry;

impl EventSinkRegistry {
    /// The sink of a kind, with the settings of a configuration. The recorder and
    /// the email configuration are handed to the Hook0 sink; the other sinks have
    /// no use for them.
    pub fn create_sink<H, C, R>(
        sink_type: &EventSinkType,
        config: &ReplicationConfig,
        clients: SinkClients<H, C>,
        email_config: Result<EmailConfig, String>,
        event_history_recorder: Option<R>,
    ) -> (sink: ReplicationResult<Sink<H, C, R>>)
        ensures
            outcome(sink) == created_sink(
                *sink_type,
                config@,
                email_result(email_config),
                client_failure(clients.http),
                client_failure(clients.hook0),
            ),
            sink matches Ok(Sink::Http(s)) ==> clients.http == Ok::<H, String>(s.client),
            sink matches Ok(Sink::Hook0(s)) ==> {
                &&& clients.hook0 == Ok::<C, String>(s.client())
                &&& s.recorder() == event_history_recorder
                &&& s.well_formed()
            },
    {
        match sink_type {
            EventSinkType::Http => match &config.http_endpoint_url {
                Some(url) => match sink_made(clients.http) {
                    Ok(client) => Ok(
                        Sink::Http(HttpEventSink { client, endpoint_url: url.clone() }),
                    ),
                    Err(e) => Err(e),
                },
                None => Err(ReplicationError::config("HTTP endpoint URL required for HTTP sink")),
            },
            EventSinkType::Hook0 => match (
                &config.hook0_api_url,
                config.hook0_application_id,
                &config.hook0_api_token,
            ) {
                (Some(api_url), Some(application_id), Some(api_token)) => {
                    let hook0_config = Hook0EventSinkConfig {
                        api_url: api_url.clone(),
                        application_id,
                        api_token: api_token.clone(),
                    };
                    let sink = Hook0EventSink::new(
                        hook0_config,
                        email_config,
                        clients.hook0,
                        event_history_recorder,
                    );
                    match sink_made(sink) {
                        Ok(s) => Ok(Sink::Hook0(s)),
                        Err(e) => Err(e),
                    }
                },
                _ => Err(
                    ReplicationError::config(
                        "Hook0 API URL, application ID, and token required for Hook0 sink",
                    ),
                ),
            },
            EventSinkType::Stdout => Ok(Sink::Stdout),
        }
    }
}

/// A valid configuration has all the settings that its own sink needs: the sink is
/// made unless its URL cannot be read or its client could not be made, and the
/// error then says so.
pub proof fn law_a_valid_configuration_has_its_sink(
    config: ConfigView,
    email_config: Option<EmailConfigView>,
    http_failure: Option<Seq<char>>,
    hook0_failure: Option<Seq<char>>,
)
    requires
        config.well_formed(),
    ensures
        ({
            let sink = created_sink(
                config.event_sink,
                config,
                email_config,
                http_failure,
                hook0_failure,
            );
            match config.event_sink {
                EventSinkType::Http => match http_failure {
                    None => sink is Ok && sink->Ok_0 is Http,
                    Some(e) => sink == Err::<CreatedView, ErrorView>(ErrorView::Config(e)),
                },
                EventSinkType::Hook0 => match (
                    parsed_url(config.hook0_api_url->0),
                    hook0_failure,
                ) {
                    (Err(e), _) => sink == Err::<CreatedView, ErrorView>(
                        ErrorView::Config("Invalid URL: "@ + e),
                    ),
                    (Ok(_), Some(e)) => sink == Err::<CreatedView, ErrorView>(
                        ErrorView::Config("Failed to create Hook0 client: "@ + e),
                    ),
                    (Ok(_), None) => sink is Ok && sink->Ok_0 is Hook0,
                },
                EventSinkType::Stdout => sink == Ok::<CreatedView, ErrorView>(CreatedView::Stdout),
            }
        }),
{
}

/// A sink is made only with its settings: without the URL of an endpoint there is no HTTP
/// sink, and without a URL, an application and a token no Hook0 sink. The standard output
/// needs none. What is made has the settings of the configuration.
pub proof fn law_a_sink_has_its_settings(
    config: ConfigView,
    email_config: Option<EmailConfigView>,
    http_failure: Option<Seq<char>>,
    hook0_failure: Option<Seq<char>>,
)
    ensures
        created_sink(EventSinkType::Stdout, config, email_config, http_failure, hook0_failure)
            == Ok::<CreatedView, ErrorView>(CreatedView::Stdout),
        ({
            let sink = created_sink(
                EventSinkType::Http,
                config,
                email_config,
                http_failure,
                hook0_failure,
            );
            match (config.http_endpoint_url, http_failure) {
                (None, _) => sink == Err::<CreatedView, ErrorView>(
                    ErrorView::Config("HTTP endpoint URL required for HTTP sink"@),
                ),
                (Some(_), Some(e)) => sink == Err::<CreatedView, ErrorView>(ErrorView::Config(e)),
                (Some(url), None) => sink == Ok::<CreatedView, ErrorView>(CreatedView::Http(url)),
            }
        }),
        ({
            let sink = created_sink(
                EventSinkType::Hook0,
                config,
                email_config,
                http_failure,
                hook0_failure,
            );
            if config.hook0_api_url is None || config.hook0_application_id is None
                || config.hook0_api_token is None {
                sink == Err::<CreatedView, ErrorView>(
                    ErrorView::Config(
                        "Hook0 API URL, application ID, and token required for Hook0 sink"@,
                    ),
                )
            } else {
                match (parsed_url(config.hook0_api_url->0), hook0_failure) {
                    (Err(e), _) => sink == Err::<CreatedView, ErrorView>(
                        ErrorView::Config("Invalid URL: "@ + e),
                    ),
                    (Ok(_), Some(e)) => sink == Err::<CreatedView, ErrorView>(
                        ErrorView::Config("Failed to create Hook0 client: "@ + e),
                    ),
                    (Ok(endpoint), None) => sink matches Ok(CreatedView::Hook0(made))
                        && made.endpoint == endpoint && made.application_id
                        == config.hook0_application_id->0 && made.api_token
                        == config.hook0_api_token->0 && made.email_config == email_config,
                }
            }
        }),
{
}

/// The view of a sink leaves out nothing but clients and recorders, and what could not be
/// made is a configuration error.
pub proof fn law_sinks_are_seen_whole<H, C, R>(
    http: HttpEventSink<H>,
    hook0: Hook0EventSink<C, R>,
    error: Seq<char>,
    value: SinkView,
)
    ensures
        Sink::<H, C, R>::Http(http)@ == CreatedView::Http(http.endpoint_url@),
        Sink::<H, C, R>::Hook0(hook0)@ == CreatedView::Hook0(hook0@),
        Sink::<H, C, R>::Stdout@ == CreatedView::Stdout,
        made(Ok::<SinkView, Seq<char>>(value)) == Ok::<SinkView, ErrorView>(value),
        made(Err::<SinkView, Seq<char>>(error)) == Err::<SinkView, ErrorView>(
            ErrorView::Config(error),
        ),
{
}

} // verus!
