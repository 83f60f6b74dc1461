//! The configuration of the replication client.

use vstd::prelude::*;

use crate::errors::{copy_option, outcome, text_option, ErrorView, ReplicationError, ReplicationResult};
use crate::ids::{parsed_uuid, uuid_option, Uuid};
use crate::text::{
    ascii_lowercase, blank, char_texts, chars_of, chars_range, chars_start_with, find_char, identifier_text,
    identifier_char, is_ascii_text, is_blank, is_identifier_text, join, join_chars, lemma_join_split,
    lemma_split_append, lemma_split_join, lemma_split_nonempty, lemma_split_pieces, lemma_split_single, lowercase, split, split_chars, starts_with, string_of,
    text_eq, to_lowercase, white_space,
};

verus! {

/// Where events are sent to.
#[derive(Clone, Copy, Debug, PartialEq, Eq, Structural)]
pub enum EventSinkType {
    Http,
    Hook0,
    Stdout,
}

impl EventSinkType {
    /// The name of the sink.
    pub open spec fn name(self) -> Seq<char> {
        match self {
            EventSinkType::Http => "http"@,
            EventSinkType::Hook0 => "hook0"@,
            EventSinkType::Stdout => "stdout"@,
        }
    }

    /// The name of the sink.
    pub fn to_text(&self) -> (text: String)
        ensures
            text@ == self.name(),
    {
        match self {
            EventSinkType::Http => "http".to_string(),
            EventSinkType::Hook0 => "hook0".to_string(),
            EventSinkType::Stdout => "stdout".to_string(),
        }
    }
}

/// The variables of the environment that the client is configured by. A variable
/// that is not set, or that is not text, is left out.
#[derive(Debug)]
pub struct Environment {
    /// `DATABASE_URL`
    pub database_url: Option<String>,
    /// `SLOT_NAME`
    pub slot_name: Option<String>,
    /// `PUB_NAME`
    pub pub_name: Option<String>,
    /// `EVENT_SINK`
    pub event_sink: Option<String>,
    /// `HTTP_ENDPOINT_URL`
    pub http_endpoint_url: Option<String>,
    /// `HOOK0_API_URL`
    pub hook0_api_url: Option<String>,
    /// `HOOK0_APPLICATION_ID`
    pub hook0_application_id: Option<String>,
    /// `HOOK0_API_TOKEN`
    pub hook0_api_token: Option<String>,
}

/// A valid configuration.
#[derive(Debug)]
pub struct ReplicationConfig {
    pub connection_string: String,
    pub publication_name: String,
    pub slot_name: String,
    pub feedback_interval_secs: u64,
    pub event_sink: EventSinkType,
    pub http_endpoint_url: Option<String>,
    pub hook0_api_url: Option<String>,
    pub hook0_application_id: Option<Uuid>,
    pub hook0_api_token: Option<String>,
}

/// A [`ReplicationConfig`] as a mathematical value.
pub struct ConfigView {
    pub connection_string: Seq<char>,
    pub publication_name: Seq<char>,
    pub slot_name: Seq<char>,
    pub feedback_interval_secs: u64,
    pub event_sink: EventSinkType,
    pub http_endpoint_url: Option<Seq<char>>,
    pub hook0_api_url: Option<Seq<char>>,
    pub hook0_application_id: Option<Uuid>,
    pub hook0_api_token: Option<Seq<char>>,
}

impl View for ReplicationConfig {
    type V = ConfigView;

    open spec fn view(&self) -> ConfigView {
        ConfigView {
            connection_string: self.connection_string@,
            publication_name: self.publication_name@,
            slot_name: self.slot_name@,
            feedback_interval_secs: self.feedback_interval_secs,
            event_sink: self.event_sink,
            http_endpoint_url: text_option(self.http_endpoint_url),
            hook0_api_url: text_option(self.hook0_api_url),
            hook0_application_id: self.hook0_application_id,
            hook0_api_token: text_option(self.hook0_api_token),
        }
    }
}

impl Clone for ReplicationConfig {
    fn clone(&self) -> (copy: ReplicationConfig)
        ensures
            copy@ == self@,
    {
        ReplicationConfig {
            connection_string: self.connection_string.clone(),
            publication_name: self.publication_name.clone(),
            slot_name: self.slot_name.clone(),
            feedback_interval_secs: self.feedback_interval_secs,
            event_sink: self.event_sink,
            http_endpoint_url: copy_option(&self.http_endpoint_url),
            hook0_api_url: copy_option(&self.hook0_api_url),
            hook0_application_id: self.hook0_application_id,
            hook0_api_token: copy_option(&self.hook0_api_token),
        }
    }
}

/// What a configuration is made from, before it is validated.
pub struct Settings {
    pub connection_string: Seq<char>,
    pub publication_name: Seq<char>,
    pub slot_name: Seq<char>,
    pub event_sink: Option<Seq<char>>,
    pub http_endpoint_url: Option<Seq<char>>,
    pub hook0_api_url: Option<Seq<char>>,
    pub hook0_application_id: Option<Uuid>,
    pub hook0_api_token: Option<Seq<char>>,
}

/// A text that is given and is not blank.
pub open spec fn given(text: Option<Seq<char>>) -> bool {
    text matches Some(t) && !blank(t)
}

/// A URL of the web.
pub open spec fn web_url(text: Seq<char>) -> bool {
    "http://"@.is_prefix_of(text) || "https://"@.is_prefix_of(text)
}

/// The longest name that PostgreSQL takes.
pub const MAX_NAME_LENGTH: usize = 63;

/// The name of a replication slot: letters, digits and underscores, and at most
/// as long as a name can be.
pub open spec fn valid_slot_name(name: Seq<char>) -> bool {
    0 < name.len() <= MAX_NAME_LENGTH && identifier_text(name)
}

impl Settings {
    /// The sink that is asked for by the lower-case form of its name, or what is
    /// wrong with it. Without a name it is the standard output.
    pub open spec fn sink_named(self, name: Option<Seq<char>>) -> Result<EventSinkType, Seq<char>> {
        match name {
            None => Ok(EventSinkType::Stdout),
            Some(n) => if n == "http"@ {
                if !given(self.http_endpoint_url) {
                    Err("HTTP_ENDPOINT_URL is required when using 'http' event sink"@)
                } else if !web_url(self.http_endpoint_url->0) {
                    Err("HTTP_ENDPOINT_URL must start with http:// or https://"@)
                } else {
                    Ok(EventSinkType::Http)
                }
            } else if n == "hook0"@ {
                if !given(self.hook0_api_url) {
                    Err("HOOK0_API_URL is required when using 'hook0' event sink"@)
                } else if self.hook0_application_id is None {
                    Err("HOOK0_APPLICATION_ID is required when using 'hook0' event sink"@)
                } else if !given(self.hook0_api_token) {
                    Err("HOOK0_API_TOKEN is required when using 'hook0' event sink"@)
                } else if !web_url(self.hook0_api_url->0) {
                    Err("HOOK0_API_URL must start with http:// or https://"@)
                } else {
                    Ok(EventSinkType::Hook0)
                }
            } else if n == "stdout"@ {
                Ok(EventSinkType::Stdout)
            } else {
                Err("EVENT_SINK must be one of: 'http', 'hook0', or 'stdout'"@)
            },
        }
    }

    /// What is wrong with the names and the connection string, if anything is.
    pub open spec fn fault(self) -> Option<Seq<char>> {
        if blank(self.connection_string) {
            Some("DATABASE_URL cannot be empty"@)
        } else if blank(self.publication_name) {
            Some("Publication name cannot be empty"@)
        } else if blank(self.slot_name) {
            Some("Slot name cannot be empty"@)
        } else if !identifier_text(self.slot_name) {
            Some("Slot name can only contain alphanumeric characters and underscores"@)
        } else if self.slot_name.len() > MAX_NAME_LENGTH {
            Some("Slot name cannot be longer than 63 characters"@)
        } else {
            None
        }
    }

    /// The configuration with the sink of the given lower-case name, or the first
    /// thing that is wrong.
    pub open spec fn validated_for(self, name: Option<Seq<char>>) -> Result<ConfigView, ErrorView> {
        match self.fault() {
            Some(message) => Err(ErrorView::Config(message)),
            None => match self.sink_named(name) {
                Err(message) => Err(ErrorView::Config(message)),
                Ok(event_sink) => Ok(
                    ConfigView {
                        connection_string: self.connection_string,
                        publication_name: self.publication_name,
                        slot_name: self.slot_name,
                        feedback_interval_secs: 1,
                        event_sink,
                        http_endpoint_url: self.http_endpoint_url,
                        hook0_api_url: self.hook0_api_url,
                        hook0_application_id: self.hook0_application_id,
                        hook0_api_token: self.hook0_api_token,
                    },
                ),
            },
        }
    }

    /// The lower-case form of the name of the sink.
    pub open spec fn lowercase_sink(self) -> Option<Seq<char>> {
        match self.event_sink {
            Some(name) => Some(lowercase(name)),
            None => None,
        }
    }

    /// The configuration, or the first thing that is wrong.
    pub open spec fn validated(self) -> Result<ConfigView, ErrorView> {
        self.validated_for(self.lowercase_sink())
    }
}

impl ConfigView {
    /// What holds of every configuration.
    pub open spec fn well_formed(self) -> bool {
        &&& !blank(self.connection_string)
        &&& !blank(self.publication_name)
        &&& valid_slot_name(self.slot_name)
        &&& self.feedback_interval_secs == 1
        &&& self.event_sink is Http ==> given(self.http_endpoint_url) && web_url(
            self.http_endpoint_url->0,
        )
        &&& self.event_sink is Hook0 ==> {
            &&& given(self.hook0_api_url)
            &&& web_url(self.hook0_api_url->0)
            &&& self.hook0_application_id is Some
            &&& given(self.hook0_api_token)
        }
    }
}

/// The text of a variable, or its default.
pub open spec fn or_default(text: Option<String>, default: Seq<char>) -> Seq<char> {
    match text {
        Some(t) => t@,
        None => default,
    }
}

impl Environment {
    /// The settings that the environment holds, given the connection string.
    pub open spec fn settings(self, connection_string: Seq<char>) -> Settings {
        Settings {
            connection_string,
            publication_name: or_default(self.pub_name, "pub"@),
            slot_name: or_default(self.slot_name, "sub"@),
            event_sink: text_option(self.event_sink),
            http_endpoint_url: text_option(self.http_endpoint_url),
            hook0_api_url: text_option(self.hook0_api_url),
            hook0_application_id: match self.hook0_application_id {
                Some(text) => uuid_option(parsed_uuid(text@)),
                None => None,
            },
            hook0_api_token: text_option(self.hook0_api_token),
        }
    }
}

/// Whether a text is given and is not blank.
fn is_given(text: &Option<String>) -> (b: bool)
    ensures
        b == given(text_option(*text)),
{
    match text {
        Some(t) => !is_blank(t.as_str()),
        None => false,
    }
}

/// Whether a text is a URL of the web.
fn is_web_url(text: &Option<String>) -> (b: bool)
    ensures
        b == (text matches Some(t) && web_url(t@)),
{
    match text {
        Some(t) => starts_with(t.as_str(), "http://") || starts_with(t.as_str(), "https://"),
        None => false,
    }
}

/// The text of a variable, or its default.
fn text_or(text: Option<String>, default: &str) -> (result: String)
    ensures
        result@ == or_default(text, default@),
{
    match text {
        Some(t) => t,
        None => default.to_string(),
    }
}

/// The query of a connection string without the parameter `replication`.
pub open spec fn kept_params(query: Seq<char>) -> Seq<Seq<char>> {
    split(query, '&').filter(|param: Seq<char>| !replication_param(param))
}

/// Whether a parameter is `replication`.
pub open spec fn replication_param(param: Seq<char>) -> bool {
    "replication="@.is_prefix_of(param)
}

/// Whether `at` is the position of the first question mark of a text.
pub open spec fn query_at(text: Seq<char>, at: int) -> bool {
    &&& 0 <= at < text.len()
    &&& text[at] == '?'
    &&& !text.take(at).contains('?')
}

/// A connection string without the parameter `replication`, given where its
/// query begins.
pub open spec fn without_replication_at(text: Seq<char>, at: int) -> Seq<char> {
    let kept = kept_params(text.skip(at + 1));
    if kept.len() == 0 {
        text.take(at)
    } else {
        text.take(at) + "?"@ + join(kept, seq!['&'])
    }
}

/// A connection string without the parameter `replication` in its query.
pub open spec fn without_replication(text: Seq<char>) -> Seq<char> {
    if text.contains('?') {
        without_replication_at(text, choose|at: int| query_at(text, at))
    } else {
        text
    }
}

impl ReplicationConfig {
    /// The configuration that the environment holds.
    ///
    /// Only `DATABASE_URL` has to be set. The slot is `sub`, the publication
    /// `pub` and the sink the standard output unless something else is set. The
    /// other sinks need variables of their own.
    pub fn from_env(env: Environment) -> (config: ReplicationResult<ReplicationConfig>)
        ensures
            outcome(config) == (match env.database_url {
                None => Err::<ConfigView, ErrorView>(
                    ErrorView::Config("Missing required DATABASE_URL environment variable"@),
                ),
                Some(url) => env.settings(url@).validated(),
            }),
            env.database_url is Some && (env.event_sink matches Some(name) && is_ascii_text(
                name@,
            )) ==> outcome(config) == env.settings(env.database_url->0@).validated_for(
                Some(ascii_lowercase(env.event_sink->0@)),
            ),
            config matches Ok(c) ==> c@.well_formed(),
    {
        let connection_string = match env.database_url {
            Some(url) => url,
            None => return Err(
                ReplicationError::config("Missing required DATABASE_URL environment variable"),
            ),
        };
        let hook0_application_id = match &env.hook0_application_id {
            Some(text) => Uuid::parse(text.as_str()),
            None => None,
        };
        Self::validate_and_create(
            connection_string,
            text_or(env.pub_name, "pub"),
            text_or(env.slot_name, "sub"),
            env.event_sink,
            env.http_endpoint_url,
            env.hook0_api_url,
            hook0_application_id,
            env.hook0_api_token,
        )
    }

    /// The configuration with the given settings, if they are valid.
    pub fn validate_and_create(
        connection_string: String,
        publication_name: String,
        slot_name: String,
        event_sink: Option<String>,
        http_endpoint_url: Option<String>,
        hook0_api_url: Option<String>,
        hook0_application_id: Option<Uuid>,
        hook0_api_token: Option<String>,
    ) -> (config: ReplicationResult<ReplicationConfig>)
        ensures
            outcome(config) == (Settings {
                connection_string: connection_string@,
                publication_name: publication_name@,
                slot_name: slot_name@,
                event_sink: text_option(event_sink),
                http_endpoint_url: text_option(http_endpoint_url),
                hook0_api_url: text_option(hook0_api_url),
                hook0_application_id,
                hook0_api_token: text_option(hook0_api_token),
            }).validated(),
            event_sink matches Some(name) && is_ascii_text(name@) ==> outcome(config) == (
            Settings {
                connection_string: connection_string@,
                publication_name: publication_name@,
                slot_name: slot_name@,
                event_sink: text_option(event_sink),
                http_endpoint_url: text_option(http_endpoint_url),
                hook0_api_url: text_option(hook0_api_url),
                hook0_application_id,
                hook0_api_token: text_option(hook0_api_token),
            }).validated_for(Some(ascii_lowercase(event_sink->0@))),
            config matches Ok(c) ==> c@.well_formed(),
    {
        let service = match &event_sink {
            Some(name) => Some(to_lowercase(name.as_str())),
            None => None,
        };
        Self::validate_for_sink(
            connection_string,
            publication_name,
            slot_name,
            service,
            http_endpoint_url,
            hook0_api_url,
            hook0_application_id,
            hook0_api_token,
        )
    }

    /// The configuration with the given settings, if they are valid. The name of
    /// the sink is given in lower case.
    pub fn validate_for_sink(
        connection_string: String,
        publication_name: String,
        slot_name: String,
        service: Option<String>,
        http_endpoint_url: Option<String>,
        hook0_api_url: Option<String>,
        hook0_application_id: Option<Uuid>,
        hook0_api_token: Option<String>,
    ) -> (config: ReplicationResult<ReplicationConfig>)
        ensures
            outcome(config) == (Settings {
                connection_string: connection_string@,
                publication_name: publication_name@,
                slot_name: slot_name@,
                event_sink: text_option(service),
                http_endpoint_url: text_option(http_endpoint_url),
                hook0_api_url: text_option(hook0_api_url),
                hook0_application_id,
                hook0_api_token: text_option(hook0_api_token),
            }).validated_for(text_option(service)),
            config matches Ok(c) ==> c@.well_formed(),
    {
        if is_blank(connection_string.as_str()) {
            return Err(ReplicationError::config("DATABASE_URL cannot be empty"));
        }
        if is_blank(publication_name.as_str()) {
            return Err(ReplicationError::config("Publication name cannot be empty"));
        }
        if is_blank(slot_name.as_str()) {
            return Err(ReplicationError::config("Slot name cannot be empty"));
        }
        if !is_identifier_text(slot_name.as_str()) {
            return Err(
                ReplicationError::config(
                    "Slot name can only contain alphanumeric characters and underscores",
                ),
            );
        }
        if chars_of(slot_name.as_str()).len() > MAX_NAME_LENGTH {
            return Err(ReplicationError::config("Slot name cannot be longer than 63 characters"));
        }
        let event_sink = match &service {
            None => EventSinkType::Stdout,
            Some(name) => {
                if text_eq(name.as_str(), "http") {
                    if !is_given(&http_endpoint_url) {
                        return Err(
                            ReplicationError::config(
                                "HTTP_ENDPOINT_URL is required when using 'http' event sink",
                            ),
                        );
                    }
                    if !is_web_url(&http_endpoint_url) {
                        return Err(
                            ReplicationError::config(
                                "HTTP_ENDPOINT_URL must start with http:// or https://",
                            ),
                        );
                    }
                    EventSinkType::Http
                } else if text_eq(name.as_str(), "hook0") {
                    if !is_given(&hook0_api_url) {
                        return Err(
                            ReplicationError::config(
                                "HOOK0_API_URL is required when using 'hook0' event sink",
                            ),
                        );
                    }
                    if hook0_application_id.is_none() {
                        return Err(
                            ReplicationError::config(
                                "HOOK0_APPLICATION_ID is required when using 'hook0' event sink",
                            ),
                        );
                    }
                    if !is_given(&hook0_api_token) {
                        return Err(
                            ReplicationError::config(
                                "HOOK0_API_TOKEN is required when using 'hook0' event sink",
                            ),
                        );
                    }
                    if !is_web_url(&hook0_api_url) {
                        return Err(
                            ReplicationError::config(
                                "HOOK0_API_URL must start with http:// or https://",
                            ),
                        );
                    }
                    EventSinkType::Hook0
                } else if text_eq(name.as_str(), "stdout") {
                    EventSinkType::Stdout
                } else {
                    return Err(
                        ReplicationError::config(
                            "EVENT_SINK must be one of: 'http', 'hook0', or 'stdout'",
                        ),
                    );
                }
            },
        };
        Ok(
            ReplicationConfig {
                connection_string,
                publication_name,
                slot_name,
                feedback_interval_secs: 1,
                event_sink,
                http_endpoint_url,
                hook0_api_url,
                hook0_application_id,
                hook0_api_token,
            },
        )
    }

    /// The sink that events are sent to.
    pub fn event_sink_type(&self) -> (sink: &EventSinkType)
        ensures
            *sink == self@.event_sink,
    {
        &self.event_sink
    }

    /// Whether events are sent to an HTTP endpoint.
    pub fn uses_http_sink(&self) -> (b: bool)
        ensures
            b == (self@.event_sink is Http),
    {
        self.event_sink == EventSinkType::Http
    }

    /// Whether events are sent to Hook0.
    pub fn uses_hook0_sink(&self) -> (b: bool)
        ensures
            b == (self@.event_sink is Hook0),
    {
        self.event_sink == EventSinkType::Hook0
    }

    /// Whether events are written to the standard output.
    pub fn uses_stdout_sink(&self) -> (b: bool)
        ensures
            b == (self@.event_sink is Stdout),
    {
        self.event_sink == EventSinkType::Stdout
    }

    /// The connection string without the parameter `replication`, which would
    /// keep an ordinary connection from being made. All other parameters stay.
    pub fn connection_string_without_replication_param(&self) -> (text: String)
        ensures
            text@ == without_replication(self@.connection_string),
    {
        let chars = chars_of(self.connection_string.as_str());
        let at = match find_char(&chars, '?') {
            Some(at) => at,
            None => return self.connection_string.clone(),
        };
        proof {
            lemma_query_at(chars@, at as int);
        }
        let length: usize = chars.len();
        assert(at < length);
        let query = chars_range(&chars, at + 1, length);
        assert(query@ == chars@.skip(at + 1));
        let params = split_chars(&query, '&');
        let prefix = chars_of("replication=");
        let mut kept: Vec<Vec<char>> = Vec::new();
        let ghost all = char_texts(params@);
        let ghost keep = |param: Seq<char>| !replication_param(param);
        for i in 0..params.len()
            invariant
                all == char_texts(params@),
                prefix@ == "replication="@,
                keep == (|param: Seq<char>| !replication_param(param)),
                char_texts(kept@) == all.take(i as int).filter(keep),
        {
            let ghost before = char_texts(kept@);
            assert(all.take(i + 1).drop_last() == all.take(i as int));
            reveal_with_fuel(Seq::filter, 2);
            if !chars_start_with(&params[i], &prefix) {
                let param = chars_range(&params[i], 0, params[i].len());
                assert(param@ == all[i as int]);
                kept.push(param);
                assert(char_texts(kept@) == before.push(all[i as int]));
            }
        }
        assert(all.take(all.len() as int) == all);
        let mut text = string_of(&chars_range(&chars, 0, at));
        assert(text@ == chars@.take(at as int));
        if kept.len() > 0 {
            text.append("?");
            text.append(string_of(&join_chars(&kept, '&')).as_str());
        }
        text
    }
}

proof fn lemma_query_at(text: Seq<char>, at: int)
    requires
        query_at(text, at),
    ensures
        text.contains('?'),
        without_replication(text) == without_replication_at(text, at),
{
    let chosen = choose|at: int| query_at(text, at);
    assert(query_at(text, chosen));
    if chosen < at {
        assert(text.take(at)[chosen] == '?');
    } else if at < chosen {
        assert(text.take(chosen)[at] == '?');
    }
}

/// The part of a connection string before its query.
pub open spec fn before_query(text: Seq<char>) -> Seq<char> {
    if text.contains('?') {
        text.take(choose|at: int| query_at(text, at))
    } else {
        text
    }
}

/// The parameters in the query of a connection string.
pub open spec fn query_params(text: Seq<char>) -> Seq<Seq<char>> {
    if text.contains('?') {
        split(text.skip((choose|at: int| query_at(text, at)) + 1), '&')
    } else {
        Seq::empty()
    }
}

proof fn lemma_first_query_mark(text: Seq<char>) -> (at: int)
    requires
        text.contains('?'),
    ensures
        query_at(text, at),
        at == (choose|at: int| query_at(text, at)),
{
    lemma_some_query_mark(text);
    choose|at: int| query_at(text, at)
}

proof fn lemma_some_query_mark(text: Seq<char>)
    requires
        text.contains('?'),
    ensures
        exists|at: int| query_at(text, at),
    decreases text.len(),
{
    let shorter = text.drop_last();
    if shorter.contains('?') {
        lemma_some_query_mark(shorter);
        let at = choose|at: int| query_at(shorter, at);
        assert(text.take(at) == shorter.take(at));
        assert(query_at(text, at));
    } else {
        let i = choose|i: int| 0 <= i < text.len() && text[i] == '?';
        if i < text.len() - 1 {
            assert(shorter[i] == '?');
        }
        assert(text.take(text.len() - 1) == shorter);
        assert(query_at(text, text.len() - 1));
    }
}

proof fn lemma_filter_all<A>(items: Seq<A>, keep: spec_fn(A) -> bool)
    requires
        forall|i: int| 0 <= i < items.len() ==> keep(#[trigger] items[i]),
    ensures
        items.filter(keep) == items,
    decreases items.len(),
{
    reveal_with_fuel(Seq::filter, 2);
    if items.len() > 0 {
        let init = items.drop_last();
        assert forall|i: int| 0 <= i < init.len() implies keep(#[trigger] init[i]) by {
            assert(init[i] == items[i]);
        }
        lemma_filter_all(init, keep);
        assert(init.push(items.last()) == items);
    } else {
        assert(items.filter(keep) == items);
    }
}

/// What is kept of a query: pieces that are not the parameter `replication`, and
/// that splitting finds again once they are joined.
proof fn lemma_kept_params(query: Seq<char>)
    ensures
        ({
            let kept = kept_params(query);
            &&& forall|i: int| 0 <= i < kept.len() ==> !replication_param(#[trigger] kept[i])
            &&& kept.len() > 0 ==> split(join(kept, seq!['&']), '&') == kept
            &&& kept.filter(|param: Seq<char>| !replication_param(param)) == kept
        }),
{
    let all = split(query, '&');
    let keep = |param: Seq<char>| !replication_param(param);
    let kept = kept_params(query);
    lemma_split_pieces(query, '&');
    assert forall|i: int| 0 <= i < kept.len() implies !replication_param(#[trigger] kept[i])
        && !kept[i].contains('&') by {
        all.lemma_filter_pred(keep, i);
        all.lemma_filter_contains_rev(keep, kept[i]);
        let k = choose|k: int| 0 <= k < all.len() && all[k] == kept[i];
        assert(!all[k].contains('&'));
    }
    if kept.len() > 0 {
        lemma_split_join(kept, '&');
    }
    lemma_filter_all(kept, keep);
}

/// Without the parameter `replication` a connection string is what it was: the
/// part before the query is the same, and so are the other parameters and their
/// order. Without a query nothing changes.
pub proof fn law_only_the_replication_param_goes(text: Seq<char>)
    ensures
        before_query(without_replication(text)) == before_query(text),
        query_params(without_replication(text)) == query_params(text).filter(
            |param: Seq<char>| !replication_param(param),
        ),
        !text.contains('?') ==> without_replication(text) == text,
{
    let keep = |param: Seq<char>| !replication_param(param);
    if text.contains('?') {
        let at = lemma_first_query_mark(text);
        lemma_query_at(text, at);
        let result = without_replication(text);
        let kept = kept_params(text.skip(at + 1));
        lemma_kept_params(text.skip(at + 1));
        if kept.len() == 0 {
            assert(result == text.take(at));
            assert(kept == Seq::<Seq<char>>::empty());
        } else {
            reveal_strlit("?");
            assert(result.take(at) == text.take(at));
            assert(result.skip(at + 1) == join(kept, seq!['&']));
            assert(result[at] == '?');
            assert(query_at(result, at));
            lemma_query_at(result, at);
            let found = lemma_first_query_mark(result);
            if found < at {
                assert(result.take(at)[found] == '?');
            } else if at < found {
                assert(result.take(found)[at] == '?');
            }
        }
    } else {
        assert(query_params(text) == Seq::<Seq<char>>::empty());
        lemma_filter_all(query_params(text), keep);
    }
}

/// No parameter `replication` is left, and removing it again changes nothing.
pub proof fn law_removing_the_replication_param_twice(text: Seq<char>)
    ensures
        forall|i: int|
            0 <= i < query_params(without_replication(text)).len() ==> !replication_param(
                #[trigger] query_params(without_replication(text))[i],
            ),
        without_replication(without_replication(text)) == without_replication(text),
{
    let keep = |param: Seq<char>| !replication_param(param);
    let result = without_replication(text);
    law_only_the_replication_param_goes(text);
    assert forall|i: int| 0 <= i < query_params(result).len() implies !replication_param(
        #[trigger] query_params(result)[i],
    ) by {
        query_params(text).lemma_filter_pred(keep, i);
    }
    if result.contains('?') {
        let at = lemma_first_query_mark(result);
        lemma_query_at(result, at);
        let query = result.skip(at + 1);
        let params = split(query, '&');
        lemma_filter_all(params, keep);
        lemma_split_nonempty(query, '&');
        lemma_join_split(query, '&');
        reveal_strlit("?");
        assert(result.take(at) + "?"@ + query == result);
    }
}

impl Settings {
    /// The settings with another name for the sink.
    pub open spec fn with_sink(self, name: Seq<char>) -> Settings {
        Settings { event_sink: Some(name), ..self }
    }
}

/// Upper and lower case do not matter in the name of the sink: a name of ASCII
/// characters and its lower-case form give the same configuration, or the same
/// error. So do any two names that have the same lower-case form.
pub proof fn law_case_of_the_sink_name_does_not_matter(
    settings: Settings,
    name: Seq<char>,
    other: Seq<char>,
)
    ensures
        is_ascii_text(name) ==> {
            &&& is_ascii_text(ascii_lowercase(name))
            &&& settings.with_sink(name).validated_for(Some(ascii_lowercase(name)))
                == settings.with_sink(ascii_lowercase(name)).validated_for(
                Some(ascii_lowercase(ascii_lowercase(name))),
            )
        },
        lowercase(name) == lowercase(other) ==> settings.with_sink(name).validated()
            == settings.with_sink(other).validated(),
{
    if is_ascii_text(name) {
        let lower = ascii_lowercase(name);
        assert forall|i: int| 0 <= i < lower.len() implies (#[trigger] lower[i] as u32) < 0x80 by {
            assert((name[i] as u32) < 0x80);
        }
        assert(ascii_lowercase(lower) == lower);
    }
}

/// A name that is accepted for a sink, of whatever characters, is accepted in
/// lower case too, and gives the same configuration: its lower-case form is made
/// of ASCII characters, and is its own lower-case form.
pub proof fn law_an_accepted_sink_name_is_accepted_in_lower_case(
    settings: Settings,
    name: Seq<char>,
)
    ensures
        settings.with_sink(name).validated() is Ok ==> {
            &&& is_ascii_text(lowercase(name))
            &&& settings.with_sink(name).validated() == settings.with_sink(
                lowercase(name),
            ).validated_for(Some(ascii_lowercase(lowercase(name))))
        },
{
    reveal_strlit("http");
    reveal_strlit("hook0");
    reveal_strlit("stdout");
    assert(ascii_lowercase("http"@) == "http"@);
    assert(ascii_lowercase("hook0"@) == "hook0"@);
    assert(ascii_lowercase("stdout"@) == "stdout"@);
}

/// A connection string is all that has to be set: the rest has defaults, and the
/// default sink is the standard output.
pub proof fn law_the_rest_has_defaults(env: Environment, connection_string: Seq<char>)
    requires
        !blank(connection_string),
        env.slot_name is None,
        env.pub_name is None,
        env.event_sink is None,
    ensures
        env.settings(connection_string).validated() == Ok::<ConfigView, ErrorView>(
            ConfigView {
                connection_string,
                publication_name: "pub"@,
                slot_name: "sub"@,
                feedback_interval_secs: 1,
                event_sink: EventSinkType::Stdout,
                http_endpoint_url: env.settings(connection_string).http_endpoint_url,
                hook0_api_url: env.settings(connection_string).hook0_api_url,
                hook0_application_id: env.settings(connection_string).hook0_application_id,
                hook0_api_token: env.settings(connection_string).hook0_api_token,
            },
        ),
{
    reveal_strlit("pub");
    reveal_strlit("sub");
    assert("pub"@[0] == 'p' && "sub"@[0] == 's');
    assert(!white_space("pub"@[0]));
    assert(!white_space("sub"@[0]));
}

/// What a valid configuration is made of: a connection string and a publication that
/// are not blank, a slot name of at most 63 letters, digits and underscores, and a sink
/// that has its settings. Without a name the sink is the standard output.
pub proof fn law_which_settings_are_valid(settings: Settings, name: Option<Seq<char>>)
    ensures
        settings.validated_for(name) is Ok <==> {
            &&& !blank(settings.connection_string)
            &&& !blank(settings.publication_name)
            &&& 0 < settings.slot_name.len() <= 63
            &&& identifier_text(settings.slot_name)
            &&& {
                ||| name is None
                ||| name == Some("stdout"@)
                ||| name == Some("http"@) && (settings.http_endpoint_url matches Some(url)
                    && !blank(url) && ("http://"@.is_prefix_of(url) || "https://"@.is_prefix_of(
                    url,
                )))
                ||| name == Some("hook0"@) && settings.hook0_application_id is Some && (
                settings.hook0_api_token matches Some(token) && !blank(token)) && (
                settings.hook0_api_url matches Some(url) && !blank(url) && ("http://"@.is_prefix_of(
                    url,
                ) || "https://"@.is_prefix_of(url)))
            }
        },
        settings.validated_for(name) matches Ok(config) ==> {
            &&& config.connection_string == settings.connection_string
            &&& config.publication_name == settings.publication_name
            &&& config.slot_name == settings.slot_name
            &&& config.feedback_interval_secs == 1
            &&& config.http_endpoint_url == settings.http_endpoint_url
            &&& config.hook0_api_url == settings.hook0_api_url
            &&& config.hook0_application_id == settings.hook0_application_id
            &&& config.hook0_api_token == settings.hook0_api_token
            &&& config.event_sink is Http <==> name == Some("http"@)
            &&& config.event_sink is Hook0 <==> name == Some("hook0"@)
            &&& config.event_sink is Stdout <==> name is None || name == Some("stdout"@)
        },
{
    reveal_strlit("http");
    reveal_strlit("hook0");
    reveal_strlit("stdout");
    assert("http"@.len() == 4 && "hook0"@.len() == 5 && "stdout"@.len() == 6);
    if settings.slot_name.len() > 0 && identifier_text(settings.slot_name) {
        assert(identifier_char(settings.slot_name[0]));
        assert(!white_space(settings.slot_name[0]));
    }
}

/// The first thing that is wrong with the names and the connection string is what the
/// error says, before anything about the sink.
pub proof fn law_what_is_wrong_with_the_names(settings: Settings, name: Option<Seq<char>>)
    ensures
        ({
            let wrong = if blank(settings.connection_string) {
                Some("DATABASE_URL cannot be empty"@)
            } else if blank(settings.publication_name) {
                Some("Publication name cannot be empty"@)
            } else if blank(settings.slot_name) {
                Some("Slot name cannot be empty"@)
            } else if exists|i: int|
                0 <= i < settings.slot_name.len() && !identifier_char(
                    #[trigger] settings.slot_name[i],
                ) {
                Some("Slot name can only contain alphanumeric characters and underscores"@)
            } else if settings.slot_name.len() > 63 {
                Some("Slot name cannot be longer than 63 characters"@)
            } else {
                None
            };
            wrong matches Some(message) ==> settings.validated_for(name) == Err::<
                ConfigView,
                ErrorView,
            >(ErrorView::Config(message))
        }),
{
}

/// With good names, the first thing that is wrong with the sink is what the error says.
pub proof fn law_what_is_wrong_with_the_sink(settings: Settings, name: Seq<char>)
    requires
        !blank(settings.connection_string),
        !blank(settings.publication_name),
        !blank(settings.slot_name),
        identifier_text(settings.slot_name),
        settings.slot_name.len() <= 63,
    ensures
        ({
            let url = settings.hook0_api_url;
            let token = settings.hook0_api_token;
            let endpoint = settings.http_endpoint_url;
            let wrong = if name == "http"@ {
                if endpoint is None || blank(endpoint->0) {
                    Some("HTTP_ENDPOINT_URL is required when using 'http' event sink"@)
                } else if !"http://"@.is_prefix_of(endpoint->0) && !"https://"@.is_prefix_of(
                    endpoint->0,
                ) {
                    Some("HTTP_ENDPOINT_URL must start with http:// or https://"@)
                } else {
                    None
                }
            } else if name == "hook0"@ {
                if url is None || blank(url->0) {
                    Some("HOOK0_API_URL is required when using 'hook0' event sink"@)
                } else if settings.hook0_application_id is None {
                    Some("HOOK0_APPLICATION_ID is required when using 'hook0' event sink"@)
                } else if token is None || blank(token->0) {
                    Some("HOOK0_API_TOKEN is required when using 'hook0' event sink"@)
                } else if !"http://"@.is_prefix_of(url->0) && !"https://"@.is_prefix_of(url->0) {
                    Some("HOOK0_API_URL must start with http:// or https://"@)
                } else {
                    None
                }
            } else if name == "stdout"@ {
                None
            } else {
                Some("EVENT_SINK must be one of: 'http', 'hook0', or 'stdout'"@)
            };
            match wrong {
                Some(message) => settings.validated_for(Some(name)) == Err::<
                    ConfigView,
                    ErrorView,
                >(ErrorView::Config(message)),
                None => settings.validated_for(Some(name)) is Ok,
            }
        }),
{
}

/// The settings are what the environment holds, with `sub` and `pub` for the names that
/// it does not hold. The name of the sink is taken in lower case.
pub proof fn law_settings_come_from_the_environment(
    env: Environment,
    connection_string: Seq<char>,
)
    ensures
        ({
            let settings = env.settings(connection_string);
            &&& settings.connection_string == connection_string
            &&& settings.slot_name == (match env.slot_name {
                Some(text) => text@,
                None => "sub"@,
            })
            &&& settings.publication_name == (match env.pub_name {
                Some(text) => text@,
                None => "pub"@,
            })
            &&& settings.event_sink == text_option(env.event_sink)
            &&& settings.http_endpoint_url == text_option(env.http_endpoint_url)
            &&& settings.hook0_api_url == text_option(env.hook0_api_url)
            &&& settings.hook0_api_token == text_option(env.hook0_api_token)
            &&& settings.hook0_application_id == (match env.hook0_application_id {
                Some(text) => match parsed_uuid(text@) {
                    Some(bits) => Some(Uuid { bits }),
                    None => None,
                },
                None => None,
            })
            &&& settings.validated() == settings.validated_for(
                match settings.event_sink {
                    Some(name) => Some(lowercase(name)),
                    None => None,
                },
            )
        }),
{
}

/// Names of sinks.
pub proof fn law_sinks_have_names()
    ensures
        EventSinkType::Http.name() == "http"@,
        EventSinkType::Hook0.name() == "hook0"@,
        EventSinkType::Stdout.name() == "stdout"@,
{
}

/// How the query of a connection string is cleaned, one parameter after the other: a
/// first parameter, or one more, is left out if it begins with `replication=`, and
/// otherwise it stays, behind a question mark if it is the first that stays, and else
/// behind an ampersand.
pub proof fn law_parameters_go_or_stay_one_by_one(text: Seq<char>, param: Seq<char>)
    requires
        !param.contains('&'),
    ensures
        !text.contains('?') ==> {
            &&& without_replication(text) == text
            &&& without_replication(text + seq!['?'] + param) == (if "replication="@.is_prefix_of(
                param,
            ) {
                text
            } else {
                text + seq!['?'] + param
            })
        },
        text.contains('?') ==> without_replication(text + seq!['&'] + param) == (
        if "replication="@.is_prefix_of(param) {
            without_replication(text)
        } else if without_replication(text).contains('?') {
            without_replication(text) + seq!['&'] + param
        } else {
            without_replication(text) + seq!['?'] + param
        }),
{
    reveal_strlit("?");
    assert("?"@ == seq!['?']);
    reveal_with_fuel(Seq::filter, 3);
    let keep = |p: Seq<char>| !replication_param(p);
    if !text.contains('?') {
        let whole = text + seq!['?'] + param;
        let at = text.len() as int;
        assert(whole.take(at) == text);
        assert(whole.skip(at + 1) == param);
        assert(whole[at] == '?');
        lemma_query_at(whole, at);
        lemma_split_single(param, '&');
        let one = seq![param];
        assert(one.drop_last() == Seq::<Seq<char>>::empty());
        assert(one.last() == param);
        if replication_param(param) {
            assert(kept_params(param) == Seq::<Seq<char>>::empty());
        } else {
            assert(kept_params(param) == one);
            assert(join(one, seq!['&']) == param);
        }
    } else {
        let at = lemma_first_query_mark(text);
        lemma_query_at(text, at);
        let whole = text + seq!['&'] + param;
        let query = text.skip(at + 1);
        assert(whole.take(at) == text.take(at));
        assert(whole[at] == '?');
        lemma_query_at(whole, at);
        assert(whole.skip(at + 1) == query + seq!['&'] + param);
        lemma_split_append(query, param, '&');
        let before = split(query, '&');
        let after = before.push(param);
        assert(after.drop_last() == before);
        assert(after.last() == param);
        let kept = kept_params(query);
        let head = text.take(at);
        if replication_param(param) {
            assert(kept_params(whole.skip(at + 1)) == kept);
        } else {
            assert(kept_params(whole.skip(at + 1)) == kept.push(param));
            crate::text::law_pieces_are_joined_one_by_one(kept, param, seq!['&']);
            if kept.len() == 0 {
                assert(without_replication(text) == head);
                assert(!head.contains('?'));
                assert(without_replication(whole) == head + seq!['?'] + param);
            } else {
                let cleaned = without_replication(text);
                assert(cleaned == head + seq!['?'] + join(kept, seq!['&']));
                assert(cleaned[at] == '?');
                assert(without_replication(whole) == cleaned + seq!['&'] + param);
            }
        }
    }
}

/// The view of a configuration leaves nothing out.
pub proof fn law_a_configuration_is_seen_whole(config: ReplicationConfig)
    ensures
        config@.connection_string == config.connection_string@,
        config@.publication_name == config.publication_name@,
        config@.slot_name == config.slot_name@,
        config@.feedback_interval_secs == config.feedback_interval_secs,
        config@.event_sink == config.event_sink,
        config@.http_endpoint_url == (match config.http_endpoint_url {
            Some(url) => Some(url@),
            None => None,
        }),
        config@.hook0_api_url == (match config.hook0_api_url {
            Some(url) => Some(url@),
            None => None,
        }),
        config@.hook0_application_id == config.hook0_application_id,
        config@.hook0_api_token == (match config.hook0_api_token {
            Some(token) => Some(token@),
            None => None,
        }),
{
}

/// What holds of every configuration: what its settings had to be, with feedback every
/// second.
pub proof fn law_what_holds_of_every_configuration(config: ConfigView)
    ensures
        config.well_formed() <==> {
            &&& !blank(config.connection_string)
            &&& !blank(config.publication_name)
            &&& 1 <= config.slot_name.len() <= 63
            &&& identifier_text(config.slot_name)
            &&& config.feedback_interval_secs == 1
            &&& config.event_sink is Http ==> (config.http_endpoint_url matches Some(url)
                && !blank(url) && ("http://"@.is_prefix_of(url) || "https://"@.is_prefix_of(url)))
            &&& config.event_sink is Hook0 ==> {
                &&& config.hook0_application_id is Some
                &&& config.hook0_api_token matches Some(token) && !blank(token)
                &&& config.hook0_api_url matches Some(url) && !blank(url) && (
                "http://"@.is_prefix_of(url) || "https://"@.is_prefix_of(url))
            }
        },
{
}

} // verus!
