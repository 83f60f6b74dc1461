//! Errors of the replication client.

use vstd::prelude::*;

verus! {

/// What can go wrong while replicating.
#[derive(Debug)]
pub enum ReplicationError {
    /// The configuration is missing something or holds something invalid.
    Config { message: String },
    /// The server, the protocol or an event sink did not do what it should.
    Protocol { message: String },
    /// A message was received and understood, but its contents were not.
    MessageParsing { message: String, context: Option<String> },
}

/// The result of an operation of the replication client.
pub type ReplicationResult<T> = Result<T, ReplicationError>;

/// A [`ReplicationError`] as a mathematical value.
pub enum ErrorView {
    Config(Seq<char>),
    Protocol(Seq<char>),
    MessageParsing(Seq<char>, Option<Seq<char>>),
}

impl View for ReplicationError {
    type V = ErrorView;

    open spec fn view(&self) -> ErrorView {
        match self {
            ReplicationError::Config { message } => ErrorView::Config(message@),
            ReplicationError::Protocol { message } => ErrorView::Protocol(message@),
            ReplicationError::MessageParsing { message, context } => ErrorView::MessageParsing(
                message@,
                text_option(*context),
            ),
        }
    }
}

impl ErrorView {
    /// The text that describes the error.
    pub open spec fn text(self) -> Seq<char> {
        match self {
            ErrorView::Config(message) => message,
            ErrorView::Protocol(message) => message,
            ErrorView::MessageParsing(message, _) => message,
        }
    }
}

/// An optional string as an optional text.
pub open spec fn text_option(text: Option<String>) -> Option<Seq<char>> {
    match text {
        Some(s) => Some(s@),
        None => None,
    }
}

/// A copy of an optional string.
pub fn copy_option(text: &Option<String>) -> (copy: Option<String>)
    ensures
        text_option(copy) == text_option(*text),
{
    match text {
        Some(s) => Some(s.clone()),
        None => None,
    }
}

/// A result in which both sides are taken by their views.
pub open spec fn outcome<T: View, E: View>(result: Result<T, E>) -> Result<T::V, E::V> {
    match result {
        Ok(value) => Ok(value@),
        Err(error) => Err(error@),
    }
}

/// A result without a value, in which the error is taken by its view.
pub open spec fn completion(result: ReplicationResult<()>) -> Result<(), ErrorView> {
    match result {
        Ok(_) => Ok(()),
        Err(error) => Err(error@),
    }
}

impl ReplicationError {
    /// A configuration error with the given message.
    pub fn config(message: &str) -> (error: ReplicationError)
        ensures
            error@ == ErrorView::Config(message@),
    {
        ReplicationError::Config { message: message.to_string() }
    }

    /// A protocol error with the given message.
    pub fn protocol(message: &str) -> (error: ReplicationError)
        ensures
            error@ == ErrorView::Protocol(message@),
    {
        ReplicationError::Protocol { message: message.to_string() }
    }

    /// The text that describes the error.
    pub fn to_text(&self) -> (text: String)
        ensures
            text@ == self@.text(),
    {
        match self {
            ReplicationError::Config { message } => message.clone(),
            ReplicationError::Protocol { message } => message.clone(),
            ReplicationError::MessageParsing { message, .. } => message.clone(),
        }
    }
}

/// The text of an error is its message, whatever else it holds.
pub proof fn law_the_text_of_an_error_is_its_message(
    message: Seq<char>,
    context: Option<Seq<char>>,
)
    ensures
        ErrorView::Config(message).text() == message,
        ErrorView::Protocol(message).text() == message,
        ErrorView::MessageParsing(message, context).text() == message,
{
}

/// The views of errors, optional texts and results leave nothing out.
pub proof fn law_errors_are_seen_whole<T: View, E: View>(
    message: String,
    context: String,
    error: ReplicationError,
    value: T,
    failure: E,
)
    ensures
        (ReplicationError::Config { message })@ == ErrorView::Config(message@),
        (ReplicationError::Protocol { message })@ == ErrorView::Protocol(message@),
        (ReplicationError::MessageParsing { message, context: Some(context) })@
            == ErrorView::MessageParsing(message@, Some(context@)),
        (ReplicationError::MessageParsing { message, context: None })@ == ErrorView::MessageParsing(
            message@,
            None,
        ),
        text_option(Some(message)) == Some(message@),
        text_option(None) is None,
        outcome(Ok::<T, E>(value)) == Ok::<T::V, E::V>(value@),
        outcome(Err::<T, E>(failure)) == Err::<T::V, E::V>(failure@),
        completion(Ok(())) is Ok,
        completion(Err(error)) == Err::<(), ErrorView>(error@),
{
}

} // verus!
