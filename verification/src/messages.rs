//! The closed sets of messages that cross the worker's two boundaries: the
//! command/response pair spoken with the presentation layer, and the model of
//! the daemon's request/response wire messages.

use vstd::prelude::*;

verus! {

/// A command from the presentation layer to the worker.
#[derive(Debug, Clone, PartialEq, Eq)]
pub enum Command {
    /// Abort the conversation immediately.
    Quit,
    /// A credential or free-text answer to the last requested input.
    Entered(String),
    /// Acknowledgement with no payload, for a prompt that requested no input.
    Next,
    /// The chosen session's launch command, sent only after `GetSession`.
    Session(String),
}

/// What the last daemon prompt requires the user to supply.
#[derive(Clone, Copy, Debug, PartialEq, Eq)]
pub enum InputType {
    NoInput,
    Password,
    Visible,
}

/// A response from the worker to the presentation layer.
#[derive(Debug, Clone, PartialEq, Eq)]
pub enum Responce {
    /// The whole flow (authentication + session start) succeeded; close.
    Success,
    /// A recoverable problem to display; the conversation continues.
    Error(String),
    /// An informational or prompt string to display.
    Message(String),
    /// The daemon requires input of the given kind.
    GetInput(InputType),
    /// Authentication succeeded; answer with `Command::Session`.
    GetSession,
}

/// Mathematical model of a `Command`.
pub ghost enum SpecCommand {
    Quit,
    Entered(Seq<char>),
    Next,
    Session(Seq<char>),
}

/// Mathematical model of a `Responce`.
pub ghost enum SpecResponce {
    Success,
    Error(Seq<char>),
    Message(Seq<char>),
    GetInput(InputType),
    GetSession,
}

/// Classification of a daemon-reported error.
#[derive(Clone, Copy, Debug, PartialEq, Eq)]
pub enum ErrorType {
    /// A generic error.
    Error,
    /// An error caused by failed authentication.
    AuthError,
}

/// The kind of prompt carried by a daemon `AuthMessage`.
#[derive(Clone, Copy, Debug, PartialEq, Eq)]
pub enum AuthMessageType {
    /// A question whose answer should be visible during input.
    Visible,
    /// A question whose answer should be kept secret during input.
    Secret,
    /// An information message; no credential is expected.
    Info,
    /// An error message; no credential is expected.
    Error,
}

/// Model of a request the worker sends to the daemon. The surrounding
/// application frames it with the daemon's wire codec.
#[derive(Debug, Clone, PartialEq, Eq)]
pub enum DaemonRequest {
    /// Initiate a login attempt for the given user.
    CreateSession { username: String },
    /// Answer the last auth message; `None` acknowledges a prompt that
    /// requested no input.
    PostAuthMessageResponse { response: Option<String> },
    /// Start the chosen session once authentication has succeeded.
    StartSession { cmd: Vec<String>, env: Vec<String> },
}

/// Model of a reply the daemon sends to the worker.
#[derive(Debug, Clone, PartialEq, Eq)]
pub enum DaemonResponse {
    /// The last request succeeded.
    Success,
    /// The last request failed; the daemon has closed the conversation.
    Error { error_type: ErrorType, description: String },
    /// The daemon asks a question or reports a message mid-authentication.
    AuthMessage { auth_message_type: AuthMessageType, auth_message: String },
}

/// Mathematical model of a `DaemonRequest`.
pub ghost enum SpecDaemonRequest {
    CreateSession { username: Seq<char> },
    PostAuthMessageResponse { response: Option<Seq<char>> },
    StartSession { cmd: Seq<Seq<char>>, env: Seq<Seq<char>> },
}

/// Mathematical model of a `DaemonResponse`.
pub ghost enum SpecDaemonResponse {
    Success,
    Error { error_type: ErrorType, description: Seq<char> },
    AuthMessage { auth_message_type: AuthMessageType, auth_message: Seq<char> },
}

impl View for DaemonRequest {
    type V = SpecDaemonRequest;

    open spec fn view(&self) -> SpecDaemonRequest {
        match self {
            DaemonRequest::CreateSession { username } => SpecDaemonRequest::CreateSession {
                username: username@,
            },
            DaemonRequest::PostAuthMessageResponse { response } => {
                SpecDaemonRequest::PostAuthMessageResponse {
                    response: match response {
                        Some(s) => Some(s@),
                        None => None,
                    },
                }
            },
            DaemonRequest::StartSession { cmd, env } => SpecDaemonRequest::StartSession {
                cmd: cmd@.map_values(|s: String| s@),
                env: env@.map_values(|s: String| s@),
            },
        }
    }
}

impl View for DaemonResponse {
    type V = SpecDaemonResponse;

    open spec fn view(&self) -> SpecDaemonResponse {
        match self {
            DaemonResponse::Success => SpecDaemonResponse::Success,
            DaemonResponse::Error { error_type, description } => SpecDaemonResponse::Error {
                error_type: *error_type,
                description: description@,
            },
            DaemonResponse::AuthMessage { auth_message_type, auth_message } => {
                SpecDaemonResponse::AuthMessage {
                    auth_message_type: *auth_message_type,
                    auth_message: auth_message@,
                }
            },
        }
    }
}

impl View for Command {
    type V = SpecCommand;

    open spec fn view(&self) -> SpecCommand {
        match self {
            Command::Quit => SpecCommand::Quit,
            Command::Entered(s) => SpecCommand::Entered(s@),
            Command::Next => SpecCommand::Next,
            Command::Session(s) => SpecCommand::Session(s@),
        }
    }
}

impl View for Responce {
    type V = SpecResponce;

    open spec fn view(&self) -> SpecResponce {
        match self {
            Responce::Success => SpecResponce::Success,
            Responce::Error(s) => SpecResponce::Error(s@),
            Responce::Message(s) => SpecResponce::Message(s@),
            Responce::GetInput(t) => SpecResponce::GetInput(*t),
            Responce::GetSession => SpecResponce::GetSession,
        }
    }
}

} // verus!
