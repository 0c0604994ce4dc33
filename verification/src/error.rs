//! The error that every command reports.
use vstd::prelude::*;

verus! {

/// What went wrong: a request of the operator, the program itself, a missing or
/// refused credential, or the connection to a server.
#[derive(Clone, Copy, Debug, PartialEq, Eq, Structural)]
pub enum ErrorKind {
    User,
    Internal,
    Auth,
    Network,
}

#[derive(Clone, Debug)]
pub struct CliError {
    pub kind: ErrorKind,
    pub message: String,
    pub http_status: Option<u16>,
}

pub struct ErrorView {
    pub kind: ErrorKind,
    pub message: Seq<char>,
    pub http_status: Option<u16>,
}

impl View for CliError {
    type V = ErrorView;

    open spec fn view(&self) -> ErrorView {
        ErrorView { kind: self.kind, message: self.message@, http_status: self.http_status }
    }
}

pub open spec fn user_error(message: Seq<char>) -> ErrorView {
    ErrorView { kind: ErrorKind::User, message, http_status: None }
}

pub open spec fn internal_error(message: Seq<char>) -> ErrorView {
    ErrorView { kind: ErrorKind::Internal, message, http_status: None }
}

pub open spec fn auth_error(message: Seq<char>) -> ErrorView {
    ErrorView { kind: ErrorKind::Auth, message, http_status: None }
}

pub open spec fn network_error(message: Seq<char>) -> ErrorView {
    ErrorView { kind: ErrorKind::Network, message, http_status: None }
}

pub open spec fn code_of(kind: ErrorKind) -> Seq<char> {
    match kind {
        ErrorKind::User => "cli.user"@,
        ErrorKind::Internal => "cli.internal"@,
        ErrorKind::Auth => "cli.auth"@,
        ErrorKind::Network => "cli.network"@,
    }
}

/// A result with both sides taken by their views.
pub open spec fn viewed<T: View>(r: Result<T, CliError>) -> Result<T::V, ErrorView> {
    match r {
        Ok(x) => Ok(x@),
        Err(e) => Err(e@),
    }
}

/// A result that carries no value, with its error taken by its view.
pub open spec fn done(r: Result<(), CliError>) -> Result<(), ErrorView> {
    match r {
        Ok(_) => Ok(()),
        Err(e) => Err(e@),
    }
}

impl CliError {
    pub fn user(message: String) -> (r: CliError)
        ensures
            r@ == user_error(message@),
    {
        CliError { kind: ErrorKind::User, message, http_status: None }
    }

    pub fn internal(message: String) -> (r: CliError)
        ensures
            r@ == internal_error(message@),
    {
        CliError { kind: ErrorKind::Internal, message, http_status: None }
    }

    pub fn auth(message: String) -> (r: CliError)
        ensures
            r@ == auth_error(message@),
    {
        CliError { kind: ErrorKind::Auth, message, http_status: None }
    }

    pub fn network(message: String) -> (r: CliError)
        ensures
            r@ == network_error(message@),
    {
        CliError { kind: ErrorKind::Network, message, http_status: None }
    }

    /// The same error, with the status that a server answered with.
    pub fn with_http_status(self, status: u16) -> (r: CliError)
        ensures
            r@ == (ErrorView { http_status: Some(status), ..self@ }),
    {
        CliError { kind: self.kind, message: self.message, http_status: Some(status) }
    }

    /// The message that the operator reads.
    pub fn to_string(&self) -> (r: String)
        ensures
            r@ == self@.message,
    {
        self.message.clone()
    }

    /// The code of the error, for programs that read it.
    pub fn error_code(&self) -> (r: &'static str)
        ensures
            r@ == code_of(self@.kind),
    {
        match self.kind {
            ErrorKind::User => "cli.user",
            ErrorKind::Internal => "cli.internal",
            ErrorKind::Auth => "cli.auth",
            ErrorKind::Network => "cli.network",
        }
    }

    /// A copy of the error.
    pub fn copy(&self) -> (r: CliError)
        ensures
            r@ == self@,
    {
        CliError {
            kind: self.kind,
            message: self.message.clone(),
            http_status: self.http_status,
        }
    }
}

/// True of the HTTP status codes that stand for success.
pub open spec fn success_status(code: u16) -> bool {
    200 <= code < 300
}

/// The token, or the error that asks the operator for one.
pub fn require_api_token(token: Option<String>) -> (r: Result<String, CliError>)
    ensures
        match token {
            Some(t) => r matches Ok(got) && got@ == t@,
            None => r matches Err(e) && e@ == auth_error(
                "missing api token (set VERDICTAN_API_TOKEN or run `verdictan auth login`)"@,
            ),
        },
{
    match token {
        Some(t) => Ok(t),
        None => Err(
            CliError::auth(
                "missing api token (set VERDICTAN_API_TOKEN or run `verdictan auth login`)".to_string(),
            ),
        ),
    }
}

} // verus!
