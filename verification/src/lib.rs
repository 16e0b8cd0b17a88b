//! Credential and session lifecycle for an authentication service: validated
//! value types, user, two-factor and revoked-token stores, signed session
//! tokens, and the sign-up, login, two-factor, logout and token-check
//! operations built from them.

use vstd::prelude::*;

pub mod app_state;
pub mod domain;
pub mod routes;
pub mod services;
pub mod utils;

use domain::error::{AuthAPIError, ErrorCause};
use domain::user::User;

verus! {

/// The body an error is answered with.
pub struct ErrorResponse {
    pub error: String,
}

/// A request that carries what a user is made of.
pub trait AuthRequest {
    /// Validates the request and makes the user it describes. A request that
    /// does not pass is answered with `InvalidCredentials`.
    fn into_user(self) -> Result<User, AuthAPIError>;
}

/// The rule that frames a report above and below.
pub const SEPARATOR: &'static str =
    "\n-----------------------------------------------------------------------------------\n";

/// The words that introduce each cause beneath the first.
pub const CAUSED_BY: &'static str = "Caused by:\n\n";

/// The part of a report that lists the causes beneath a failure, each on a
/// line of its own after [`CAUSED_BY`].
pub open spec fn causes_report(source: Option<Box<ErrorCause>>) -> Seq<char>
    decreases source,
{
    match source {
        None => Seq::empty(),
        Some(cause) => "\n"@ + CAUSED_BY@ + cause.message@ + causes_report(cause.source),
    }
}

/// The report of a failure and all that lies beneath it, between two rules.
pub open spec fn error_report(e: ErrorCause) -> Seq<char> {
    SEPARATOR@ + e.message@ + causes_report(e.source) + "\n"@ + SEPARATOR@
}

/// What the log is told of `error`: what the caller is told, and beneath it
/// the cause, which the caller is not told.
pub open spec fn report_of(error: AuthAPIError) -> Seq<char> {
    SEPARATOR@ + domain::error::message_of(error) + causes_report(
        match error {
            AuthAPIError::UnexpectedError(cause) => Some(Box::new(cause)),
            _ => None,
        },
    ) + "\n"@ + SEPARATOR@
}

/// An error as it leaves the service: the status and body for the caller,
/// and the report for the log.
pub struct ErrorReply {
    pub status: u16,
    pub body: ErrorResponse,
    pub report: String,
}

impl AuthAPIError {
    /// Turns the error into its answer. The caller is given the status and
    /// the message of the error's kind and nothing of its cause; the cause
    /// goes into the report.
    pub fn into_response(self) -> (reply: ErrorReply)
        ensures
            reply.status == domain::error::status_of(self),
            reply.body.error@ == domain::error::message_of(self),
            reply.report@ == report_of(self),
    {
        let status = self.status_code();
        let message = self.message();
        let body = ErrorResponse { error: message.clone() };
        let chain = match self {
            AuthAPIError::UnexpectedError(cause) => ErrorCause {
                message,
                source: Some(Box::new(cause)),
            },
            _ => ErrorCause { message, source: None },
        };
        let report = log_error_chain(&chain);
        ErrorReply { status, body, report }
    }
}

/// A client of `redis`, carried as it comes and never looked into.
#[verifier::external_type_specification]
#[verifier::external_body]
pub struct ExRedisClient(redis::Client);

/// The error of `redis`, carried as it comes and never looked into.
#[verifier::external_type_specification]
#[verifier::external_body]
pub struct ExRedisError(redis::RedisError);

/// Whether `redis` reads `url` as the address of a server.
pub uninterp spec fn is_redis_address(url: Seq<char>) -> bool;

/// Calls `redis::Client::open`, which reads the address and connects to
/// nothing yet.
///
/// Trusted: whether a client comes back depends on the address alone.
#[verifier::external_body]
fn open_redis_client(url: String) -> (r: Result<redis::Client, redis::RedisError>)
    ensures
        r is Ok <==> is_redis_address(url@),
{
    redis::Client::open(url)
}

/// What the address of a Redis server begins with.
pub const REDIS_SCHEME: &'static str = "redis://";

/// The address under which the Redis server on `redis_hostname` is reached.
pub fn redis_url(redis_hostname: &str) -> (url: String)
    ensures
        url@ == REDIS_SCHEME@ + redis_hostname@,
{
    let mut url = String::from_str(REDIS_SCHEME);
    url.append(redis_hostname);
    url
}

/// The client for the Redis server on `redis_hostname`, where that makes an
/// address.
pub fn get_redis_client(redis_hostname: String) -> (r: Result<redis::Client, redis::RedisError>)
    ensures
        r is Ok <==> is_redis_address(REDIS_SCHEME@ + redis_hostname@),
{
    open_redis_client(redis_url(redis_hostname.as_str()))
}

/// Writes out the chain of causes behind `e` as one report, for the log.
pub fn log_error_chain(e: &ErrorCause) -> (report: String)
    ensures
        report@ == error_report(*e),
{
    let mut report = String::from_str(SEPARATOR);
    report.append(e.message.as_str());
    let mut current: &Option<Box<ErrorCause>> = &e.source;
    loop
        invariant
            report@ + causes_report(*current) == SEPARATOR@ + e.message@ + causes_report(e.source),
        ensures
            report@ == SEPARATOR@ + e.message@ + causes_report(e.source),
        decreases *current,
    {
        match current {
            None => {
                break;
            },
            Some(cause) => {
                report.append("\n");
                report.append(CAUSED_BY);
                report.append(cause.message.as_str());
                current = &cause.source;
            },
        }
    }
    report.append("\n");
    report.append(SEPARATOR);
    report
}

} // verus!
