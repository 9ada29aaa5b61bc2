//! Errors reported to the host, and the prefix that marks them.

use vstd::prelude::*;
use vstd::string::StringExecFns;

verus! {

/// The prefix of every message that is reported to the host.
pub const ERR_PREFIX: &'static str = "[neon_ai]";

/// The text of an error that the host is to raise.
#[derive(Debug, PartialEq, Eq)]
pub struct PgError {
    pub message: String,
}

/// The prefix of every message, as a sequence of characters.
pub open spec fn err_prefix() -> Seq<char> {
    ERR_PREFIX@
}

/// The message for a missing value: the prefix, a space and `msg`.
pub open spec fn missing_message(msg: Seq<char>) -> Seq<char> {
    err_prefix() + seq![' '] + msg
}

/// The message for a failed operation: the prefix, a space, `msg`, a colon,
/// a space and the text of the failure.
pub open spec fn failure_message(msg: Seq<char>, cause: Seq<char>) -> Seq<char> {
    err_prefix() + seq![' '] + msg + seq![':', ' '] + cause
}

impl PgError {
    /// The error for a missing value, described by `msg`.
    pub fn missing(msg: &str) -> (error: PgError)
        ensures
            error.message@ == missing_message(msg@),
    {
        proof {
            reveal_strlit(" ");
        }
        let mut message = String::from_str(ERR_PREFIX);
        message.append(" ");
        message.append(msg);
        assert(message@ =~= missing_message(msg@));
        PgError { message }
    }

    /// The error for an operation, described by `msg`, that failed for
    /// `cause`.
    pub fn failed(msg: &str, cause: &str) -> (error: PgError)
        ensures
            error.message@ == failure_message(msg@, cause@),
    {
        proof {
            reveal_strlit(" ");
            reveal_strlit(": ");
        }
        let mut message = String::from_str(ERR_PREFIX);
        message.append(" ");
        message.append(msg);
        message.append(": ");
        message.append(cause);
        assert(message@ =~= failure_message(msg@, cause@));
        PgError { message }
    }
}

/// Turns a missing value into an error for the host.
pub trait UnwrapPgErrExt<T>: Sized {
    /// The value, if there is one.
    spec fn held(self) -> Option<T>;

    /// The value, or an error whose message is the prefix followed by `msg`.
    fn unwrap_or_pg_err(self, msg: &str) -> (r: Result<T, PgError>)
        ensures
            match self.held() {
                Some(value) => r == Ok::<T, PgError>(value),
                None => r is Err && r->Err_0.message@ == missing_message(msg@),
            },
    ;
}

impl<T> UnwrapPgErrExt<T> for Option<T> {
    open spec fn held(self) -> Option<T> {
        self
    }

    fn unwrap_or_pg_err(self, msg: &str) -> (r: Result<T, PgError>) {
        match self {
            None => Err(PgError::missing(msg)),
            Some(value) => Ok(value),
        }
    }
}

/// Turns a failed operation into an error for the host.
pub trait ExpectPgErrExt<T>: Sized {
    /// The value on success, the text of the failure otherwise.
    spec fn outcome(self) -> Result<T, Seq<char>>;

    /// The value, or an error whose message is the prefix, `msg` and the
    /// text of the failure.
    fn expect_or_pg_err(self, msg: &str) -> (r: Result<T, PgError>)
        ensures
            match self.outcome() {
                Ok(value) => r == Ok::<T, PgError>(value),
                Err(cause) => r is Err && r->Err_0.message@ == failure_message(msg@, cause),
            },
    ;
}

impl<T> ExpectPgErrExt<T> for Result<T, String> {
    open spec fn outcome(self) -> Result<T, Seq<char>> {
        match self {
            Ok(value) => Ok(value),
            Err(cause) => Err(cause@),
        }
    }

    fn expect_or_pg_err(self, msg: &str) -> (r: Result<T, PgError>) {
        match self {
            Err(cause) => Err(PgError::failed(msg, cause.as_str())),
            Ok(value) => Ok(value),
        }
    }
}

} // verus!
