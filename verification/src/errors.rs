//! Error taxonomy of the pipeline. Every failure aborts the whole
//! invocation; no variant is ever retried or silently swallowed.

use vstd::prelude::*;

verus! {

/// One failure of a pipeline invocation.
///
/// - `MissingCredential`: no completion-API credential is configured;
///   raised before any network attempt.
/// - `SchemaIntrospectionFailure`: a catalog query failed; the underlying
///   error text is carried verbatim.
/// - `CompletionTimeout`: the completion call exceeded the wait ceiling.
/// - `CompletionTransportFailure`: any other failure of the completion
///   call (network error, malformed response, empty choice list).
/// - `GeneratedSqlExecutionFailure`: the database engine failed while
///   running the generated statement; its error text is carried verbatim.
#[derive(Debug, Clone, PartialEq)]
pub enum PgHumanError {
    MissingCredential,
    SchemaIntrospectionFailure(String),
    CompletionTimeout,
    CompletionTransportFailure(String),
    GeneratedSqlExecutionFailure(String),
}

impl PgHumanError {
    /// A short human-readable description of the failure.
    pub fn describe(&self) -> (r: String)
        ensures
            self is MissingCredential ==> r@ == ("pg_human.api_key is not set")@,
            self is CompletionTimeout ==> r@ == ("the completion call timed out")@,
            self matches PgHumanError::SchemaIntrospectionFailure(m) ==> r@ == m@,
            self matches PgHumanError::CompletionTransportFailure(m) ==> r@ == m@,
            self matches PgHumanError::GeneratedSqlExecutionFailure(m) ==> r@ == m@,
    {
        match self {
            PgHumanError::MissingCredential => String::from_str("pg_human.api_key is not set"),
            PgHumanError::CompletionTimeout => String::from_str("the completion call timed out"),
            PgHumanError::SchemaIntrospectionFailure(m) => m.clone(),
            PgHumanError::CompletionTransportFailure(m) => m.clone(),
            PgHumanError::GeneratedSqlExecutionFailure(m) => m.clone(),
        }
    }
}

} // verus!
