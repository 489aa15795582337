//! Classification of a completion call's outcome.
//!
//! The call itself — one request carrying the ordered turns, under a
//! bounded wait — happens in the unverified host layer; it hands back a
//! `CompletionOutcome`, and this module turns every possible outcome into
//! either the first choice's text, verbatim, or the right error. No retry
//! is attempted on any failure.

use vstd::prelude::*;
use crate::errors::PgHumanError;

verus! {

/// What the transport layer reports for one completion call: the wait
/// ceiling was exceeded, the call failed in any other way (network
/// error, malformed response), or a response arrived, carrying each
/// returned choice's text in order (`None` where a choice came without
/// text content).
#[derive(Debug, Clone, PartialEq)]
pub enum CompletionOutcome {
    TimedOut,
    TransportFailure(String),
    Completed(Vec<Option<String>>),
}

/// Requires the configured credential before any network attempt:
/// returns it when present, and fails with `MissingCredential` when not.
pub fn require_credential(credential: &Option<String>) -> (r: Result<String, PgHumanError>)
    ensures
        r is Ok <==> credential is Some,
        credential matches Some(key) ==> (r matches Ok(k) && k@ == key@),
        credential is None ==> r == Err::<String, PgHumanError>(PgHumanError::MissingCredential),
{
    match credential {
        Some(key) => Ok(key.clone()),
        None => Err(PgHumanError::MissingCredential),
    }
}

/// True when `outcome` yields generated text: a response arrived and its
/// first choice has text content.
pub open spec fn outcome_has_text(outcome: CompletionOutcome) -> bool {
    &&& outcome matches CompletionOutcome::Completed(choices)
    &&& choices@.len() > 0
    &&& choices@[0] is Some
}

/// The generated text of a successful outcome: the first choice's
/// content, verbatim.
pub open spec fn outcome_text(outcome: CompletionOutcome) -> String
    recommends
        outcome_has_text(outcome),
{
    outcome->Completed_0@[0]->0
}

/// Turns the outcome of the completion call into the generated text or
/// the error that describes it: `CompletionTimeout` when the wait
/// ceiling was exceeded, `CompletionTransportFailure` for every other
/// failure (network error, choice without content, empty choice list),
/// the first choice's text verbatim otherwise. All but the first choice
/// are discarded; nothing is stripped from the text.
pub fn accept_completion(outcome: CompletionOutcome) -> (r: Result<String, PgHumanError>)
    ensures
        r is Ok <==> outcome_has_text(outcome),
        outcome_has_text(outcome) ==> r == Ok::<String, PgHumanError>(outcome_text(outcome)),
        outcome is TimedOut ==> r == Err::<String, PgHumanError>(PgHumanError::CompletionTimeout),
        outcome matches CompletionOutcome::TransportFailure(m) ==> r == Err::<
            String,
            PgHumanError,
        >(PgHumanError::CompletionTransportFailure(m)),
        outcome matches CompletionOutcome::Completed(choices) && choices@.len() == 0 ==> (r
            matches Err(e) && e matches PgHumanError::CompletionTransportFailure(m) && m@ == (
        "the completion returned no choices")@),
        outcome matches CompletionOutcome::Completed(choices) && choices@.len() > 0 && choices@[0]
            is None ==> (r matches Err(e) && e matches PgHumanError::CompletionTransportFailure(m)
            && m@ == ("the completion returned a choice with no content")@),
{
    match outcome {
        CompletionOutcome::TimedOut => Err(PgHumanError::CompletionTimeout),
        CompletionOutcome::TransportFailure(m) => Err(PgHumanError::CompletionTransportFailure(m)),
        CompletionOutcome::Completed(mut choices) => {
            if choices.len() == 0 {
                Err(
                    PgHumanError::CompletionTransportFailure(
                        String::from_str("the completion returned no choices"),
                    ),
                )
            } else {
                match choices.remove(0) {
                    Some(text) => Ok(text),
                    None => Err(
                        PgHumanError::CompletionTransportFailure(
                            String::from_str("the completion returned a choice with no content"),
                        ),
                    ),
                }
            }
        },
    }
}

} // verus!
