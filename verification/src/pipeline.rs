//! The orchestrator's decision steps.
//!
//! One invocation runs strictly in sequence: catalog rows are fetched,
//! grouped and rendered; the credential is required and the prompt
//! assembled; the completion call is made under its wait ceiling; its
//! text is returned, or executed in read or write mode. The host layer
//! performs the catalog queries, the network call and the final SQL
//! execution; every decision between those steps stands here, verified.
//! Every error aborts the whole invocation — no retry, no partial
//! result.

use vstd::prelude::*;
use crate::completion::accept_completion;
use crate::completion::outcome_has_text;
use crate::completion::outcome_text;
use crate::completion::require_credential;
use crate::completion::CompletionOutcome;
use crate::errors::PgHumanError;
use crate::prompt::is_question_prompt;
use crate::prompt::question_prompt;
use crate::prompt::ChatTurn;
use crate::schema::DatabaseDescription;
use crate::sqlexec::prepare_read_statement;
use crate::sqlexec::read_wrapped;
use crate::sqlexec::trimmed_sql;

verus! {

/// The three entry operations: return the generated SQL untouched,
/// execute it in read mode, or execute it in write mode.
#[derive(Debug, Clone, Copy, PartialEq, Eq, Structural)]
pub enum ExecutionMode {
    GenerateOnly,
    ReadRows,
    WriteStatement,
}

/// A credentialed, fully assembled completion request, ready for the
/// transport layer. A value of this type exists only when a credential
/// was configured.
#[derive(Debug, Clone, PartialEq)]
pub struct PlannedCompletion {
    pub api_key: String,
    pub turns: Vec<ChatTurn>,
}

/// What to do with the generated SQL once the completion arrived:
/// return the text as-is, run the prepared read-mode statement, or run
/// the text verbatim as a write statement.
#[derive(Debug, Clone, PartialEq)]
pub enum CompletionAction {
    ReturnText(String),
    RunRead(String),
    RunWrite(String),
}

/// Requires the configured credential and assembles the three-turn
/// prompt. Succeeds exactly when a credential is configured; with none,
/// it fails with `MissingCredential`, and no request — so no network
/// attempt — comes into being.
pub fn plan_completion(credential: &Option<String>, db: &DatabaseDescription, question: &str) -> (r:
    Result<PlannedCompletion, PgHumanError>)
    ensures
        r is Ok <==> credential is Some,
        credential is None ==> (r matches Err(e) && e is MissingCredential),
        r matches Ok(p) ==> (credential matches Some(key) && p.api_key@ == key@
            && is_question_prompt(p.turns@, db@, question@)),
{
    let api_key = match require_credential(credential) {
        Ok(key) => key,
        Err(e) => {
            return Err(e);
        },
    };
    let turns = question_prompt(db, question);
    Ok(PlannedCompletion { api_key, turns })
}

/// Decides what follows the completion call: the error that classifies a
/// failed outcome, or — for the first choice's text `t` — the mode's
/// action: `t` verbatim for generate-only and write mode, the trimmed
/// and wrapped read statement for read mode.
pub fn after_completion(mode: ExecutionMode, outcome: CompletionOutcome) -> (r: Result<
    CompletionAction,
    PgHumanError,
>)
    ensures
        r is Ok <==> outcome_has_text(outcome),
        outcome is TimedOut ==> (r matches Err(e) && e is CompletionTimeout),
        outcome matches CompletionOutcome::TransportFailure(m) ==> (r matches Err(e) && e matches
            PgHumanError::CompletionTransportFailure(mm) && mm == m),
        !outcome_has_text(outcome) ==> (r matches Err(e) && (e is CompletionTimeout || e matches
            PgHumanError::CompletionTransportFailure(_))),
        outcome_has_text(outcome) && mode == ExecutionMode::GenerateOnly ==> r == Ok::<
            CompletionAction,
            PgHumanError,
        >(CompletionAction::ReturnText(outcome_text(outcome))),
        outcome_has_text(outcome) && mode == ExecutionMode::ReadRows ==> (r matches Ok(a)
            && a matches CompletionAction::RunRead(s) && s@ == read_wrapped(
            trimmed_sql(outcome_text(outcome)@),
        )),
        outcome_has_text(outcome) && mode == ExecutionMode::WriteStatement ==> r == Ok::<
            CompletionAction,
            PgHumanError,
        >(CompletionAction::RunWrite(outcome_text(outcome))),
{
    let text = match accept_completion(outcome) {
        Ok(text) => text,
        Err(e) => {
            return Err(e);
        },
    };
    match mode {
        ExecutionMode::GenerateOnly => Ok(CompletionAction::ReturnText(text)),
        ExecutionMode::ReadRows => Ok(
            CompletionAction::RunRead(prepare_read_statement(text.as_str())),
        ),
        ExecutionMode::WriteStatement => Ok(CompletionAction::RunWrite(text)),
    }
}

} // verus!
