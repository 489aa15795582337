use pg_human::completion::accept_completion;
use pg_human::completion::require_credential;
use pg_human::completion::CompletionOutcome;
use pg_human::errors::PgHumanError;
use pg_human::pipeline::after_completion;
use pg_human::pipeline::plan_completion;
use pg_human::pipeline::CompletionAction;
use pg_human::pipeline::ExecutionMode;
use pg_human::schema::ColumnRow;
use pg_human::schema::DatabaseDescription;

fn small_description() -> DatabaseDescription {
    let rows = vec![ColumnRow {
        schema: "public".to_string(),
        table: "companies".to_string(),
        column: "id".to_string(),
        data_type: "bigint".to_string(),
    }];
    DatabaseDescription::build(&rows, &Vec::new())
}

#[test]
fn missing_credential_fails_before_any_request_exists() {
    let planned = plan_completion(&None, &small_description(), "count the companies");
    assert_eq!(Err(PgHumanError::MissingCredential), planned);
}

#[test]
fn configured_credential_yields_the_planned_request() {
    let credential = Some("unit-test-key".to_string());
    let planned = plan_completion(&credential, &small_description(), "count the companies")
        .expect("a configured credential must yield a plan");
    assert_eq!("unit-test-key", planned.api_key);
    assert_eq!(3, planned.turns.len());
}

#[test]
fn require_credential_reports_both_cases() {
    assert_eq!(Err(PgHumanError::MissingCredential), require_credential(&None));
    assert_eq!(Ok("k".to_string()), require_credential(&Some("k".to_string())));
}

#[test]
fn timed_out_completion_fails_with_timeout() {
    assert_eq!(
        Err(PgHumanError::CompletionTimeout),
        accept_completion(CompletionOutcome::TimedOut)
    );
    for mode in [
        ExecutionMode::GenerateOnly,
        ExecutionMode::ReadRows,
        ExecutionMode::WriteStatement,
    ] {
        assert_eq!(
            Err(PgHumanError::CompletionTimeout),
            after_completion(mode, CompletionOutcome::TimedOut)
        );
    }
}

#[test]
fn transport_failure_is_carried_verbatim() {
    let outcome = CompletionOutcome::TransportFailure("connection reset".to_string());
    assert_eq!(
        Err(PgHumanError::CompletionTransportFailure("connection reset".to_string())),
        accept_completion(outcome)
    );
}

#[test]
fn empty_choice_list_is_a_transport_failure() {
    let r = accept_completion(CompletionOutcome::Completed(Vec::new()));
    assert!(matches!(r, Err(PgHumanError::CompletionTransportFailure(_))));
}

#[test]
fn choice_without_content_is_a_transport_failure() {
    let r = accept_completion(CompletionOutcome::Completed(vec![None]));
    assert!(matches!(r, Err(PgHumanError::CompletionTransportFailure(_))));
}

#[test]
fn first_choice_text_is_returned_verbatim() {
    let outcome = CompletionOutcome::Completed(vec![
        Some("```sql\nSELECT 1;\n```".to_string()),
        Some("SELECT 2".to_string()),
    ]);
    // no post-processing: code fences and trailing semicolons survive
    assert_eq!(Ok("```sql\nSELECT 1;\n```".to_string()), accept_completion(outcome));
}

#[test]
fn generate_only_returns_the_text_untouched() {
    let outcome = CompletionOutcome::Completed(vec![Some("SELECT 1;\n".to_string())]);
    assert_eq!(
        Ok(CompletionAction::ReturnText("SELECT 1;\n".to_string())),
        after_completion(ExecutionMode::GenerateOnly, outcome)
    );
}

#[test]
fn read_mode_trims_and_wraps_the_text() {
    let outcome = CompletionOutcome::Completed(vec![Some("SELECT 1; -- x;\n  ".to_string())]);
    assert_eq!(
        Ok(CompletionAction::RunRead(
            "SELECT to_jsonb(generated_query) as data FROM (SELECT 1; -- x) generated_query"
                .to_string()
        )),
        after_completion(ExecutionMode::ReadRows, outcome)
    );
}

#[test]
fn write_mode_runs_the_text_verbatim() {
    let outcome = CompletionOutcome::Completed(vec![Some("DROP TABLE companies;\n".to_string())]);
    assert_eq!(
        Ok(CompletionAction::RunWrite("DROP TABLE companies;\n".to_string())),
        after_completion(ExecutionMode::WriteStatement, outcome)
    );
}

#[test]
fn error_descriptions_name_each_failure() {
    assert_eq!("pg_human.api_key is not set", PgHumanError::MissingCredential.describe());
    assert_eq!("the completion call timed out", PgHumanError::CompletionTimeout.describe());
    assert_eq!(
        "relation \"x\" does not exist",
        PgHumanError::GeneratedSqlExecutionFailure("relation \"x\" does not exist".to_string())
            .describe()
    );
    assert_eq!(
        "permission denied",
        PgHumanError::SchemaIntrospectionFailure("permission denied".to_string()).describe()
    );
    assert_eq!(
        "boom",
        PgHumanError::CompletionTransportFailure("boom".to_string()).describe()
    );
}
