use commit_gen::cli::Args;
use commit_gen::ai::{request_body, request_url};
use commit_gen::error::PipelineError;
use commit_gen::pipeline::{exit_code, Action, Event, Outcome, Pipeline};
use commit_gen::prompt::create_prompt;

fn plain_args() -> Args {
    Args { start: None, included: None, lang: None, format: None }
}

fn fresh() -> Pipeline {
    Pipeline::new("KEY".to_string(), "TPL".to_string(), plain_args())
}

#[test]
fn full_run_commits_once_with_the_approved_subject() {
    let mut p = fresh();
    assert!(matches!(p.step(Event::Begin), Action::FetchDiff));

    let diff = "diff --git a/f b/f\n+new line";
    let act = p.step(Event::Diff(Ok(diff.to_string())));
    match act {
        Action::SendPrompt { url, body } => {
            assert_eq!(url, request_url("KEY"));
            let prompt = create_prompt(diff, &"TPL".to_string(), &plain_args());
            assert_eq!(body, request_body(&prompt));
        },
        other => panic!("expected a network request, got {:?}", other),
    }

    let reply = r#"{"candidates":[{"content":{"parts":[{"text":"fix: correct off-by-one"}]}}]}"#;
    let act = p.step(Event::Reply(Ok(reply.to_string())));
    match act {
        Action::AskOperator { message } => assert_eq!(message, "fix: correct off-by-one"),
        other => panic!("expected a confirmation prompt, got {:?}", other),
    }

    let act = p.step(Event::Decision(Ok("".to_string())));
    match act {
        Action::RunCommit { message } => assert_eq!(message, "fix: correct off-by-one"),
        other => panic!("expected exactly one commit, got {:?}", other),
    }

    let act = p.step(Event::Commit(Ok(())));
    match act {
        Action::Finish { outcome } => {
            assert!(matches!(outcome, Outcome::Committed));
            assert_eq!(exit_code(&outcome), 0);
        },
        other => panic!("expected the run to finish, got {:?}", other),
    }
}

#[test]
fn empty_diff_finishes_before_any_network_call_or_commit() {
    let mut p = fresh();
    assert!(matches!(p.step(Event::Begin), Action::FetchDiff));
    let act = p.step(Event::Diff(Ok("   \n ".to_string())));
    match act {
        Action::Finish { outcome } => {
            assert!(matches!(outcome, Outcome::Failed(PipelineError::NoStagedChanges)));
            assert_ne!(exit_code(&outcome), 0);
        },
        other => panic!("expected the run to finish, got {:?}", other),
    }
    // The run stays finished: no later event can reach the network or a commit.
    let act = p.step(Event::Reply(Ok("{}".to_string())));
    assert!(matches!(act, Action::Finish { .. }));
}

#[test]
fn declined_draft_aborts_without_a_commit() {
    let mut p = fresh();
    p.step(Event::Begin);
    p.step(Event::Diff(Ok("+change".to_string())));
    let reply = r#"{"candidates":[{"content":{"parts":[{"text":"chore: tidy"}]}}]}"#;
    p.step(Event::Reply(Ok(reply.to_string())));
    let act = p.step(Event::Decision(Ok("n".to_string())));
    match act {
        Action::Finish { outcome } => {
            assert!(matches!(outcome, Outcome::Aborted));
            assert_eq!(exit_code(&outcome), 1);
        },
        other => panic!("expected a cancellation, got {:?}", other),
    }
    let act = p.step(Event::Commit(Ok(())));
    assert!(matches!(act, Action::Finish { .. }));
}

#[test]
fn diff_failure_is_fatal() {
    let mut p = fresh();
    p.step(Event::Begin);
    let act = p.step(Event::Diff(Err(())));
    match act {
        Action::Finish { outcome } => {
            assert!(matches!(outcome, Outcome::Failed(PipelineError::VcsUnavailable)));
        },
        other => panic!("expected the run to finish, got {:?}", other),
    }
}

#[test]
fn transport_failure_is_fatal() {
    let mut p = fresh();
    p.step(Event::Begin);
    p.step(Event::Diff(Ok("+x".to_string())));
    let act = p.step(Event::Reply(Err(())));
    assert!(matches!(
        act,
        Action::Finish { outcome: Outcome::Failed(PipelineError::RequestFailed) }
    ));
}

#[test]
fn malformed_reply_is_fatal() {
    let mut p = fresh();
    p.step(Event::Begin);
    p.step(Event::Diff(Ok("+x".to_string())));
    let act = p.step(Event::Reply(Ok("<html>".to_string())));
    assert!(matches!(
        act,
        Action::Finish { outcome: Outcome::Failed(PipelineError::MalformedReply) }
    ));
}

#[test]
fn empty_reply_still_asks_the_operator() {
    let mut p = fresh();
    p.step(Event::Begin);
    p.step(Event::Diff(Ok("+x".to_string())));
    let act = p.step(Event::Reply(Ok("{}".to_string())));
    match act {
        Action::AskOperator { message } => assert_eq!(message, "No response from AI"),
        other => panic!("expected a confirmation prompt, got {:?}", other),
    }
}

#[test]
fn closed_input_is_fatal_not_a_decision() {
    let mut p = fresh();
    p.step(Event::Begin);
    p.step(Event::Diff(Ok("+x".to_string())));
    let reply = r#"{"candidates":[{"content":{"parts":[{"text":"m"}]}}]}"#;
    p.step(Event::Reply(Ok(reply.to_string())));
    let act = p.step(Event::Decision(Err(())));
    assert!(matches!(
        act,
        Action::Finish { outcome: Outcome::Failed(PipelineError::InputUnavailable) }
    ));
}

#[test]
fn failed_commit_keeps_the_tools_error_text() {
    let mut p = fresh();
    p.step(Event::Begin);
    p.step(Event::Diff(Ok("+x".to_string())));
    let reply = r#"{"candidates":[{"content":{"parts":[{"text":"m"}]}}]}"#;
    p.step(Event::Reply(Ok(reply.to_string())));
    p.step(Event::Decision(Ok("y".to_string())));
    let act = p.step(Event::Commit(Err("hook rejected".to_string())));
    match act {
        Action::Finish { outcome } => match outcome {
            Outcome::Failed(PipelineError::CommitFailed(stderr)) => {
                assert_eq!(stderr, "hook rejected");
                assert_eq!(
                    PipelineError::CommitFailed(stderr).describe(),
                    "hook rejected"
                );
            },
            other => panic!("expected the commit failure, got {:?}", other),
        },
        other => panic!("expected the run to finish, got {:?}", other),
    }
}

#[test]
fn mismatched_event_changes_nothing() {
    let mut p = fresh();
    let act = p.step(Event::Commit(Ok(())));
    assert!(matches!(act, Action::Idle));
    // The run still starts normally afterwards.
    assert!(matches!(p.step(Event::Begin), Action::FetchDiff));
}
