//! The orchestrator: a strictly linear state machine that sequences diff
//! collection, prompt dispatch, confirmation and the commit, and turns any
//! stage failure into a terminal outcome. It decides; the outside work it
//! asks for (the diff, the network call, the operator's line, the commit)
//! is handed back to it as events.

use vstd::prelude::*;
use vstd::string::*;
use crate::ai::{
    is_json, message_spec, reply_to_message, request_body, request_body_spec, request_url,
    request_url_spec,
};
use crate::cli::Args;
use crate::config::{affirmative_spec, confirm_commit};
use crate::error::PipelineError;
use crate::prompt::{create_prompt, prompt_spec};
use crate::text::{trim_spec, trim_str};

verus! {

/// How a finished run ended: with a commit, with a deliberate cancellation,
/// or with a failure.
#[derive(Debug)]
pub enum Outcome {
    Committed,
    Aborted,
    Failed(PipelineError),
}

impl Clone for Outcome {
    fn clone(&self) -> (r: Self)
        ensures
            r == *self,
    {
        match self {
            Outcome::Committed => Outcome::Committed,
            Outcome::Aborted => Outcome::Aborted,
            Outcome::Failed(e) => Outcome::Failed(e.clone()),
        }
    }
}

/// Where a run stands, between two pieces of outside work.
#[derive(Debug)]
pub enum Stage {
    Start,
    AwaitingDiff,
    AwaitingReply,
    AwaitingDecision { message: String },
    AwaitingCommit,
    Done { outcome: Outcome },
}

/// What the outside world reports back into the machine.
#[derive(Debug)]
pub enum Event {
    Begin,
    /// The staged diff text, or a failure to invoke the version-control
    /// tool.
    Diff(Result<String, ()>),
    /// The backend's reply body, or a transport failure.
    Reply(Result<String, ()>),
    /// One line of operator input, or a closed input stream.
    Decision(Result<String, ()>),
    /// The commit command's exit: success, or its standard-error text.
    Commit(Result<(), String>),
}

/// What the machine asks the outside world to do next.
#[derive(Debug)]
pub enum Action {
    /// Compute the staged diff.
    FetchDiff,
    /// Send the body to the URL and hand back the reply text.
    SendPrompt { url: String, body: String },
    /// Show the drafted message, ask for approval, read one line.
    AskOperator { message: String },
    /// Commit with the message as the subject.
    RunCommit { message: String },
    /// The run is over; report the outcome and exit.
    Finish { outcome: Outcome },
    /// The event did not belong to the current stage; nothing to do.
    Idle,
}

/// One run of the assistant: the configuration, resolved before the run
/// starts and read-only throughout, and the stage the run stands in.
pub struct Pipeline {
    pub api_key: String,
    pub template: String,
    pub args: Args,
    pub stage: Stage,
}

/// The two sides agree on configuration: stepping never touches it.
pub open spec fn same_config(a: Pipeline, b: Pipeline) -> bool {
    &&& a.api_key == b.api_key
    &&& a.template == b.template
    &&& a.args == b.args
}

/// The stage and action that end a run with the given failure.
pub open spec fn failed_rel(post: Pipeline, act: Action, e: PipelineError) -> bool {
    &&& post.stage == (Stage::Done { outcome: Outcome::Failed(e) })
    &&& act == (Action::Finish { outcome: Outcome::Failed(e) })
}

/// The whole transition relation, one arm per stage and the event it
/// awaits. Transitions are strictly linear; an event that does not belong
/// to the current stage changes nothing.
pub open spec fn step_rel(pre: Pipeline, ev: Event, post: Pipeline, act: Action) -> bool {
    match (pre.stage, ev) {
        (Stage::Start, Event::Begin) => {
            &&& post.stage == Stage::AwaitingDiff
            &&& act == Action::FetchDiff
        },
        (Stage::AwaitingDiff, Event::Diff(r)) => match r {
            Result::Ok(out) => {
                let d = trim_spec(out@);
                if d.len() == 0 {
                    failed_rel(post, act, PipelineError::NoStagedChanges)
                } else {
                    &&& post.stage == Stage::AwaitingReply
                    &&& act matches Action::SendPrompt { url, body } && url@ == request_url_spec(
                        pre.api_key@,
                    ) && body@ == request_body_spec(prompt_spec(pre.template@, pre.args, d))
                }
            },
            Result::Err(_) => failed_rel(post, act, PipelineError::VcsUnavailable),
        },
        (Stage::AwaitingReply, Event::Reply(r)) => match r {
            Result::Ok(body) => if is_json(body@) {
                &&& post.stage matches Stage::AwaitingDecision { message } && message@
                    == message_spec(body@)
                &&& act matches Action::AskOperator { message } && message@ == message_spec(
                    body@,
                )
            } else {
                failed_rel(post, act, PipelineError::MalformedReply)
            },
            Result::Err(_) => failed_rel(post, act, PipelineError::RequestFailed),
        },
        (Stage::AwaitingDecision { message }, Event::Decision(r)) => match r {
            Result::Ok(line) => if affirmative_spec(line@) {
                &&& post.stage == Stage::AwaitingCommit
                &&& act == (Action::RunCommit { message })
            } else {
                &&& post.stage == (Stage::Done { outcome: Outcome::Aborted })
                &&& act == (Action::Finish { outcome: Outcome::Aborted })
            },
            Result::Err(_) => failed_rel(post, act, PipelineError::InputUnavailable),
        },
        (Stage::AwaitingCommit, Event::Commit(r)) => match r {
            Result::Ok(_) => {
                &&& post.stage == (Stage::Done { outcome: Outcome::Committed })
                &&& act == (Action::Finish { outcome: Outcome::Committed })
            },
            Result::Err(stderr) => failed_rel(
                post,
                act,
                PipelineError::CommitFailed(stderr),
            ),
        },
        (Stage::Done { outcome }, _) => {
            &&& post.stage == pre.stage
            &&& act == (Action::Finish { outcome })
        },
        _ => {
            &&& post == pre
            &&& act == Action::Idle
        },
    }
}

impl Pipeline {
    /// A fresh run, holding its credential, prompt template and options.
    pub fn new(api_key: String, template: String, args: Args) -> (p: Pipeline)
        ensures
            p.api_key == api_key,
            p.template == template,
            p.args == args,
            p.stage == Stage::Start,
    {
        Pipeline { api_key, template, args, stage: Stage::Start }
    }

    /// Drive the run one transition forward with what the outside world
    /// reported, and say what to do next.
    pub fn step(&mut self, ev: Event) -> (act: Action)
        ensures
            same_config(*old(self), *final(self)),
            step_rel(*old(self), ev, *final(self), act),
    {
        match (&self.stage, ev) {
            (Stage::Start, Event::Begin) => {
                self.stage = Stage::AwaitingDiff;
                Action::FetchDiff
            },
            (Stage::AwaitingDiff, Event::Diff(Result::Ok(out))) => {
                let d = trim_str(out.as_str());
                if d.unicode_len() == 0 {
                    self.stage = Stage::Done {
                        outcome: Outcome::Failed(PipelineError::NoStagedChanges),
                    };
                    Action::Finish { outcome: Outcome::Failed(PipelineError::NoStagedChanges) }
                } else {
                    let prompt = create_prompt(d, &self.template, &self.args);
                    let url = request_url(self.api_key.as_str());
                    let body = request_body(prompt.as_str());
                    self.stage = Stage::AwaitingReply;
                    Action::SendPrompt { url, body }
                }
            },
            (Stage::AwaitingDiff, Event::Diff(Result::Err(_))) => {
                self.stage = Stage::Done {
                    outcome: Outcome::Failed(PipelineError::VcsUnavailable),
                };
                Action::Finish { outcome: Outcome::Failed(PipelineError::VcsUnavailable) }
            },
            (Stage::AwaitingReply, Event::Reply(Result::Ok(body))) => {
                match reply_to_message(body.as_str()) {
                    Result::Ok(message) => {
                        let shown = message.clone();
                        self.stage = Stage::AwaitingDecision { message };
                        Action::AskOperator { message: shown }
                    },
                    Result::Err(_) => {
                        self.stage = Stage::Done {
                            outcome: Outcome::Failed(PipelineError::MalformedReply),
                        };
                        Action::Finish {
                            outcome: Outcome::Failed(PipelineError::MalformedReply),
                        }
                    },
                }
            },
            (Stage::AwaitingReply, Event::Reply(Result::Err(_))) => {
                self.stage = Stage::Done {
                    outcome: Outcome::Failed(PipelineError::RequestFailed),
                };
                Action::Finish { outcome: Outcome::Failed(PipelineError::RequestFailed) }
            },
            (Stage::AwaitingDecision { message }, Event::Decision(Result::Ok(line))) => {
                if confirm_commit(line.as_str()) {
                    let m = message.clone();
                    self.stage = Stage::AwaitingCommit;
                    Action::RunCommit { message: m }
                } else {
                    self.stage = Stage::Done { outcome: Outcome::Aborted };
                    Action::Finish { outcome: Outcome::Aborted }
                }
            },
            (Stage::AwaitingDecision { .. }, Event::Decision(Result::Err(_))) => {
                self.stage = Stage::Done {
                    outcome: Outcome::Failed(PipelineError::InputUnavailable),
                };
                Action::Finish { outcome: Outcome::Failed(PipelineError::InputUnavailable) }
            },
            (Stage::AwaitingCommit, Event::Commit(Result::Ok(_))) => {
                self.stage = Stage::Done { outcome: Outcome::Committed };
                Action::Finish { outcome: Outcome::Committed }
            },
            (Stage::AwaitingCommit, Event::Commit(Result::Err(stderr))) => {
                let kept = stderr.clone();
                self.stage = Stage::Done {
                    outcome: Outcome::Failed(PipelineError::CommitFailed(stderr)),
                };
                Action::Finish { outcome: Outcome::Failed(PipelineError::CommitFailed(kept)) }
            },
            (Stage::Done { outcome }, _) => {
                let o = outcome.clone();
                Action::Finish { outcome: o }
            },
            _ => Action::Idle,
        }
    }
}

/// The process exit status an outcome maps to: zero exactly on a
/// successful commit; cancellation and failure are observable as nonzero.
pub fn exit_code(outcome: &Outcome) -> (c: i32)
    ensures
        c == 0 <==> *outcome matches Outcome::Committed,
        c == 0 || c == 1,
{
    match outcome {
        Outcome::Committed => 0,
        _ => 1,
    }
}

/// Transitions never revisit an earlier stage: once a run is done it stays
/// done, with the same outcome, whatever else is reported.
pub proof fn lemma_done_is_terminal(pre: Pipeline, ev: Event, post: Pipeline, act: Action)
    requires
        step_rel(pre, ev, post, act),
        pre.stage matches Stage::Done { .. },
    ensures
        post.stage == pre.stage,
        pre.stage matches Stage::Done { outcome } ==> act == (Action::Finish { outcome }),
{
}

/// A network request is ever asked for only out of the diff stage, on a
/// staged diff that is non-empty after trimming, and it carries exactly
/// the fixed endpoint with the run's credential and the body built from
/// the run's template, options and that diff.
pub proof fn lemma_request_needs_changes(
    pre: Pipeline,
    ev: Event,
    post: Pipeline,
    act: Action,
    url: String,
    body: String,
)
    requires
        step_rel(pre, ev, post, act),
        act == (Action::SendPrompt { url, body }),
    ensures
        pre.stage == Stage::AwaitingDiff,
        ev matches Event::Diff(Result::Ok(out)) && trim_spec(out@).len() > 0 && url@
            == request_url_spec(pre.api_key@) && body@ == request_body_spec(
            prompt_spec(pre.template@, pre.args, trim_spec(out@)),
        ),
{
}

/// A commit is ever requested only out of the confirmation stage, on an
/// affirmative operator decision, and only with the very message that was
/// shown for confirmation.
pub proof fn lemma_commit_needs_consent(
    pre: Pipeline,
    ev: Event,
    post: Pipeline,
    act: Action,
    m: String,
)
    requires
        step_rel(pre, ev, post, act),
        act == (Action::RunCommit { message: m }),
    ensures
        pre.stage == (Stage::AwaitingDecision { message: m }),
        ev matches Event::Decision(Result::Ok(line)) && affirmative_spec(line@),
{
}

} // verus!
