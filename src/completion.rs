use vstd::prelude::*;
use crate::dto::{FinishExamRequest, Judge0SubmissionRequest};
use crate::error::{AppError, ExternalFailure};
use crate::model::UserModel;
use crate::text::{non_blank, opt_view, trim_str, trimmed};

verus! {

/// The enrollment once its exam is finished: inactive, holding the submitted
/// code. Nothing else changes.
pub open spec fn completed_user(u: UserModel, code: String) -> UserModel {
    UserModel { active: false, code: code, ..u }
}

/// The judge submission for a finished exam: the code, the language and the
/// user's identifier, with no input, expected output or limits.
pub open spec fn submission_for(s: Judge0SubmissionRequest, req: FinishExamRequest) -> bool {
    &&& s.source_code == req.code
    &&& s.language_id == req.language_id
    &&& s.npm == Some(req.npm)
    &&& s.stdin.is_none()
    &&& s.expected_output.is_none()
    &&& s.cpu_time_limit_millis.is_none()
    &&& s.memory_limit.is_none()
    &&& s.compiler_options.is_none()
    &&& s.command_line_arguments.is_none()
}

/// The local half of finishing an exam.
#[derive(Clone, Debug)]
pub struct Completion {
    /// The enrollment to store, before and whatever the judge answers.
    pub user: UserModel,
    /// What to send to the judge.
    pub submission: Judge0SubmissionRequest,
}

/// Finishes the exam of the enrollment found for the request: deactivates it,
/// keeps the submitted code, and prepares the judge submission. A missing
/// enrollment is an error. Finishing twice is allowed: the code is submitted
/// again and the user stays inactive.
pub fn finish_exam(found: Option<UserModel>, req: FinishExamRequest) -> (r: Result<
    Completion,
    AppError,
>)
    ensures
        match found {
            None => r == Err::<Completion, AppError>(AppError::UserNotFound),
            Some(u) => r is Ok && r->Ok_0.user == completed_user(u, req.code) && submission_for(
                r->Ok_0.submission,
                req,
            ),
        },
{
    match found {
        None => Err(AppError::UserNotFound),
        Some(u) => {
            let user = UserModel { active: false, code: req.code.clone(), ..u };
            let submission = Judge0SubmissionRequest {
                source_code: req.code,
                language_id: req.language_id,
                stdin: None,
                expected_output: None,
                cpu_time_limit_millis: None,
                memory_limit: None,
                compiler_options: None,
                command_line_arguments: None,
                npm: Some(req.npm),
            };
            Ok(Completion { user, submission })
        },
    }
}

/// Finishing an exam always leaves the enrollment inactive with the
/// submitted code. That state is fixed before the judge is called, and the
/// judge's answer (`judge_response`) has no part in it, so it holds whatever
/// status the judge returns.
pub proof fn lemma_completion_deactivates(u: UserModel, code: String)
    ensures
        !completed_user(u, code).active,
        completed_user(u, code).code == code,
        completed_user(completed_user(u, code), code) == completed_user(u, code),
{
}

/// Path and query of a synchronous submission, after the judge's base URL.
pub open spec fn submissions_suffix() -> Seq<char> {
    "/submissions?base64_encoded=false&wait=true"@
}

/// URL of a synchronous, plain-text submission to the judge at `base`.
pub fn submission_endpoint(base: &str) -> (r: String)
    ensures
        r@ == base@ + submissions_suffix(),
{
    let mut url = base.to_owned();
    url.append("/submissions?base64_encoded=false&wait=true");
    url
}

/// Whether an HTTP status reports success.
pub open spec fn is_success(status: u16) -> bool {
    200 <= status <= 299
}

/// The judge's answer as the caller receives it: the body unchanged on
/// success; otherwise an external error that carries the status and the body.
pub fn judge_response(status: u16, body: String) -> (r: Result<String, AppError>)
    ensures
        is_success(status) ==> r == Ok::<String, AppError>(body),
        !is_success(status) ==> r == Err::<String, AppError>(
            AppError::External(ExternalFailure::Status { status, body }),
        ),
{
    if 200 <= status && status <= 299 {
        Ok(body)
    } else {
        Err(AppError::External(ExternalFailure::Status { status, body }))
    }
}

/// The user that a direct submission is recorded for: its identifier,
/// trimmed, when one is given and not blank.
pub open spec fn owner_of(npm: Option<Seq<char>>) -> Option<Seq<char>> {
    match npm {
        Some(n) => non_blank(trimmed(n)),
        None => None,
    }
}

/// The user that a direct submission is recorded for, if any.
pub fn submission_owner(npm: &Option<String>) -> (r: Option<String>)
    ensures
        opt_view(r) == owner_of(opt_view(*npm)),
{
    match npm {
        Some(n) => {
            let t = trim_str(n.as_str());
            if t.unicode_len() == 0 {
                None
            } else {
                Some(t.to_owned())
            }
        },
        None => None,
    }
}

/// The enrollment after a direct submission at `now`: it holds the code.
pub fn record_submitted_code(user: &mut UserModel, code: &String, now: i64)
    ensures
        *final(user) == (UserModel { code: *code, updated_at: now, ..*old(user) }),
{
    user.code = code.clone();
    user.updated_at = now;
}

} // verus!
