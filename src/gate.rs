use vstd::prelude::*;
use crate::dto::{shows_classroom, LoginClassroomInfo};
use crate::error::{AppError, BadRequestReason, Denial};
use crate::model::{ClassroomModel, UserModel};
use crate::text::{trim_str, trimmed};
use crate::timing::{in_window, within_admission_window};

verus! {

/// Why the entry gate refuses a login at `now`, if it does. Timing is checked
/// only for exam classrooms, and only when both window bounds are set.
pub open spec fn gate_denial(
    active: bool,
    is_exam: bool,
    exam_start: Option<i64>,
    exam_end: Option<i64>,
    now: int,
) -> Option<Denial> {
    if !active {
        Some(Denial::Inactive)
    } else if is_exam && exam_start.is_some() && exam_end.is_some() && now
        < exam_start.unwrap() {
        Some(Denial::NotYetOpen)
    } else if is_exam && exam_start.is_some() && exam_end.is_some() && now > exam_end.unwrap() {
        Some(Denial::Closed)
    } else {
        None
    }
}

/// An active user is refused entry to an exam exactly when `now` lies
/// outside the admission window.
pub proof fn lemma_gate_follows_window(
    exam_start: Option<i64>,
    exam_end: Option<i64>,
    now: int,
)
    ensures
        gate_denial(true, true, exam_start, exam_end, now).is_none() == in_window(
            now,
            exam_start,
            exam_end,
        ),
{
}

/// The start marker after an admitted login at `now`: set once, on the first
/// admission to an exam, and kept from then on.
pub open spec fn started_after_gate(started: Option<i64>, is_exam: bool, now: i64) -> Option<
    i64,
> {
    if is_exam && started.is_none() {
        Some(now)
    } else {
        started
    }
}

/// `u` with its start marker replaced.
pub open spec fn with_started(u: UserModel, started: Option<i64>) -> UserModel {
    UserModel { exam_started_at: started, ..u }
}

/// The enrollment after an entry-gate call at `now`: unchanged when the
/// login is refused, otherwise with its start marker set as above.
pub open spec fn gate_user(u: UserModel, classroom: ClassroomModel, now: i64) -> UserModel {
    if gate_denial(u.active, classroom.is_exam, classroom.exam_start, classroom.exam_end, now as int)
        is Some {
        u
    } else {
        with_started(u, started_after_gate(u.exam_started_at, classroom.is_exam, now))
    }
}

/// What an admitted login yields.
#[derive(Clone, Debug)]
pub struct GateOutcome {
    /// The classroom as the user sees it.
    pub classroom: LoginClassroomInfo,
    /// Whether this login set the start marker, which must then be stored.
    pub started_now: bool,
}

/// Entry gate: decides whether `user` may enter `classroom` at `now`, and on
/// the first admission to an exam records `now` as the start of the attempt.
/// A refused login leaves the user as it was.
pub fn entry_gate(user: &mut UserModel, classroom: ClassroomModel, now: i64) -> (r: Result<
    GateOutcome,
    AppError,
>)
    ensures
        *final(user) == gate_user(*old(user), classroom, now),
        match gate_denial(
            old(user).active,
            classroom.is_exam,
            classroom.exam_start,
            classroom.exam_end,
            now as int,
        ) {
            Some(d) => r == Err::<GateOutcome, AppError>(AppError::Unauthorized(d)),
            None => r is Ok && shows_classroom(r->Ok_0.classroom, classroom) && r->Ok_0.started_now
                == (classroom.is_exam && old(user).exam_started_at.is_none()),
        },
{
    if !user.active {
        return Err(AppError::Unauthorized(Denial::Inactive));
    }
    let mut started_now = false;
    if classroom.is_exam {
        if !within_admission_window(now, classroom.exam_start, classroom.exam_end) {
            if let Some(start) = classroom.exam_start {
                if now < start {
                    return Err(AppError::Unauthorized(Denial::NotYetOpen));
                }
            }
            return Err(AppError::Unauthorized(Denial::Closed));
        }
        if user.exam_started_at.is_none() {
            user.exam_started_at = Some(now);
            started_now = true;
        }
    }
    Ok(GateOutcome { classroom: LoginClassroomInfo::from_model(classroom), started_now })
}

/// Idempotence of the entry gate: a start marker, once set, is never changed
/// by it. Once a login has been let in, any later call keeps the marker that
/// this login stored, whether that later call is let in or refused.
pub proof fn lemma_gate_idempotent(u: UserModel, classroom: ClassroomModel, first: i64, second: i64)
    ensures
        u.exam_started_at.is_some() ==> gate_user(u, classroom, first).exam_started_at
            == u.exam_started_at,
        gate_denial(u.active, classroom.is_exam, classroom.exam_start, classroom.exam_end, first as int)
            is None ==> gate_user(gate_user(u, classroom, first), classroom, second).exam_started_at
            == gate_user(u, classroom, first).exam_started_at,
{
}

/// The identifier typed at login, trimmed; a blank one is refused.
pub open spec fn npm_result(trimmed_npm: Seq<char>) -> Option<Seq<char>> {
    if trimmed_npm.len() == 0 {
        None
    } else {
        Some(trimmed_npm)
    }
}

/// Checks an already trimmed login identifier.
pub fn npm_from_trimmed(t: &str) -> (r: Result<String, AppError>)
    ensures
        match npm_result(t@) {
            Some(n) => r is Ok && r->Ok_0@ == n,
            None => r == Err::<String, AppError>(AppError::BadRequest(BadRequestReason::MissingNpm)),
        },
{
    if t.unicode_len() == 0 {
        Err(AppError::BadRequest(BadRequestReason::MissingNpm))
    } else {
        Ok(t.to_owned())
    }
}

/// The login identifier with surrounding white space removed; a blank one is
/// refused.
pub fn login_npm(raw: &str) -> (r: Result<String, AppError>)
    ensures
        match npm_result(trimmed(raw@)) {
            Some(n) => r is Ok && r->Ok_0@ == n,
            None => r == Err::<String, AppError>(AppError::BadRequest(BadRequestReason::MissingNpm)),
        },
{
    npm_from_trimmed(trim_str(raw))
}

} // verus!
