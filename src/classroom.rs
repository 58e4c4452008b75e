use vstd::prelude::*;
use crate::dto::{CreateClassroomRequest, CreateUserRequest, UpdateClassroomRequest, UpdateUserRequest};
use crate::error::AppError;
use crate::model::{ClassroomModel, UserModel};
use crate::tasks::{empty_list_text, json_array_text, serialize_tasks, strings_view};
use crate::text::{trim_owned, trim_str, trimmed};

verus! {

/// Stored text of a task list.
pub open spec fn tasks_text(tasks: Seq<String>) -> Seq<char> {
    match json_array_text(strings_view(tasks)) {
        Some(t) => t,
        None => empty_list_text(),
    }
}

pub open spec fn text_or_empty(o: Option<String>) -> Seq<char> {
    match o {
        Some(s) => s@,
        None => Seq::empty(),
    }
}

/// A new classroom built from a creation request at `now`, with the
/// enrollments to add. Its id is left at zero for the store to assign.
pub fn new_classroom(req: CreateClassroomRequest, now: i64) -> (r: (ClassroomModel, Vec<CreateUserRequest>))
    ensures
        r.0.id == 0,
        r.0.name == req.name,
        r.0.programming_language@ == trimmed(text_or_empty(req.programming_language)),
        r.0.language_locked == (req.lock_language == Some(true)),
        r.0.tasks@ == tasks_text(req.tasks@),
        r.0.is_exam == (req.is_exam == Some(true)),
        r.0.exam_start == req.exam_start,
        r.0.exam_end == req.exam_end,
        r.0.test_code@ == text_or_empty(req.test_code),
        r.0.time_limit == match req.time_limit {
            Some(l) => l,
            None => 0,
        },
        r.0.presetup_code@ == text_or_empty(req.presetup_code),
        r.0.created_at == now,
        r.0.updated_at == now,
        r.1 == req.users,
{
    let language = match req.programming_language {
        Some(l) => l,
        None => String::new(),
    };
    let model = ClassroomModel {
        id: 0,
        name: req.name,
        programming_language: trim_owned(language.as_str()),
        language_locked: match req.lock_language {
            Some(b) => b,
            None => false,
        },
        tasks: serialize_tasks(&req.tasks),
        is_exam: match req.is_exam {
            Some(b) => b,
            None => false,
        },
        exam_start: req.exam_start,
        exam_end: req.exam_end,
        time_limit: match req.time_limit {
            Some(l) => l,
            None => 0,
        },
        test_code: match req.test_code {
            Some(t) => t,
            None => String::new(),
        },
        presetup_code: match req.presetup_code {
            Some(t) => t,
            None => String::new(),
        },
        created_at: now,
        updated_at: now,
    };
    (model, req.users)
}

/// The value of a field after a partial update.
pub open spec fn updated<T>(old: T, new: Option<T>) -> T {
    match new {
        Some(v) => v,
        None => old,
    }
}

/// Applies a partial update at `now`: each field given replaces the stored
/// one (the language trimmed, the tasks encoded). Returns the enrollments
/// that replace the current ones, when the request lists them.
pub fn apply_classroom_update(model: &mut ClassroomModel, req: UpdateClassroomRequest, now: i64) -> (r:
    Option<Vec<CreateUserRequest>>)
    ensures
        final(model).id == old(model).id,
        final(model).name == updated(old(model).name, req.name),
        final(model).programming_language@ == match req.programming_language {
            Some(l) => trimmed(l@),
            None => old(model).programming_language@,
        },
        final(model).language_locked == updated(old(model).language_locked, req.lock_language),
        final(model).tasks@ == match req.tasks {
            Some(t) => tasks_text(t@),
            None => old(model).tasks@,
        },
        final(model).is_exam == updated(old(model).is_exam, req.is_exam),
        final(model).exam_start == match req.exam_start {
            Some(s) => Some(s),
            None => old(model).exam_start,
        },
        final(model).exam_end == match req.exam_end {
            Some(e) => Some(e),
            None => old(model).exam_end,
        },
        final(model).test_code == updated(old(model).test_code, req.test_code),
        final(model).time_limit == updated(old(model).time_limit, req.time_limit),
        final(model).presetup_code == updated(old(model).presetup_code, req.presetup_code),
        final(model).created_at == old(model).created_at,
        final(model).updated_at == now,
        r == req.users,
{
    if let Some(name) = req.name {
        model.name = name;
    }
    if let Some(language) = req.programming_language {
        model.programming_language = trim_owned(language.as_str());
    }
    if let Some(locked) = req.lock_language {
        model.language_locked = locked;
    }
    if let Some(tasks) = req.tasks {
        model.tasks = serialize_tasks(&tasks);
    }
    if let Some(is_exam) = req.is_exam {
        model.is_exam = is_exam;
    }
    if let Some(start) = req.exam_start {
        model.exam_start = Some(start);
    }
    if let Some(end) = req.exam_end {
        model.exam_end = Some(end);
    }
    if let Some(test_code) = req.test_code {
        model.test_code = test_code;
    }
    if let Some(limit) = req.time_limit {
        model.time_limit = limit;
    }
    if let Some(presetup) = req.presetup_code {
        model.presetup_code = presetup;
    }
    model.updated_at = now;
    req.users
}

/// Whether an enrollment request names a user: its identifier is not blank.
pub open spec fn names_user(u: CreateUserRequest) -> bool {
    trimmed(u.npm@).len() != 0
}

/// The enrollment requests that name a user, in their order.
pub fn users_to_insert(users: Vec<CreateUserRequest>) -> (r: Vec<CreateUserRequest>)
    ensures
        r@ == users@.filter(|u: CreateUserRequest| names_user(u)),
{
    let ghost all = users@;
    let mut rest = users;
    let mut kept: Vec<CreateUserRequest> = Vec::new();
    let mut n: usize = 0;
    let total = rest.len();
    while rest.len() > 0
        invariant
            all.len() == total,
            n <= all.len(),
            rest@ == all.subrange(n as int, all.len() as int),
            kept@ == all.subrange(0, n as int).filter(|u: CreateUserRequest| names_user(u)),
        decreases rest@.len(),
    {
        let u = rest.remove(0);
        proof {
            assert(all[n as int] == u);
            assert(all.subrange(0, n + 1) == all.subrange(0, n as int).push(u));
            all.subrange(0, n as int).lemma_filter_push(u, |u: CreateUserRequest| names_user(u));
        }
        let blank = trim_str(u.npm.as_str()).unicode_len() == 0;
        if !blank {
            kept.push(u);
        }
        n = n + 1;
        proof {
            assert(rest@ =~= all.subrange(n as int, all.len() as int));
        }
    }
    proof {
        assert(all.subrange(0, n as int) =~= all);
    }
    kept
}

/// A new enrollment in `classroom_id` at `now`: active, with no exam begun.
/// Its id is left at zero for the store to assign.
pub fn new_user(classroom_id: i32, req: CreateUserRequest, now: i64) -> (r: UserModel)
    ensures
        r == (UserModel {
            id: 0,
            classroom_id,
            name: req.name,
            npm: req.npm,
            code: req.code,
            active: true,
            exam_started_at: None,
            created_at: now,
            updated_at: now,
        }),
{
    UserModel {
        id: 0,
        classroom_id,
        name: req.name,
        npm: req.npm,
        code: req.code,
        active: true,
        exam_started_at: None,
        created_at: now,
        updated_at: now,
    }
}

/// Applies a partial update of an enrollment at `now`.
pub fn apply_user_update(user: &mut UserModel, req: UpdateUserRequest, now: i64)
    ensures
        *final(user) == (UserModel {
            name: updated(old(user).name, req.name),
            npm: updated(old(user).npm, req.npm),
            code: updated(old(user).code, req.code),
            active: updated(old(user).active, req.active),
            updated_at: now,
            ..*old(user)
        }),
{
    if let Some(name) = req.name {
        user.name = name;
    }
    if let Some(npm) = req.npm {
        user.npm = npm;
    }
    if let Some(code) = req.code {
        user.code = code;
    }
    if let Some(active) = req.active {
        user.active = active;
    }
    user.updated_at = now;
}

/// The enrollment found by id, when it belongs to `classroom_id`.
pub fn user_in_classroom(found: Option<UserModel>, classroom_id: i32) -> (r: Result<UserModel, AppError>)
    ensures
        match found {
            Some(u) => if u.classroom_id == classroom_id {
                r == Ok::<UserModel, AppError>(u)
            } else {
                r == Err::<UserModel, AppError>(AppError::UserNotFound)
            },
            None => r == Err::<UserModel, AppError>(AppError::UserNotFound),
        },
{
    match found {
        Some(u) => if u.classroom_id == classroom_id {
            Ok(u)
        } else {
            Err(AppError::UserNotFound)
        },
        None => Err(AppError::UserNotFound),
    }
}

/// A classroom lookup: found or not found.
pub fn require_classroom<T>(found: Option<T>) -> (r: Result<T, AppError>)
    ensures
        match found {
            Some(c) => r == Ok::<T, AppError>(c),
            None => r == Err::<T, AppError>(AppError::ClassroomNotFound),
        },
{
    match found {
        Some(c) => Ok(c),
        None => Err(AppError::ClassroomNotFound),
    }
}

} // verus!
