use vstd::prelude::*;
use crate::error::{AppError, BadRequestReason};
use crate::model::{AccountModel, ClassroomModel, UserModel};
use crate::tasks::{deserialize_tasks, json_string_array, strings_view};
use crate::text::{non_blank, normalize_language, opt_view, trimmed};

verus! {

/// Role of a login account.
#[derive(Clone, Copy, Debug, PartialEq, Eq, Structural)]
pub enum AccountRole {
    User,
    Admin,
}

/// Stored name of a role.
pub open spec fn role_name(r: AccountRole) -> Seq<char> {
    match r {
        AccountRole::User => "user"@,
        AccountRole::Admin => "admin"@,
    }
}

/// The role that a stored name denotes, in lower, upper or title case.
pub open spec fn role_named(s: Seq<char>) -> Option<AccountRole> {
    if s == "user"@ || s == "USER"@ || s == "User"@ {
        Some(AccountRole::User)
    } else if s == "admin"@ || s == "ADMIN"@ || s == "Admin"@ {
        Some(AccountRole::Admin)
    } else {
        None
    }
}

impl AccountRole {
    pub fn as_str(&self) -> (r: &'static str)
        ensures
            r@ == role_name(*self),
    {
        match self {
            AccountRole::User => "user",
            AccountRole::Admin => "admin",
        }
    }

    pub fn from_str(value: &str) -> (r: Option<AccountRole>)
        ensures
            r == role_named(value@),
    {
        let v = value.to_owned();
        if v == "user".to_owned() || v == "USER".to_owned() || v == "User".to_owned() {
            Some(AccountRole::User)
        } else if v == "admin".to_owned() || v == "ADMIN".to_owned() || v == "Admin".to_owned() {
            Some(AccountRole::Admin)
        } else {
            None
        }
    }
}

/// Every role is accepted.
pub fn validate_role(role: AccountRole) -> (r: Result<AccountRole, AppError>)
    ensures
        r == Ok::<AccountRole, AppError>(role),
{
    Ok(role)
}

/// Role given to an account created at login: the first account that asks
/// for it becomes the administrator; asking when one exists is refused.
pub fn decide_role(as_admin: bool, admin_exists: bool) -> (r: Result<AccountRole, AppError>)
    ensures
        as_admin && admin_exists ==> r == Err::<AccountRole, AppError>(
            AppError::BadRequest(BadRequestReason::AdminAlreadyRegistered),
        ),
        as_admin && !admin_exists ==> r == Ok::<AccountRole, AppError>(AccountRole::Admin),
        !as_admin ==> r == Ok::<AccountRole, AppError>(AccountRole::User),
{
    if as_admin && admin_exists {
        Err(AppError::BadRequest(BadRequestReason::AdminAlreadyRegistered))
    } else if as_admin {
        Ok(AccountRole::Admin)
    } else {
        Ok(AccountRole::User)
    }
}

#[derive(Clone, Debug)]
pub struct CreateAccountRequest {
    pub npm: String,
    pub role: AccountRole,
}

#[derive(Clone, Debug)]
pub struct UpdateAccountRoleRequest {
    pub role: AccountRole,
}

#[derive(Clone, Debug)]
pub struct AccountResponse {
    pub id: i32,
    pub npm: String,
    pub role: AccountRole,
    pub created_at: i64,
    pub updated_at: i64,
}

impl AccountResponse {
    /// A stored role that names no role reads as a plain user.
    pub fn from_model(model: AccountModel) -> (r: AccountResponse)
        ensures
            r.id == model.id,
            r.npm == model.npm,
            r.role == match role_named(model.role@) {
                Some(role) => role,
                None => AccountRole::User,
            },
            r.created_at == model.created_at,
            r.updated_at == model.updated_at,
    {
        let role = match AccountRole::from_str(model.role.as_str()) {
            Some(role) => role,
            None => AccountRole::User,
        };
        AccountResponse {
            id: model.id,
            npm: model.npm,
            role,
            created_at: model.created_at,
            updated_at: model.updated_at,
        }
    }
}

#[derive(Clone, Debug)]
pub struct LoginRequest {
    pub npm: String,
    pub as_admin: bool,
}

#[derive(Clone, Debug)]
pub struct AdminExistsResponse {
    pub exists: bool,
}

/// The classroom as shown to a user at login.
#[derive(Clone, Debug)]
pub struct LoginClassroomInfo {
    pub id: i32,
    pub name: String,
    pub programming_language: Option<String>,
    pub language_locked: bool,
    pub is_exam: bool,
    /// The countdown length in minutes, for exam classrooms only.
    pub time_limit: Option<i64>,
    pub presetup_code: String,
}

/// `info` shows `classroom` as a login shows it.
pub open spec fn shows_classroom(info: LoginClassroomInfo, classroom: ClassroomModel) -> bool {
    &&& info.id == classroom.id
    &&& info.name == classroom.name
    &&& opt_view(info.programming_language) == non_blank(trimmed(classroom.programming_language@))
    &&& info.language_locked == classroom.language_locked
    &&& info.is_exam == classroom.is_exam
    &&& info.time_limit == if classroom.is_exam {
        Some(classroom.time_limit)
    } else {
        None
    }
    &&& info.presetup_code == classroom.presetup_code
}

impl LoginClassroomInfo {
    pub fn from_model(classroom: ClassroomModel) -> (r: LoginClassroomInfo)
        ensures
            shows_classroom(r, classroom),
    {
        let programming_language = normalize_language(classroom.programming_language.as_str());
        let time_limit = if classroom.is_exam {
            Some(classroom.time_limit)
        } else {
            None
        };
        LoginClassroomInfo {
            id: classroom.id,
            name: classroom.name,
            programming_language,
            language_locked: classroom.language_locked,
            is_exam: classroom.is_exam,
            time_limit,
            presetup_code: classroom.presetup_code,
        }
    }
}

#[derive(Clone, Debug)]
pub struct LoginResponse {
    pub account: AccountResponse,
    pub classroom: Option<LoginClassroomInfo>,
    pub is_new: bool,
}

#[derive(Clone, Debug)]
pub struct CreateUserRequest {
    pub name: String,
    pub npm: String,
    pub code: String,
}

#[derive(Clone, Debug)]
pub struct UpdateUserRequest {
    pub name: Option<String>,
    pub npm: Option<String>,
    pub code: Option<String>,
    pub active: Option<bool>,
}

#[derive(Clone, Debug)]
pub struct UserResponse {
    pub id: i32,
    pub name: String,
    pub npm: String,
    pub code: String,
    pub created_at: i64,
    pub updated_at: i64,
}

/// `r` shows the enrollment `u`.
pub open spec fn shows_user(r: UserResponse, u: UserModel) -> bool {
    &&& r.id == u.id
    &&& r.name == u.name
    &&& r.npm == u.npm
    &&& r.code == u.code
    &&& r.created_at == u.created_at
    &&& r.updated_at == u.updated_at
}

impl UserResponse {
    pub fn from_model(model: UserModel) -> (r: UserResponse)
        ensures
            shows_user(r, model),
    {
        UserResponse {
            id: model.id,
            name: model.name,
            npm: model.npm,
            code: model.code,
            created_at: model.created_at,
            updated_at: model.updated_at,
        }
    }
}

impl From<UserModel> for UserResponse {
    fn from(model: UserModel) -> (r: UserResponse) {
        UserResponse::from_model(model)
    }
}

impl vstd::std_specs::convert::FromSpecImpl<UserModel> for UserResponse {
    open spec fn obeys_from_spec() -> bool {
        true
    }

    open spec fn from_spec(model: UserModel) -> UserResponse {
        UserResponse {
            id: model.id,
            name: model.name,
            npm: model.npm,
            code: model.code,
            created_at: model.created_at,
            updated_at: model.updated_at,
        }
    }
}

#[derive(Clone, Debug)]
pub struct CreateClassroomRequest {
    pub name: String,
    pub programming_language: Option<String>,
    pub lock_language: Option<bool>,
    pub users: Vec<CreateUserRequest>,
    pub tasks: Vec<String>,
    pub is_exam: Option<bool>,
    pub exam_start: Option<i64>,
    pub exam_end: Option<i64>,
    pub test_code: Option<String>,
    pub time_limit: Option<i64>,
    pub presetup_code: Option<String>,
}

#[derive(Clone, Debug)]
pub struct UpdateClassroomRequest {
    pub name: Option<String>,
    pub programming_language: Option<String>,
    pub lock_language: Option<bool>,
    pub users: Option<Vec<CreateUserRequest>>,
    pub tasks: Option<Vec<String>>,
    pub is_exam: Option<bool>,
    pub exam_start: Option<i64>,
    pub exam_end: Option<i64>,
    pub test_code: Option<String>,
    pub time_limit: Option<i64>,
    pub presetup_code: Option<String>,
}

/// A classroom with its enrollments.
#[derive(Clone, Debug)]
pub struct ClassroomResponse {
    pub id: i32,
    pub name: String,
    pub programming_language: Option<String>,
    pub language_locked: bool,
    pub users: Vec<UserResponse>,
    pub tasks: Vec<String>,
    pub is_exam: bool,
    pub exam_start: Option<i64>,
    pub exam_end: Option<i64>,
    pub test_code: String,
    pub time_limit: i64,
    pub presetup_code: String,
    pub created_at: i64,
    pub updated_at: i64,
}

impl ClassroomResponse {
    pub fn from_models(classroom: ClassroomModel, users: Vec<UserModel>) -> (r: ClassroomResponse)
        ensures
            r.id == classroom.id,
            r.name == classroom.name,
            opt_view(r.programming_language) == non_blank(trimmed(classroom.programming_language@)),
            r.language_locked == classroom.language_locked,
            r.users@.len() == users@.len(),
            forall|i: int| 0 <= i < users@.len() ==> shows_user(#[trigger] r.users@[i], users@[i]),
            match json_string_array(classroom.tasks@) {
                Some(items) => strings_view(r.tasks@) == items,
                None => r.tasks@.len() == 0,
            },
            r.is_exam == classroom.is_exam,
            r.exam_start == classroom.exam_start,
            r.exam_end == classroom.exam_end,
            r.test_code == classroom.test_code,
            r.time_limit == classroom.time_limit,
            r.presetup_code == classroom.presetup_code,
            r.created_at == classroom.created_at,
            r.updated_at == classroom.updated_at,
    {
        let programming_language = normalize_language(classroom.programming_language.as_str());
        let tasks = deserialize_tasks(classroom.tasks.as_str());
        let mut shown: Vec<UserResponse> = Vec::new();
        let mut rest = users;
        let ghost all = rest@;
        while rest.len() > 0
            invariant
                rest@ == all.subrange(shown@.len() as int, all.len() as int),
                shown@.len() <= all.len(),
                forall|i: int| 0 <= i < shown@.len() ==> shows_user(#[trigger] shown@[i], all[i]),
            decreases rest@.len(),
        {
            let u = rest.remove(0);
            proof {
                assert(all[shown@.len() as int] == u);
            }
            shown.push(UserResponse::from_model(u));
            proof {
                assert(rest@ =~= all.subrange(shown@.len() as int, all.len() as int));
            }
        }
        ClassroomResponse {
            id: classroom.id,
            name: classroom.name,
            programming_language,
            language_locked: classroom.language_locked,
            users: shown,
            tasks,
            is_exam: classroom.is_exam,
            exam_start: classroom.exam_start,
            exam_end: classroom.exam_end,
            test_code: classroom.test_code,
            time_limit: classroom.time_limit,
            presetup_code: classroom.presetup_code,
            created_at: classroom.created_at,
            updated_at: classroom.updated_at,
        }
    }
}

#[derive(Clone, Debug)]
pub struct FinishExamRequest {
    pub npm: String,
    pub code: String,
    pub language_id: i32,
}

#[derive(Clone, Debug)]
pub struct UpdateUsersStatusRequest {
    pub user_ids: Vec<i32>,
    pub active: bool,
}

/// Path of a classroom.
#[derive(Clone, Debug)]
pub struct ClassroomPath {
    pub id: i32,
}

/// Path of an enrollment within a classroom.
#[derive(Clone, Debug)]
pub struct ClassroomUserPath {
    pub classroom_id: i32,
    pub user_id: i32,
}

/// Query of the countdown stream.
#[derive(Clone, Debug)]
pub struct EventsParams {
    pub npm: String,
}

/// A submission to the judge service. The CPU limit is in milliseconds.
#[derive(Clone, Debug)]
pub struct Judge0SubmissionRequest {
    pub source_code: String,
    pub language_id: i32,
    pub stdin: Option<String>,
    pub expected_output: Option<String>,
    pub cpu_time_limit_millis: Option<u32>,
    pub memory_limit: Option<u32>,
    pub compiler_options: Option<String>,
    pub command_line_arguments: Option<String>,
    pub npm: Option<String>,
}

} // verus!
