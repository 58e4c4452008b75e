//! Exam-session core of a classroom backend: admission rules for timed
//! exams, per-user countdowns, exam completion and roster activation, with
//! the record logic of the classroom, enrollment and account endpoints.
//!
//! Timestamps are `i64` milliseconds since the Unix epoch (UTC).

pub mod account;
pub mod classroom;
pub mod clock;
pub mod completion;
pub mod countdown;
pub mod dto;
pub mod error;
pub mod gate;
pub mod model;
pub mod roster;
pub mod tasks;
pub mod text;
pub mod timing;

pub use account::{account_found, deletion_outcome, new_account, set_account_role};
pub use classroom::{
    apply_classroom_update, apply_user_update, new_classroom, new_user, require_classroom,
    user_in_classroom, users_to_insert,
};
pub use clock::{Clock, ManualClock, SystemClock};
pub use completion::{
    finish_exam, judge_response, record_submitted_code, submission_endpoint, submission_owner,
    Completion,
};
pub use countdown::{Countdown, Tick};
pub use dto::{
    decide_role, validate_role, AccountResponse, AccountRole, AdminExistsResponse, ClassroomPath,
    ClassroomResponse, ClassroomUserPath, CreateAccountRequest, CreateClassroomRequest,
    CreateUserRequest, EventsParams, FinishExamRequest, Judge0SubmissionRequest,
    LoginClassroomInfo, LoginRequest, LoginResponse, UpdateAccountRoleRequest,
    UpdateClassroomRequest, UpdateUserRequest, UpdateUsersStatusRequest, UserResponse,
};
pub use error::{decimal_string, AppError, BadRequestReason, DbFailure, Denial, ExternalFailure};
pub use gate::{entry_gate, login_npm, npm_from_trimmed, GateOutcome};
pub use model::{AccountModel, ClassroomModel, UserModel};
pub use roster::update_users_status;
pub use tasks::{deserialize_tasks, serialize_tasks, tasks_or_empty, tasks_text_or_default};
pub use text::{language_from_trimmed, normalize_language, trim_owned};
pub use timing::{deadline, remaining, within_admission_window, MILLIS_PER_MINUTE};
