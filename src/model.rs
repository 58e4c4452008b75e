use vstd::prelude::*;

verus! {

/// A classroom row. Timestamps are milliseconds since the Unix epoch (UTC).
#[derive(Clone, Debug)]
pub struct ClassroomModel {
    pub id: i32,
    pub name: String,
    pub programming_language: String,
    pub language_locked: bool,
    /// Ordered task list, stored as JSON text.
    pub tasks: String,
    pub is_exam: bool,
    /// Opening of the admission window, if bounded.
    pub exam_start: Option<i64>,
    /// Closing of the admission window, if bounded.
    pub exam_end: Option<i64>,
    /// Per-user countdown length in minutes.
    pub time_limit: i64,
    pub test_code: String,
    pub presetup_code: String,
    pub created_at: i64,
    pub updated_at: i64,
}

/// An enrollment row: one user in one classroom.
#[derive(Clone, Debug)]
pub struct UserModel {
    pub id: i32,
    pub classroom_id: i32,
    pub name: String,
    pub npm: String,
    pub code: String,
    /// False once the user may no longer authenticate or act.
    pub active: bool,
    /// When the user first passed the entry gate of the current exam.
    pub exam_started_at: Option<i64>,
    pub created_at: i64,
    pub updated_at: i64,
}

/// A login account.
#[derive(Clone, Debug)]
pub struct AccountModel {
    pub id: i32,
    pub npm: String,
    pub role: String,
    pub created_at: i64,
    pub updated_at: i64,
}

} // verus!
