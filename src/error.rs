use vstd::prelude::*;

verus! {

/// Why an exam login was refused.
#[derive(Clone, Copy, Debug, PartialEq, Eq, Structural)]
pub enum Denial {
    Inactive,
    NotYetOpen,
    Closed,
}

/// Why a request was malformed or out of place.
#[derive(Clone, Copy, Debug, PartialEq, Eq, Structural)]
pub enum BadRequestReason {
    MissingNpm,
    AdminAlreadyRegistered,
    NotExamClassroom,
    ExamNotStarted,
    AccountNotFound,
    NpmAlreadyRegistered,
}

/// A failure of the relational store.
#[derive(Clone, Debug)]
pub enum DbFailure {
    RecordNotFound(String),
    Other(String),
}

/// A failure of the external judge service.
#[derive(Clone, Debug)]
pub enum ExternalFailure {
    /// The judge answered with a non-success HTTP status.
    Status { status: u16, body: String },
    /// The judge could not be reached, or its answer could not be read.
    Transport(String),
}

/// Error taxonomy of the service.
#[derive(Clone, Debug)]
pub enum AppError {
    ClassroomNotFound,
    UserNotFound,
    BadRequest(BadRequestReason),
    Database(DbFailure),
    External(ExternalFailure),
    Unauthorized(Denial),
}

pub open spec fn denial_text(d: Denial) -> Seq<char> {
    match d {
        Denial::Inactive => "Akun ini tidak aktif."@,
        Denial::NotYetOpen => "Ujian belum dimulai."@,
        Denial::Closed => "Ujian telah berakhir."@,
    }
}

pub open spec fn bad_request_text(r: BadRequestReason) -> Seq<char> {
    match r {
        BadRequestReason::MissingNpm => "NPM wajib diisi"@,
        BadRequestReason::AdminAlreadyRegistered => "Admin sudah terdaftar, silakan hubungi admin yang ada."@,
        BadRequestReason::NotExamClassroom => "Not an exam classroom"@,
        BadRequestReason::ExamNotStarted => "Exam not started"@,
        BadRequestReason::AccountNotFound => "Akun tidak ditemukan"@,
        BadRequestReason::NpmAlreadyRegistered => "NPM sudah terdaftar."@,
    }
}

pub open spec fn digit_char(d: nat) -> char {
    if d == 0 { '0' }
    else if d == 1 { '1' }
    else if d == 2 { '2' }
    else if d == 3 { '3' }
    else if d == 4 { '4' }
    else if d == 5 { '5' }
    else if d == 6 { '6' }
    else if d == 7 { '7' }
    else if d == 8 { '8' }
    else { '9' }
}

/// Decimal notation of a natural number, without leading zeros.
pub open spec fn decimal(n: nat) -> Seq<char>
    decreases n,
{
    if n < 10 {
        seq![digit_char(n)]
    } else {
        decimal(n / 10).push(digit_char(n % 10))
    }
}

pub open spec fn external_text(f: ExternalFailure) -> Seq<char> {
    match f {
        ExternalFailure::Status { status, body } => "status "@ + decimal(status as nat)
            + " dari Judge0: "@ + body@,
        ExternalFailure::Transport(t) => t@,
    }
}

/// HTTP status that each error maps to.
pub open spec fn status_of(e: AppError) -> u16 {
    match e {
        AppError::ClassroomNotFound => 404,
        AppError::UserNotFound => 404,
        AppError::BadRequest(_) => 400,
        AppError::Unauthorized(_) => 401,
        AppError::Database(DbFailure::RecordNotFound(_)) => 404,
        AppError::Database(DbFailure::Other(_)) => 500,
        AppError::External(_) => 502,
    }
}

/// Message shown to the caller; store failures are never shown verbatim.
pub open spec fn message_of(e: AppError) -> Seq<char> {
    match e {
        AppError::ClassroomNotFound => "classroom not found"@,
        AppError::UserNotFound => "user not found"@,
        AppError::BadRequest(r) => "invalid request: "@ + bad_request_text(r),
        AppError::Unauthorized(d) => "unauthorized: "@ + denial_text(d),
        AppError::Database(_) => "internal server error"@,
        AppError::External(f) => "external service error: "@ + external_text(f),
    }
}

impl Denial {
    pub fn text(&self) -> (r: &'static str)
        ensures
            r@ == denial_text(*self),
    {
        match self {
            Denial::Inactive => "Akun ini tidak aktif.",
            Denial::NotYetOpen => "Ujian belum dimulai.",
            Denial::Closed => "Ujian telah berakhir.",
        }
    }
}

impl BadRequestReason {
    pub fn text(&self) -> (r: &'static str)
        ensures
            r@ == bad_request_text(*self),
    {
        match self {
            BadRequestReason::MissingNpm => "NPM wajib diisi",
            BadRequestReason::AdminAlreadyRegistered => "Admin sudah terdaftar, silakan hubungi admin yang ada.",
            BadRequestReason::NotExamClassroom => "Not an exam classroom",
            BadRequestReason::ExamNotStarted => "Exam not started",
            BadRequestReason::AccountNotFound => "Akun tidak ditemukan",
            BadRequestReason::NpmAlreadyRegistered => "NPM sudah terdaftar.",
        }
    }
}

fn digit_str(d: u16) -> (r: &'static str)
    requires
        d < 10,
    ensures
        r@ == seq![digit_char(d as nat)],
{
    proof {
        reveal_strlit("0");
        reveal_strlit("1");
        reveal_strlit("2");
        reveal_strlit("3");
        reveal_strlit("4");
        reveal_strlit("5");
        reveal_strlit("6");
        reveal_strlit("7");
        reveal_strlit("8");
        reveal_strlit("9");
    }
    if d == 0 { "0" }
    else if d == 1 { "1" }
    else if d == 2 { "2" }
    else if d == 3 { "3" }
    else if d == 4 { "4" }
    else if d == 5 { "5" }
    else if d == 6 { "6" }
    else if d == 7 { "7" }
    else if d == 8 { "8" }
    else { "9" }
}

/// Decimal notation of `n`.
pub fn decimal_string(n: u16) -> (r: String)
    ensures
        r@ == decimal(n as nat),
    decreases n,
{
    if n < 10 {
        digit_str(n).to_owned()
    } else {
        let mut s = decimal_string(n / 10);
        s.append(digit_str(n % 10));
        s
    }
}

impl ExternalFailure {
    pub fn text(&self) -> (r: String)
        ensures
            r@ == external_text(*self),
    {
        match self {
            ExternalFailure::Status { status, body } => {
                let mut s = "status ".to_owned();
                s.append(decimal_string(*status).as_str());
                s.append(" dari Judge0: ");
                s.append(body.as_str());
                s
            },
            ExternalFailure::Transport(t) => t.clone(),
        }
    }
}

impl AppError {
    /// The HTTP status that this error is reported with.
    pub fn status_code(&self) -> (r: u16)
        ensures
            r == status_of(*self),
    {
        match self {
            AppError::ClassroomNotFound => 404,
            AppError::UserNotFound => 404,
            AppError::BadRequest(_) => 400,
            AppError::Unauthorized(_) => 401,
            AppError::Database(DbFailure::RecordNotFound(_)) => 404,
            AppError::Database(DbFailure::Other(_)) => 500,
            AppError::External(_) => 502,
        }
    }

    /// The message that this error is reported with.
    pub fn message(&self) -> (r: String)
        ensures
            r@ == message_of(*self),
    {
        match self {
            AppError::ClassroomNotFound => "classroom not found".to_owned(),
            AppError::UserNotFound => "user not found".to_owned(),
            AppError::BadRequest(reason) => {
                let mut s = "invalid request: ".to_owned();
                s.append(reason.text());
                s
            },
            AppError::Unauthorized(denial) => {
                let mut s = "unauthorized: ".to_owned();
                s.append(denial.text());
                s
            },
            AppError::Database(_) => "internal server error".to_owned(),
            AppError::External(failure) => {
                let mut s = "external service error: ".to_owned();
                s.append(failure.text().as_str());
                s
            },
        }
    }
}

} // verus!
