use vstd::prelude::*;

verus! {

/// Length of one minute in milliseconds.
pub const MILLIS_PER_MINUTE: i128 = 60000;

/// The admission window admits `now` when either bound is missing, or when
/// `start <= now <= end`.
pub open spec fn in_window(now: int, start: Option<i64>, end: Option<i64>) -> bool {
    match (start, end) {
        (Some(s), Some(e)) => s <= now <= e,
        _ => true,
    }
}

/// Per-user deadline: the start of the attempt plus the time limit.
pub open spec fn deadline_of(started_at: int, limit_minutes: int) -> int {
    started_at + limit_minutes * 60000
}

/// Time left before `deadline`, never negative.
pub open spec fn remaining_of(now: int, deadline: int) -> int {
    if now < deadline {
        deadline - now
    } else {
        0
    }
}

/// Whether `now` lies in the classroom-wide admission window.
pub fn within_admission_window(now: i64, exam_start: Option<i64>, exam_end: Option<i64>) -> (r:
    bool)
    ensures
        r == in_window(now as int, exam_start, exam_end),
{
    match (exam_start, exam_end) {
        (Some(s), Some(e)) => s <= now && now <= e,
        _ => true,
    }
}

/// Deadline of an attempt begun at `exam_started_at` with a limit of
/// `time_limit_minutes`; a negative limit gives a deadline in the past.
pub fn deadline(exam_started_at: i64, time_limit_minutes: i64) -> (r: i128)
    ensures
        r as int == deadline_of(exam_started_at as int, time_limit_minutes as int),
{
    let limit = time_limit_minutes as i128;
    proof {
        assert(-0x8000_0000_0000_0000 * 60000 <= limit * 60000 <= 0x7fff_ffff_ffff_ffff * 60000)
            by (nonlinear_arith)
            requires
                -0x8000_0000_0000_0000 <= limit <= 0x7fff_ffff_ffff_ffff,
        ;
    }
    exam_started_at as i128 + limit * MILLIS_PER_MINUTE
}

/// Milliseconds left at `now` before `deadline`, zero once it has passed.
pub fn remaining(now: i64, deadline: i128) -> (r: u128)
    ensures
        r as int == remaining_of(now as int, deadline as int),
{
    if deadline <= now as i128 {
        0
    } else if deadline >= 0 && now < 0 {
        deadline as u128 + (0 - now as i128) as u128
    } else {
        (deadline - now as i128) as u128
    }
}

/// `remaining` never goes negative, reaches zero exactly at the deadline, and
/// does not grow as time moves forward.
pub proof fn lemma_remaining_monotone(earlier: int, later: int, deadline: int)
    requires
        earlier <= later,
    ensures
        remaining_of(later, deadline) <= remaining_of(earlier, deadline),
        remaining_of(earlier, deadline) >= 0,
        remaining_of(later, deadline) >= 0,
        (remaining_of(later, deadline) == 0) == (later >= deadline),
{
}

} // verus!
