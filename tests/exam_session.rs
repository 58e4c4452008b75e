use asm_lab::{
    deadline, entry_gate, finish_exam, judge_response, remaining, submission_endpoint,
    update_users_status, within_admission_window, AppError, BadRequestReason, ClassroomModel,
    Clock, Countdown, Denial, ExternalFailure, FinishExamRequest, ManualClock, SystemClock, Tick,
    UpdateUsersStatusRequest, UserModel, MILLIS_PER_MINUTE,
};

const NOW: i64 = 1_700_000_000_000;
const HOUR: i64 = 3_600_000;

fn classroom(is_exam: bool, start: Option<i64>, end: Option<i64>, limit: i64) -> ClassroomModel {
    ClassroomModel {
        id: 7,
        name: "Algoritma".to_string(),
        programming_language: "  python  ".to_string(),
        language_locked: true,
        tasks: "[\"a\"]".to_string(),
        is_exam,
        exam_start: start,
        exam_end: end,
        time_limit: limit,
        test_code: String::new(),
        presetup_code: "print()".to_string(),
        created_at: 0,
        updated_at: 0,
    }
}

fn user(id: i32, classroom_id: i32, active: bool, started: Option<i64>) -> UserModel {
    UserModel {
        id,
        classroom_id,
        name: format!("user{}", id),
        npm: format!("npm{}", id),
        code: "old".to_string(),
        active,
        exam_started_at: started,
        created_at: 0,
        updated_at: 0,
    }
}

#[test]
fn admission_window_bounds() {
    assert!(within_admission_window(NOW, None, None));
    assert!(within_admission_window(NOW, Some(NOW + 1), None));
    assert!(within_admission_window(NOW, None, Some(NOW - 1)));
    assert!(within_admission_window(NOW, Some(NOW), Some(NOW)));
    assert!(!within_admission_window(NOW, Some(NOW + 1), Some(NOW + 2)));
    assert!(!within_admission_window(NOW, Some(NOW - 2), Some(NOW - 1)));
}

#[test]
fn deadline_adds_minutes() {
    assert_eq!(MILLIS_PER_MINUTE, 60_000);
    assert_eq!(deadline(NOW, 30), NOW as i128 + 1_800_000);
    assert_eq!(deadline(NOW, 0), NOW as i128);
    assert_eq!(deadline(NOW, -5), NOW as i128 - 300_000);
    assert_eq!(deadline(i64::MAX, i64::MAX), i64::MAX as i128 * 60_001);
    assert_eq!(deadline(i64::MIN, i64::MIN), i64::MIN as i128 * 60_001);
}

#[test]
fn remaining_floors_at_zero_and_never_grows() {
    let d = deadline(NOW, 30);
    assert_eq!(remaining(NOW, d), 1_800_000);
    assert_eq!(remaining(NOW + 1_000, d), 1_799_000);
    assert_eq!(remaining(NOW + 1_800_000, d), 0);
    assert_eq!(remaining(NOW + 1_801_000, d), 0);
    let mut last = u128::MAX;
    for step in 0..40 {
        let r = remaining(NOW + step * 60_000, d);
        assert!(r <= last);
        last = r;
    }
    assert_eq!(remaining(i64::MIN, i128::MAX), i128::MAX as u128 + (1u128 << 63));
    assert_eq!(remaining(NOW, deadline(NOW, -5)), 0);
}

#[test]
fn gate_admits_and_starts_exam_once() {
    let mut u = user(1, 7, true, None);
    let out = entry_gate(&mut u, classroom(true, None, None, 30), NOW).unwrap();
    assert!(out.started_now);
    assert_eq!(u.exam_started_at, Some(NOW));
    assert_eq!(out.classroom.time_limit, Some(30));
    assert_eq!(out.classroom.programming_language.as_deref(), Some("python"));
    assert_eq!(out.classroom.id, 7);

    let again = entry_gate(&mut u, classroom(true, None, None, 30), NOW + 5_000).unwrap();
    assert!(!again.started_now);
    assert_eq!(u.exam_started_at, Some(NOW));
}

#[test]
fn gate_scenario_stream_expires_after_limit() {
    let room = classroom(true, None, None, 30);
    let mut u = user(1, 7, true, None);
    entry_gate(&mut u, room.clone(), NOW).unwrap();
    assert_eq!(u.exam_started_at, Some(NOW));

    let mut clock = ManualClock::new(NOW);
    let mut countdown = Countdown::open(&room, &u).unwrap();
    assert_eq!(countdown.remaining_at(clock.now_millis()), 1_800_000);
    assert_eq!(countdown.poll(&clock), Tick::Pending);
    clock.advance(1_801_000);
    assert_eq!(countdown.poll(&clock), Tick::Expired);
    assert!(countdown.is_expired());
    assert_eq!(countdown.poll(&clock), Tick::Closed);
}

#[test]
fn gate_refuses_inactive_user_without_writing() {
    let mut u = user(2, 7, false, None);
    let r = entry_gate(&mut u, classroom(true, None, None, 30), NOW);
    assert!(matches!(r, Err(AppError::Unauthorized(Denial::Inactive))));
    assert_eq!(u.exam_started_at, None);
    assert_eq!(r.unwrap_err().status_code(), 401);
}

#[test]
fn gate_window_not_open_then_open() {
    let room = classroom(true, Some(NOW + HOUR), Some(NOW + 2 * HOUR), 30);
    let mut u = user(3, 7, true, None);
    let r = entry_gate(&mut u, room.clone(), NOW);
    assert!(matches!(r, Err(AppError::Unauthorized(Denial::NotYetOpen))));
    assert_eq!(u.exam_started_at, None);
    let later = NOW + 90 * 60_000;
    let ok = entry_gate(&mut u, room, later).unwrap();
    assert!(ok.started_now);
    assert_eq!(u.exam_started_at, Some(later));
}

#[test]
fn gate_window_closed() {
    let room = classroom(true, Some(NOW - 2 * HOUR), Some(NOW - HOUR), 30);
    let mut u = user(4, 7, true, Some(NOW - HOUR - 1));
    let r = entry_gate(&mut u, room, NOW);
    assert!(matches!(r, Err(AppError::Unauthorized(Denial::Closed))));
    assert_eq!(u.exam_started_at, Some(NOW - HOUR - 1));
}

#[test]
fn gate_ignores_timing_outside_exams() {
    let room = classroom(false, Some(NOW + HOUR), Some(NOW + 2 * HOUR), 30);
    let mut u = user(5, 7, true, None);
    let out = entry_gate(&mut u, room.clone(), NOW).unwrap();
    assert!(!out.started_now);
    assert_eq!(u.exam_started_at, None);
    assert_eq!(out.classroom.time_limit, None);
    let r = Countdown::open(&room, &u);
    assert!(matches!(r, Err(AppError::BadRequest(BadRequestReason::NotExamClassroom))));
}

#[test]
fn countdown_needs_a_started_exam() {
    let room = classroom(true, None, None, 30);
    let u = user(6, 7, true, None);
    let r = Countdown::open(&room, &u);
    assert!(matches!(r, Err(AppError::BadRequest(BadRequestReason::ExamNotStarted))));
}

#[test]
fn countdown_never_expires_early() {
    let room = classroom(true, None, None, 2);
    let u = user(7, 7, true, Some(NOW));
    let mut c = Countdown::open(&room, &u).unwrap();
    assert_eq!(c.deadline(), NOW as i128 + 120_000);
    let mut t = NOW;
    while t < NOW + 120_000 {
        assert_eq!(c.tick(t), Tick::Pending);
        t += 1_000;
    }
    assert_eq!(c.tick(NOW + 120_000), Tick::Expired);
    assert_eq!(c.tick(NOW + 121_000), Tick::Closed);
}

#[test]
fn countdown_with_negative_limit_is_already_expired() {
    let room = classroom(true, None, None, -10);
    let u = user(8, 7, true, Some(NOW));
    let mut c = Countdown::open(&room, &u).unwrap();
    assert_eq!(c.remaining_at(NOW), 0);
    assert_eq!(c.tick(NOW), Tick::Expired);
}

#[test]
fn concurrent_countdowns_agree() {
    let room = classroom(true, None, None, 1);
    let u = user(9, 7, true, Some(NOW));
    let mut a = Countdown::open(&room, &u).unwrap();
    let mut b = Countdown::open(&room, &u).unwrap();
    assert_eq!(a.deadline(), b.deadline());
    assert_eq!(a.tick(NOW + 60_000), Tick::Expired);
    assert_eq!(b.tick(NOW + 60_000), Tick::Expired);
}

#[test]
fn system_clock_reads_the_present() {
    let now = SystemClock.now_millis();
    assert!(now > NOW);
}

#[test]
fn completion_deactivates_even_when_judge_fails() {
    let req = FinishExamRequest { npm: "npm1".to_string(), code: "print(1)".to_string(), language_id: 71 };
    let done = finish_exam(Some(user(1, 7, true, Some(NOW))), req).unwrap();
    assert!(!done.user.active);
    assert_eq!(done.user.code, "print(1)");
    assert_eq!(done.user.exam_started_at, Some(NOW));
    assert_eq!(done.submission.source_code, "print(1)");
    assert_eq!(done.submission.language_id, 71);
    assert_eq!(done.submission.npm.as_deref(), Some("npm1"));
    assert!(done.submission.stdin.is_none());

    let r = judge_response(500, "boom".to_string());
    match &r {
        Err(AppError::External(ExternalFailure::Status { status, body })) => {
            assert_eq!(*status, 500);
            assert_eq!(body, "boom");
        }
        _ => panic!("expected an external error"),
    }
    let e = r.unwrap_err();
    assert_eq!(e.status_code(), 502);
    assert_eq!(e.message(), "external service error: status 500 dari Judge0: boom");
    assert!(!done.user.active);
}

#[test]
fn completion_twice_stays_inactive() {
    let req = FinishExamRequest { npm: "npm1".to_string(), code: "v2".to_string(), language_id: 71 };
    let done = finish_exam(Some(user(1, 7, false, Some(NOW))), req).unwrap();
    assert!(!done.user.active);
    assert_eq!(done.user.code, "v2");
}

#[test]
fn completion_of_unknown_user() {
    let req = FinishExamRequest { npm: "x".to_string(), code: "c".to_string(), language_id: 1 };
    assert!(matches!(finish_exam(None, req), Err(AppError::UserNotFound)));
}

#[test]
fn judge_success_passes_body_through() {
    assert_eq!(judge_response(200, "{\"status\":3}".to_string()).unwrap(), "{\"status\":3}");
    assert_eq!(judge_response(201, "x".to_string()).unwrap(), "x");
    assert!(judge_response(199, "x".to_string()).is_err());
    assert!(judge_response(300, "x".to_string()).is_err());
}

#[test]
fn endpoint_of_synchronous_submission() {
    assert_eq!(
        submission_endpoint("http://127.0.0.1:2358"),
        "http://127.0.0.1:2358/submissions?base64_encoded=false&wait=true"
    );
}

#[test]
fn roster_updates_listed_users_of_classroom() {
    let mut users = vec![user(1, 7, true, None), user(2, 7, true, None), user(3, 8, true, None)];
    let req = UpdateUsersStatusRequest { user_ids: vec![2, 3, 99], active: false };
    update_users_status(true, 7, &mut users, &req).unwrap();
    assert!(users[0].active);
    assert!(!users[1].active);
    assert!(users[2].active);
    assert_eq!(users[1].exam_started_at, None);

    let back = UpdateUsersStatusRequest { user_ids: vec![2], active: true };
    update_users_status(true, 7, &mut users, &back).unwrap();
    assert!(users[1].active);
}

#[test]
fn roster_of_missing_classroom() {
    let mut users = vec![user(1, 7, true, None)];
    let req = UpdateUsersStatusRequest { user_ids: vec![1], active: false };
    let r = update_users_status(false, 7, &mut users, &req);
    assert!(matches!(r, Err(AppError::ClassroomNotFound)));
    assert!(users[0].active);
}
