use vstd::prelude::*;
use crate::clock::Clock;
use crate::error::{AppError, BadRequestReason, Denial};
use crate::gate::gate_denial;
use crate::model::{ClassroomModel, UserModel};
use crate::timing::{deadline, deadline_of, remaining, remaining_of};

verus! {

/// What one tick of a countdown tells the connection.
#[derive(Clone, Copy, Debug, PartialEq, Eq, Structural)]
pub enum Tick {
    /// The deadline is still ahead: keep the connection open.
    Pending,
    /// The deadline has been reached: send the terminal event, then close.
    Expired,
    /// The terminal event was already sent.
    Closed,
}

/// A per-connection countdown towards one user's deadline. It only observes
/// the time; it never writes.
#[derive(Clone, Copy, Debug)]
pub struct Countdown {
    deadline: i128,
    expired: bool,
}

/// Outcome of a tick at `now`, from whether the terminal event was already
/// sent and the deadline: the next value of that flag, and the tick.
pub open spec fn tick_step(expired: bool, deadline: int, now: int) -> (bool, Tick) {
    if expired {
        (true, Tick::Closed)
    } else if now >= deadline {
        (true, Tick::Expired)
    } else {
        (false, Tick::Pending)
    }
}

/// The ticks of a countdown polled at the times `nows`, in order.
pub open spec fn ticks(expired: bool, deadline: int, nows: Seq<i64>) -> Seq<Tick>
    decreases nows.len(),
{
    if nows.len() == 0 {
        Seq::empty()
    } else {
        let (next, t) = tick_step(expired, deadline, nows[0] as int);
        seq![t] + ticks(next, deadline, nows.drop_first())
    }
}

/// Why a countdown cannot be opened for this classroom and start marker.
pub open spec fn open_refusal(is_exam: bool, exam_started_at: Option<i64>) -> Option<
    BadRequestReason,
> {
    if !is_exam {
        Some(BadRequestReason::NotExamClassroom)
    } else if exam_started_at.is_none() {
        Some(BadRequestReason::ExamNotStarted)
    } else {
        None
    }
}

impl Countdown {
    pub closed spec fn deadline_spec(&self) -> int {
        self.deadline as int
    }

    pub closed spec fn expired_spec(&self) -> bool {
        self.expired
    }

    /// Opens a countdown for `user` in `classroom`. It is refused outside an
    /// exam classroom and before the user has passed the entry gate. The
    /// deadline is fixed here, once.
    pub fn open(classroom: &ClassroomModel, user: &UserModel) -> (r: Result<Countdown, AppError>)
        ensures
            match open_refusal(classroom.is_exam, user.exam_started_at) {
                Some(reason) => r == Err::<Countdown, AppError>(AppError::BadRequest(reason)),
                None => r is Ok && r->Ok_0.deadline_spec() == deadline_of(
                    user.exam_started_at.unwrap() as int,
                    classroom.time_limit as int,
                ) && !r->Ok_0.expired_spec(),
            },
    {
        if !classroom.is_exam {
            return Err(AppError::BadRequest(BadRequestReason::NotExamClassroom));
        }
        match user.exam_started_at {
            None => Err(AppError::BadRequest(BadRequestReason::ExamNotStarted)),
            Some(started) => Ok(
                Countdown { deadline: deadline(started, classroom.time_limit), expired: false },
            ),
        }
    }

    /// The deadline, in milliseconds since the Unix epoch.
    pub fn deadline(&self) -> (r: i128)
        ensures
            r as int == self.deadline_spec(),
    {
        self.deadline
    }

    /// Whether the terminal event was sent.
    pub fn is_expired(&self) -> (r: bool)
        ensures
            r == self.expired_spec(),
    {
        self.expired
    }

    /// Milliseconds left at `now`.
    pub fn remaining_at(&self, now: i64) -> (r: u128)
        ensures
            r as int == remaining_of(now as int, self.deadline_spec()),
    {
        remaining(now, self.deadline)
    }

    /// Compares `now` with the deadline. The first tick at or after the
    /// deadline expires the countdown; every tick after that is closed.
    pub fn tick(&mut self, now: i64) -> (r: Tick)
        ensures
            final(self).deadline_spec() == old(self).deadline_spec(),
            (final(self).expired_spec(), r) == tick_step(
                old(self).expired_spec(),
                old(self).deadline_spec(),
                now as int,
            ),
    {
        if self.expired {
            Tick::Closed
        } else if now as i128 >= self.deadline {
            self.expired = true;
            Tick::Expired
        } else {
            Tick::Pending
        }
    }

    /// One tick at the time that `clock` reads.
    pub fn poll<C: Clock>(&mut self, clock: &C) -> (r: Tick)
        ensures
            final(self).deadline_spec() == old(self).deadline_spec(),
            exists|now: i64|
                (final(self).expired_spec(), r) == #[trigger] tick_step(
                    old(self).expired_spec(),
                    old(self).deadline_spec(),
                    now as int,
                ),
    {
        let now = clock.now_millis();
        self.tick(now)
    }
}

/// A countdown started at `started_at` with a limit of `limit` minutes sends
/// its terminal event only at or after `started_at + limit` minutes, at most
/// once, and at the first tick that comes at or after that time.
pub proof fn lemma_terminal_not_early(started_at: i64, limit: i64, nows: Seq<i64>)
    ensures
        ticks(false, deadline_of(started_at as int, limit as int), nows).len() == nows.len(),
        forall|i: int|
            0 <= i < nows.len() && #[trigger] ticks(
                false,
                deadline_of(started_at as int, limit as int),
                nows,
            )[i] == Tick::Expired ==> nows[i] >= deadline_of(started_at as int, limit as int),
        forall|i: int, j: int|
            0 <= i < j < nows.len() && #[trigger] ticks(
                false,
                deadline_of(started_at as int, limit as int),
                nows,
            )[i] == Tick::Expired ==> #[trigger] ticks(
                false,
                deadline_of(started_at as int, limit as int),
                nows,
            )[j] != Tick::Expired,
        forall|i: int|
            0 <= i < nows.len() && nows[i] >= deadline_of(started_at as int, limit as int)
                ==> exists|k: int|
                0 <= k <= i && #[trigger] ticks(
                    false,
                    deadline_of(started_at as int, limit as int),
                    nows,
                )[k] == Tick::Expired,
{
    lemma_ticks(false, deadline_of(started_at as int, limit as int), nows);
}

proof fn lemma_ticks(expired: bool, d: int, nows: Seq<i64>)
    ensures
        ticks(expired, d, nows).len() == nows.len(),
        forall|i: int|
            0 <= i < nows.len() && #[trigger] ticks(expired, d, nows)[i] == Tick::Expired ==> nows[i]
                >= d,
        forall|i: int|
            0 <= i < nows.len() && #[trigger] ticks(expired, d, nows)[i] == Tick::Expired ==> !expired,
        forall|i: int, j: int|
            0 <= i < j < nows.len() && #[trigger] ticks(expired, d, nows)[i] == Tick::Expired
                ==> #[trigger] ticks(expired, d, nows)[j] != Tick::Expired,
        expired ==> forall|i: int| 0 <= i < nows.len() ==> #[trigger] ticks(expired, d, nows)[i]
            == Tick::Closed,
        !expired ==> forall|i: int|
            0 <= i < nows.len() && nows[i] >= d ==> exists|k: int|
                0 <= k <= i && #[trigger] ticks(expired, d, nows)[k] == Tick::Expired,
    decreases nows.len(),
{
    if nows.len() > 0 {
        let (next, t) = tick_step(expired, d, nows[0] as int);
        let rest = nows.drop_first();
        lemma_ticks(next, d, rest);
        let all = ticks(expired, d, nows);
        let tail = ticks(next, d, rest);
        assert(all == seq![t] + tail);
        assert forall|i: int| 0 < i < nows.len() implies all[i] == tail[i - 1] && nows[i] == rest[i
            - 1] by {}
        assert forall|i: int|
            0 <= i < nows.len() && !expired && nows[i] >= d implies exists|k: int|
                0 <= k <= i && #[trigger] all[k] == Tick::Expired by {
            if nows[0] >= d {
                assert(all[0] == Tick::Expired);
            } else {
                assert(!next);
                assert(i > 0);
                assert(rest[i - 1] >= d);
                let k = choose|k: int| 0 <= k <= i - 1 && #[trigger] tail[k] == Tick::Expired;
                assert(all[k + 1] == Tick::Expired);
            }
        }
    }
}

/// Outside exam classrooms timing is inert: the entry gate never refuses on
/// timing grounds, and no countdown opens.
pub proof fn lemma_non_exam_inert(
    active: bool,
    exam_start: Option<i64>,
    exam_end: Option<i64>,
    now: int,
    exam_started_at: Option<i64>,
)
    ensures
        gate_denial(active, false, exam_start, exam_end, now) != Some(Denial::NotYetOpen),
        gate_denial(active, false, exam_start, exam_end, now) != Some(Denial::Closed),
        active ==> gate_denial(active, false, exam_start, exam_end, now).is_none(),
        open_refusal(false, exam_started_at) == Some(BadRequestReason::NotExamClassroom),
{
}

} // verus!
