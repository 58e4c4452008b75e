use vstd::prelude::*;
use crate::dto::UpdateUsersStatusRequest;
use crate::error::AppError;
use crate::model::UserModel;

verus! {

/// An enrollment after a bulk status change: those of the classroom whose id
/// is listed take the new value; all others are left alone.
pub open spec fn roster_updated(u: UserModel, classroom_id: i32, ids: Seq<i32>, active: bool) -> UserModel {
    if u.classroom_id == classroom_id && ids.contains(u.id) {
        UserModel { active: active, ..u }
    } else {
        u
    }
}

fn contains_id(ids: &Vec<i32>, id: i32) -> (r: bool)
    ensures
        r == ids@.contains(id),
{
    let mut i: usize = 0;
    while i < ids.len()
        invariant
            i <= ids@.len(),
            forall|j: int| 0 <= j < i ==> ids@[j] != id,
        decreases ids@.len() - i,
    {
        if ids[i] == id {
            return true;
        }
        i = i + 1;
    }
    false
}

/// Roster activation: sets `active` on the listed enrollments of the
/// classroom. Ids that match no enrollment of the classroom are ignored. When
/// the classroom does not exist nothing changes and the call fails.
pub fn update_users_status(
    classroom_exists: bool,
    classroom_id: i32,
    users: &mut Vec<UserModel>,
    req: &UpdateUsersStatusRequest,
) -> (r: Result<(), AppError>)
    ensures
        !classroom_exists ==> r == Err::<(), AppError>(AppError::ClassroomNotFound) && final(users)@
            == old(users)@,
        classroom_exists ==> r is Ok && final(users)@.len() == old(users)@.len() && forall|i: int|
            0 <= i < old(users)@.len() ==> #[trigger] final(users)@[i] == roster_updated(
                old(users)@[i],
                classroom_id,
                req.user_ids@,
                req.active,
            ),
{
    if !classroom_exists {
        return Err(AppError::ClassroomNotFound);
    }
    let ghost all = users@;
    let mut done: Vec<UserModel> = Vec::new();
    while users.len() > 0
        invariant
            users@ == all.subrange(done@.len() as int, all.len() as int),
            done@.len() <= all.len(),
            forall|i: int|
                0 <= i < done@.len() ==> #[trigger] done@[i] == roster_updated(
                    all[i],
                    classroom_id,
                    req.user_ids@,
                    req.active,
                ),
        decreases users@.len(),
    {
        let u = users.remove(0);
        proof {
            assert(all[done@.len() as int] == u);
        }
        let listed = u.classroom_id == classroom_id && contains_id(&req.user_ids, u.id);
        if listed {
            done.push(UserModel { active: req.active, ..u });
        } else {
            done.push(u);
        }
        proof {
            assert(users@ =~= all.subrange(done@.len() as int, all.len() as int));
        }
    }
    *users = done;
    Ok(())
}

} // verus!
