//! The step of a monitoring loop that reports to the supervisor for as long
//! as nothing has failed.
use crate::common::Status;
use vstd::prelude::*;

verus! {

/// The status after one round of the loop, where the loop has the status
/// `status` and the round finds the deadline monitor and the logic monitor
/// as given: a running loop fails as soon as one of the two has failed, and
/// every other status stays as it is.
pub open spec fn status_after_round(status: Status, deadline: Status, logic: Status) -> Status {
    if status is Running && (deadline is Failed || logic is Failed) {
        Status::Failed
    } else {
        status
    }
}

/// Runs one round of the loop. Returns the status after the round, and
/// whether the supervisor is to be told that the process is alive: it is
/// told exactly while the loop is running. A loop that is not told so ends.
pub fn alive_step(status: Status, deadline: Status, logic: Status) -> (next: (Status, bool))
    ensures
        next.0 == status_after_round(status, deadline, logic),
        next.1 == (next.0 is Running),
{
    let failed = match deadline {
        Status::Failed => true,
        _ => match logic {
            Status::Failed => true,
            _ => false,
        },
    };
    match status {
        Status::Running => if failed {
            (Status::Failed, false)
        } else {
            (Status::Running, true)
        },
        _ => (status, false),
    }
}

/// The status after the first `count` rounds of a loop that starts running,
/// where round `k` finds the two monitors as `found[k]` says.
pub open spec fn status_after_rounds(found: Seq<(Status, Status)>, count: int) -> Status
    decreases count,
{
    if count <= 0 {
        Status::Running
    } else {
        status_after_round(status_after_rounds(found, count - 1), found[count - 1].0, found[count - 1].1)
    }
}

/// The supervisor hears from the loop in a round exactly if neither monitor
/// has failed in that round or in any round before it: a failure is never
/// forgotten.
pub proof fn lemma_alive_until_first_failure(found: Seq<(Status, Status)>, count: int)
    requires
        0 <= count <= found.len(),
    ensures
        status_after_rounds(found, count) is Running <==> forall|k: int|
            0 <= k < count ==> !((#[trigger] found[k]).0 is Failed) && !(found[k].1 is Failed),
        !(status_after_rounds(found, count) is Running) ==> status_after_rounds(found, count)
            is Failed,
    decreases count,
{
    if count > 0 {
        lemma_alive_until_first_failure(found, count - 1);
    }
}

} // verus!
