//! The notifications that pass between the step timer and the consumers.

use vstd::prelude::*;

verus! {

/// Sent once each time the timer lets a step run.
#[derive(Clone, Copy, Debug, PartialEq, Eq, Structural)]
pub enum TickEvent {
    /// The step ran to its end and its state was published.
    Completed,
    /// The step failed; nothing was published.
    Failed,
}

/// Asks the cameras to centre on the marker again.
#[derive(Clone, Copy, Debug, PartialEq, Eq, Structural)]
pub struct CameraEvent;

/// How many of the notifications tell of a completed step.
pub open spec fn completed_count(events: Seq<TickEvent>) -> nat
    decreases events.len(),
{
    if events.len() == 0 {
        0
    } else {
        completed_count(events.drop_last()) + if events.last() == TickEvent::Completed {
            1nat
        } else {
            0nat
        }
    }
}

/// Whether any of the notifications tells of a completed step.
pub open spec fn any_completed(events: Seq<TickEvent>) -> bool {
    completed_count(events) > 0
}

/// Counts the notifications of completed steps; failed steps are passed
/// over.
pub fn count_completed(events: &Vec<TickEvent>) -> (count: usize)
    ensures
        count == completed_count(events@),
{
    let mut count: usize = 0;
    let mut i: usize = 0;
    while i < events.len()
        invariant
            i <= events.len(),
            count <= i,
            count == completed_count(events@.take(i as int)),
        decreases events.len() - i,
    {
        proof {
            assert(events@.take(i + 1).drop_last() == events@.take(i as int));
        }
        if events[i] == TickEvent::Completed {
            count += 1;
        }
        i += 1;
    }
    proof {
        assert(events@.take(events.len() as int) == events@);
    }
    count
}

} // verus!
