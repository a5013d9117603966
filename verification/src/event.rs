//! Telemetry records and their events.

use vstd::prelude::*;
use vstd::string::*;
use crate::text::str_eq;

verus! {

/// One milestone reached at an in-game time.
#[derive(Clone, Debug)]
pub struct Event {
    pub event_id: String,
    pub igt: u64,
}

/// One telemetry update for a runner.
#[derive(Clone, Debug)]
pub struct EventRecord {
    pub nickname: String,
    pub user_id: String,
    pub live_account: Option<String>,
    pub last_updated: u64,
    pub event_list: Vec<Event>,
    pub context_event_list: Vec<Event>,
}

/// Whether some event of `events` carries the id `id`.
pub open spec fn has_id(events: Seq<Event>, id: Seq<char>) -> bool {
    exists|i: int| 0 <= i < events.len() && (#[trigger] events[i]).event_id@ == id
}

/// Whether one of the first `upto` events carries the id `id`.
pub(crate) fn contains_id(events: &Vec<Event>, upto: usize, id: &str) -> (found: bool)
    requires
        upto <= events@.len(),
    ensures
        found == has_id(events@.subrange(0, upto as int), id@),
{
    let mut i: usize = 0;
    while i < upto
        invariant
            i <= upto <= events@.len(),
            forall|j: int| 0 <= j < i ==> (#[trigger] events@[j]).event_id@ != id@,
        decreases upto - i,
    {
        if str_eq(events[i].event_id.as_str(), id) {
            assert(events@.subrange(0, upto as int)[i as int] == events@[i as int]);
            return true;
        }
        i += 1;
    }
    assert forall|j: int| 0 <= j < upto implies (#[trigger] events@.subrange(
        0,
        upto as int,
    )[j]).event_id@ != id@ by {
        assert(events@.subrange(0, upto as int)[j] == events@[j]);
    }
    false
}

} // verus!
