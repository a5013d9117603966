//! Classification of a record by its trailing event.

use vstd::prelude::*;
use vstd::string::*;
use crate::event::{contains_id, has_id, Event, EventRecord};
use crate::split::{
    credits_id, enter_bastion_id, enter_fortress_id, first_portal_id, split_of_event_id, Split,
    StructureLabel,
};
use crate::text::str_eq;

verus! {

/// What the trailing event of a record means for the run.
#[derive(Clone, Copy, Debug, PartialEq, Eq, Structural)]
pub enum Verdict {
    /// The run left progress state.
    Reset,
    /// The run was completed at the given in-game time.
    Finish { igt_millis: u64 },
    /// A progress milestone was reached.
    Split { split: Split, label: StructureLabel, bastionless: bool },
    /// The event id is outside the known vocabulary.
    Unrecognized,
}

/// The ids of the events that take a run out of progress state.
pub open spec fn is_reset_id(id: Seq<char>) -> bool {
    ||| id == "common.open_to_lan"@
    ||| id == "common.multiplayer"@
    ||| id == "common.enable_cheats"@
    ||| id == "common.view_seed"@
    ||| id == "common.leave_world"@
}

/// Context marker: a blaze rod was obtained.
pub open spec fn blaze_rod_id() -> Seq<char> {
    "rsg.obtain_blaze_rod"@
}

/// How many of the three bastion context markers occur in `context`.
pub open spec fn bastion_markers(context: Seq<Event>) -> nat {
    (if has_id(context, "rsg.obtain_crying_obsidian"@) {
        1nat
    } else {
        0nat
    }) + (if has_id(context, "rsg.obtain_obsidian"@) {
        1nat
    } else {
        0nat
    }) + (if has_id(context, "rsg.loot_bastion"@) {
        1nat
    } else {
        0nat
    })
}

/// Whether an event before the trailing one entered the first structure
/// type.
pub open spec fn entered_bastion_earlier(events: Seq<Event>) -> bool {
    has_id(events.drop_last(), enter_bastion_id())
}

/// The verdict for a record with the given events and context events;
/// `None` when there is no event at all.
pub open spec fn classify_spec(events: Seq<Event>, context: Seq<Event>) -> Option<Verdict> {
    if events.len() == 0 {
        None
    } else {
        let id = events.last().event_id@;
        if is_reset_id(id) {
            Some(Verdict::Reset)
        } else if id == credits_id() {
            Some(Verdict::Finish { igt_millis: events.last().igt })
        } else if id == enter_bastion_id() {
            Some(
                Verdict::Split {
                    split: if has_id(context, blaze_rod_id()) {
                        Split::SecondStructure
                    } else {
                        Split::FirstStructure
                    },
                    label: StructureLabel::Bastion,
                    bastionless: false,
                },
            )
        } else if id == enter_fortress_id() {
            Some(
                Verdict::Split {
                    split: if entered_bastion_earlier(events) && bastion_markers(context) >= 2 {
                        Split::SecondStructure
                    } else {
                        Split::FirstStructure
                    },
                    label: StructureLabel::Fortress,
                    bastionless: false,
                },
            )
        } else if id == first_portal_id() {
            Some(
                Verdict::Split {
                    split: Split::Blind,
                    label: StructureLabel::Unlabelled,
                    bastionless: !entered_bastion_earlier(events),
                },
            )
        } else {
            match split_of_event_id(id) {
                Some(split) => Some(
                    Verdict::Split { split, label: StructureLabel::Unlabelled, bastionless: false },
                ),
                None => Some(Verdict::Unrecognized),
            }
        }
    }
}

/// Whether `event_id` takes a run out of progress state.
pub fn is_reset_event(event_id: &str) -> (reset: bool)
    ensures
        reset == is_reset_id(event_id@),
{
    str_eq(event_id, "common.open_to_lan") || str_eq(event_id, "common.multiplayer") || str_eq(
        event_id,
        "common.enable_cheats",
    ) || str_eq(event_id, "common.view_seed") || str_eq(event_id, "common.leave_world")
}

/// Classifies a record by its trailing event, looking back over the earlier
/// events and the context events where the trailing id alone does not
/// decide. The split reached before plays no part in the verdict.
pub fn classify(record: &EventRecord, previous_split: Option<Split>) -> (verdict: Option<Verdict>)
    ensures
        verdict == classify_spec(record.event_list@, record.context_event_list@),
{
    let n = record.event_list.len();
    if n == 0 {
        return None;
    }
    let last = &record.event_list[n - 1];
    let id = last.event_id.as_str();
    assert(record.event_list@.drop_last() == record.event_list@.subrange(0, n - 1));
    assert(record.context_event_list@.subrange(0, record.context_event_list@.len() as int)
        == record.context_event_list@);
    let context = &record.context_event_list;
    if is_reset_event(id) {
        Some(Verdict::Reset)
    } else if str_eq(id, "rsg.credits") {
        Some(Verdict::Finish { igt_millis: last.igt })
    } else if str_eq(id, "rsg.enter_bastion") {
        let revisit = contains_id(context, context.len(), "rsg.obtain_blaze_rod");
        Some(
            Verdict::Split {
                split: if revisit {
                    Split::SecondStructure
                } else {
                    Split::FirstStructure
                },
                label: StructureLabel::Bastion,
                bastionless: false,
            },
        )
    } else if str_eq(id, "rsg.enter_fortress") {
        let earlier = contains_id(&record.event_list, n - 1, "rsg.enter_bastion");
        let mut markers: u8 = 0;
        if contains_id(context, context.len(), "rsg.obtain_crying_obsidian") {
            markers += 1;
        }
        if contains_id(context, context.len(), "rsg.obtain_obsidian") {
            markers += 1;
        }
        if contains_id(context, context.len(), "rsg.loot_bastion") {
            markers += 1;
        }
        Some(
            Verdict::Split {
                split: if earlier && markers >= 2 {
                    Split::SecondStructure
                } else {
                    Split::FirstStructure
                },
                label: StructureLabel::Fortress,
                bastionless: false,
            },
        )
    } else if str_eq(id, "rsg.first_portal") {
        let earlier = contains_id(&record.event_list, n - 1, "rsg.enter_bastion");
        Some(
            Verdict::Split {
                split: Split::Blind,
                label: StructureLabel::Unlabelled,
                bastionless: !earlier,
            },
        )
    } else {
        match Split::from_event_id(id) {
            Some(split) => Some(
                Verdict::Split { split, label: StructureLabel::Unlabelled, bastionless: false },
            ),
            None => Some(Verdict::Unrecognized),
        }
    }
}

/// A trailing event from the reset vocabulary is a reset, whatever the
/// earlier events and the context events hold.
pub proof fn lemma_reset_ignores_context(events: Seq<Event>, context: Seq<Event>)
    requires
        events.len() > 0,
        is_reset_id(events.last().event_id@),
    ensures
        classify_spec(events, context) == Some(Verdict::Reset),
{
}

proof fn lemma_milestone_ids_distinct()
    ensures
        !is_reset_id(enter_bastion_id()),
        !is_reset_id(enter_fortress_id()),
        !is_reset_id(first_portal_id()),
        enter_bastion_id() != credits_id(),
        enter_fortress_id() != credits_id(),
        first_portal_id() != credits_id(),
        enter_fortress_id() != enter_bastion_id(),
        first_portal_id() != enter_bastion_id(),
        first_portal_id() != enter_fortress_id(),
{
    reveal_strlit("common.open_to_lan");
    reveal_strlit("common.multiplayer");
    reveal_strlit("common.enable_cheats");
    reveal_strlit("common.view_seed");
    reveal_strlit("common.leave_world");
    reveal_strlit("rsg.enter_bastion");
    reveal_strlit("rsg.enter_fortress");
    reveal_strlit("rsg.first_portal");
    reveal_strlit("rsg.credits");
    assert("common.open_to_lan"@[0] == 'c');
    assert("common.multiplayer"@[0] == 'c');
    assert("common.enable_cheats"@[0] == 'c');
    assert("common.view_seed"@[0] == 'c');
    assert("common.leave_world"@[0] == 'c');
    assert("rsg.enter_bastion"@[0] == 'r');
    assert("rsg.enter_fortress"@[0] == 'r');
    assert("rsg.first_portal"@[0] == 'r');
    assert("rsg.enter_bastion"@.len() == 17);
    assert("rsg.enter_fortress"@.len() == 18);
    assert("rsg.first_portal"@.len() == 16);
    assert("rsg.credits"@.len() == 11);
}

/// Entering the first structure type is the second structure split when a
/// blaze rod was obtained before, and the first structure split otherwise.
pub proof fn lemma_bastion_entry(events: Seq<Event>, context: Seq<Event>)
    requires
        events.len() > 0,
        events.last().event_id@ == enter_bastion_id(),
    ensures
        classify_spec(events, context) == Some(
            Verdict::Split {
                split: if has_id(context, blaze_rod_id()) {
                    Split::SecondStructure
                } else {
                    Split::FirstStructure
                },
                label: StructureLabel::Bastion,
                bastionless: false,
            },
        ),
{
    lemma_milestone_ids_distinct();
}

/// Entering the second structure type is the second structure split exactly
/// when an earlier event entered the first structure type and at least two
/// of the three bastion markers are among the context events; otherwise it
/// is the first structure split.
pub proof fn lemma_fortress_entry(events: Seq<Event>, context: Seq<Event>)
    requires
        events.len() > 0,
        events.last().event_id@ == enter_fortress_id(),
    ensures
        classify_spec(events, context) == Some(
            Verdict::Split {
                split: if entered_bastion_earlier(events) && bastion_markers(context) >= 2 {
                    Split::SecondStructure
                } else {
                    Split::FirstStructure
                },
                label: StructureLabel::Fortress,
                bastionless: false,
            },
        ),
{
    lemma_milestone_ids_distinct();
}

/// Entering the portal carries the bastionless marker exactly when no
/// earlier event entered the first structure type.
pub proof fn lemma_portal_entry(events: Seq<Event>, context: Seq<Event>)
    requires
        events.len() > 0,
        events.last().event_id@ == first_portal_id(),
    ensures
        classify_spec(events, context) == Some(
            Verdict::Split {
                split: Split::Blind,
                label: StructureLabel::Unlabelled,
                bastionless: !entered_bastion_earlier(events),
            },
        ),
{
    lemma_milestone_ids_distinct();
}

} // verus!
