//! Progress milestones of a run.

use vstd::prelude::*;
use vstd::string::*;
use crate::text::str_eq;

verus! {

/// A progress milestone.
#[derive(Clone, Copy, Debug, PartialEq, Eq, Structural)]
pub enum Split {
    FirstStructure,
    SecondStructure,
    Blind,
    EyeSpy,
    EndEnter,
    Finish,
}

/// The structure a structure split was reached in.
#[derive(Clone, Copy, Debug, PartialEq, Eq, Structural)]
pub enum StructureLabel {
    Unlabelled,
    Bastion,
    Fortress,
}

/// Event id of entering the first combat structure type.
pub open spec fn enter_bastion_id() -> Seq<char> {
    "rsg.enter_bastion"@
}

/// Event id of entering the second combat structure type.
pub open spec fn enter_fortress_id() -> Seq<char> {
    "rsg.enter_fortress"@
}

/// Event id of entering the first portal.
pub open spec fn first_portal_id() -> Seq<char> {
    "rsg.first_portal"@
}

/// Event id of entering the stronghold.
pub open spec fn enter_stronghold_id() -> Seq<char> {
    "rsg.enter_stronghold"@
}

/// Event id of entering the end.
pub open spec fn enter_end_id() -> Seq<char> {
    "rsg.enter_end"@
}

/// Event id of the completion marker.
pub open spec fn credits_id() -> Seq<char> {
    "rsg.credits"@
}

/// The fixed table from milestone event ids to splits.
pub open spec fn split_of_event_id(id: Seq<char>) -> Option<Split> {
    if id == enter_bastion_id() {
        Some(Split::FirstStructure)
    } else if id == enter_fortress_id() {
        Some(Split::SecondStructure)
    } else if id == first_portal_id() {
        Some(Split::Blind)
    } else if id == enter_stronghold_id() {
        Some(Split::EyeSpy)
    } else if id == enter_end_id() {
        Some(Split::EndEnter)
    } else if id == credits_id() {
        Some(Split::Finish)
    } else {
        None
    }
}

/// The human-readable description of a split reached in a structure with
/// the given label.
pub open spec fn description_text(split: Split, label: StructureLabel) -> Seq<char> {
    match (split, label) {
        (Split::FirstStructure, StructureLabel::Bastion) => "Bastion"@,
        (Split::FirstStructure, StructureLabel::Fortress) => "Fortress"@,
        (Split::FirstStructure, StructureLabel::Unlabelled) => "First Structure"@,
        (Split::SecondStructure, StructureLabel::Bastion) => "Bastion"@,
        (Split::SecondStructure, StructureLabel::Fortress) => "Fortress"@,
        (Split::SecondStructure, StructureLabel::Unlabelled) => "Second Structure"@,
        (Split::Blind, _) => "Blind"@,
        (Split::EyeSpy, _) => "Eye Spy"@,
        (Split::EndEnter, _) => "End Enter"@,
        (Split::Finish, _) => "Finish"@,
    }
}

impl Split {
    /// Looks a milestone event id up in the fixed table.
    pub fn from_event_id(event_id: &str) -> (split: Option<Split>)
        ensures
            split == split_of_event_id(event_id@),
    {
        if str_eq(event_id, "rsg.enter_bastion") {
            Some(Split::FirstStructure)
        } else if str_eq(event_id, "rsg.enter_fortress") {
            Some(Split::SecondStructure)
        } else if str_eq(event_id, "rsg.first_portal") {
            Some(Split::Blind)
        } else if str_eq(event_id, "rsg.enter_stronghold") {
            Some(Split::EyeSpy)
        } else if str_eq(event_id, "rsg.enter_end") {
            Some(Split::EndEnter)
        } else if str_eq(event_id, "rsg.credits") {
            Some(Split::Finish)
        } else {
            None
        }
    }

    /// The human-readable description of this split; a structure split takes
    /// the name of the structure it was reached in.
    pub fn desc(&self, label: StructureLabel) -> (text: &'static str)
        ensures
            text@ == description_text(*self, label),
    {
        match (*self, label) {
            (Split::FirstStructure, StructureLabel::Bastion) => "Bastion",
            (Split::FirstStructure, StructureLabel::Fortress) => "Fortress",
            (Split::FirstStructure, StructureLabel::Unlabelled) => "First Structure",
            (Split::SecondStructure, StructureLabel::Bastion) => "Bastion",
            (Split::SecondStructure, StructureLabel::Fortress) => "Fortress",
            (Split::SecondStructure, StructureLabel::Unlabelled) => "Second Structure",
            (Split::Blind, _) => "Blind",
            (Split::EyeSpy, _) => "Eye Spy",
            (Split::EndEnter, _) => "End Enter",
            (Split::Finish, _) => "Finish",
        }
    }
}

} // verus!
