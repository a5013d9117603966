//! Guild configuration, per-player state and the matching of subscriber
//! roles against a pace.

use vstd::prelude::*;
use crate::split::Split;
use crate::text::{get_time, minutes_of, seconds_of};

verus! {

/// A subscriber role: those who hold it are told when the split is reached
/// faster than the threshold.
#[derive(Clone, Copy, Debug, PartialEq, Eq)]
pub struct RoleDef {
    pub role_id: u64,
    pub split: Split,
    pub threshold_minutes: u32,
    pub threshold_seconds: u32,
    pub is_personal_best_role: bool,
}

/// What a guild has configured.
#[derive(Clone, Debug)]
pub struct GuildConfig {
    pub guild_id: u64,
    pub is_private: bool,
    pub notification_channel: u64,
    pub leaderboard_channel: Option<u64>,
    pub subscriber_roles: Vec<RoleDef>,
}

/// The minutes in which a player expects to reach each split.
#[derive(Clone, Copy, Debug, PartialEq, Eq, Structural)]
pub struct SplitTimes {
    pub first_structure: Option<u64>,
    pub second_structure: Option<u64>,
    pub blind: Option<u64>,
    pub eye_spy: Option<u64>,
    pub end_enter: Option<u64>,
    pub finish: Option<u64>,
}

/// What is remembered of one player in one guild.
#[derive(Clone, Copy, Debug, PartialEq, Eq, Structural)]
pub struct PlayerState {
    pub last_split_reached: Option<Split>,
    pub last_notification_ref: Option<u64>,
    pub expected_split_times: SplitTimes,
}

impl SplitTimes {
    /// The table with no expected time at all.
    pub open spec fn unknown() -> SplitTimes {
        SplitTimes {
            first_structure: None,
            second_structure: None,
            blind: None,
            eye_spy: None,
            end_enter: None,
            finish: None,
        }
    }

    /// The expected minutes for `split`, if any.
    pub open spec fn time_for(&self, split: Split) -> Option<u64> {
        match split {
            Split::FirstStructure => self.first_structure,
            Split::SecondStructure => self.second_structure,
            Split::Blind => self.blind,
            Split::EyeSpy => self.eye_spy,
            Split::EndEnter => self.end_enter,
            Split::Finish => self.finish,
        }
    }

    /// The table with no expected time at all.
    pub fn new() -> (times: SplitTimes)
        ensures
            times == SplitTimes::unknown(),
    {
        SplitTimes {
            first_structure: None,
            second_structure: None,
            blind: None,
            eye_spy: None,
            end_enter: None,
            finish: None,
        }
    }

    /// The expected minutes for `split`, if any.
    pub fn get(&self, split: Split) -> (minutes: Option<u64>)
        ensures
            minutes == self.time_for(split),
    {
        match split {
            Split::FirstStructure => self.first_structure,
            Split::SecondStructure => self.second_structure,
            Split::Blind => self.blind,
            Split::EyeSpy => self.eye_spy,
            Split::EndEnter => self.end_enter,
            Split::Finish => self.finish,
        }
    }
}

impl PlayerState {
    /// The state of a player of whom nothing is known yet.
    pub open spec fn fresh() -> PlayerState {
        PlayerState {
            last_split_reached: None,
            last_notification_ref: None,
            expected_split_times: SplitTimes::unknown(),
        }
    }

    /// The state of a player of whom nothing is known yet.
    pub fn new() -> (state: PlayerState)
        ensures
            state == PlayerState::fresh(),
    {
        PlayerState {
            last_split_reached: None,
            last_notification_ref: None,
            expected_split_times: SplitTimes::new(),
        }
    }
}

/// Whether a pace of `minutes:seconds` is strictly earlier than the fixed
/// threshold of `role`, minutes first and seconds second.
pub open spec fn beats_threshold(minutes: nat, seconds: nat, role: RoleDef) -> bool {
    minutes < role.threshold_minutes || (minutes == role.threshold_minutes && seconds
        < role.threshold_seconds)
}

/// Whether `role` is to be notified of `split` reached at `igt_millis`.
///
/// A personal-best role counts only in a private guild, for a player with
/// an expected time for the split, and when the pace is strictly ahead of
/// that time; any other role counts when the pace beats its threshold.
pub open spec fn eligible(
    is_private: bool,
    split: Split,
    igt_millis: nat,
    expected: SplitTimes,
    role: RoleDef,
) -> bool {
    role.split == split && if role.is_personal_best_role {
        is_private && match expected.time_for(split) {
            Some(best) => minutes_of(igt_millis) < best,
            None => false,
        }
    } else {
        beats_threshold(minutes_of(igt_millis), seconds_of(igt_millis), role)
    }
}

/// Whether `role` is to be notified of `split` reached at `igt_millis`.
pub fn is_eligible(
    is_private: bool,
    split: Split,
    igt_millis: u64,
    expected: &SplitTimes,
    role: &RoleDef,
) -> (yes: bool)
    ensures
        yes == eligible(is_private, split, igt_millis as nat, *expected, *role),
{
    let (minutes, seconds) = get_time(igt_millis);
    if role.split != split {
        false
    } else if role.is_personal_best_role {
        if !is_private {
            false
        } else {
            match expected.get(split) {
                Some(best) => minutes < best,
                None => false,
            }
        }
    } else {
        let limit = role.threshold_minutes as u64;
        minutes < limit || (minutes == limit && seconds < role.threshold_seconds as u64)
    }
}

/// The roles of `guild` to notify of `split` reached at `igt_millis` by the
/// player with state `player`: the eligible ones, in configuration order.
pub fn match_roles(guild: &GuildConfig, split: Split, igt_millis: u64, player: &PlayerState) -> (roles:
    Vec<RoleDef>)
    ensures
        roles@ == guild.subscriber_roles@.filter(
            |role: RoleDef|
                eligible(guild.is_private, split, igt_millis as nat, player.expected_split_times, role),
        ),
        forall|i: int| 0 <= i < roles@.len() ==> (#[trigger] roles@[i]).split == split,
        !guild.is_private ==> forall|i: int|
            0 <= i < roles@.len() ==> !(#[trigger] roles@[i]).is_personal_best_role,
{
    let ghost wanted = |role: RoleDef|
        eligible(guild.is_private, split, igt_millis as nat, player.expected_split_times, role);
    let mut roles: Vec<RoleDef> = Vec::new();
    let mut i: usize = 0;
    proof {
        reveal(Seq::filter);
        assert(guild.subscriber_roles@.subrange(0, 0).filter(wanted) =~= Seq::<RoleDef>::empty());
    }
    while i < guild.subscriber_roles.len()
        invariant
            i <= guild.subscriber_roles@.len(),
            wanted == |role: RoleDef|
                eligible(guild.is_private, split, igt_millis as nat, player.expected_split_times, role),
            roles@ == guild.subscriber_roles@.subrange(0, i as int).filter(wanted),
            forall|j: int| 0 <= j < roles@.len() ==> wanted(#[trigger] roles@[j]),
        decreases guild.subscriber_roles@.len() - i,
    {
        let role = guild.subscriber_roles[i];
        let keep = is_eligible(guild.is_private, split, igt_millis, &player.expected_split_times, &role);
        proof {
            reveal(Seq::filter);
            let next = guild.subscriber_roles@.subrange(0, i + 1);
            assert(next.drop_last() =~= guild.subscriber_roles@.subrange(0, i as int));
            assert(next.last() == role);
        }
        if keep {
            roles.push(role);
        }
        i += 1;
    }
    assert(guild.subscriber_roles@.subrange(0, i as int) =~= guild.subscriber_roles@);
    roles
}

} // verus!
