//! The store of per-guild, per-player state.

use vstd::prelude::*;
use vstd::string::*;
use crate::guild::{PlayerState, SplitTimes};
use crate::split::Split;
use crate::text::str_eq;

verus! {

/// The lower-case form of a text, as `str::to_lowercase` of std gives it.
pub uninterp spec fn case_folded(text: Seq<char>) -> Seq<char>;

/// `str::to_lowercase` of std: the result is the lower-case form of the
/// nickname, a function of its characters alone.
#[verifier::external_body]
fn to_lowercase(nickname: &str) -> (key: String)
    ensures
        key@ == case_folded(nickname@),
{
    nickname.to_lowercase()
}

/// The key under which a player is stored: the case-folded nickname.
pub fn player_key(nickname: &str) -> (key: String)
    ensures
        key@ == case_folded(nickname@),
{
    to_lowercase(nickname)
}

/// The state of `state` after a notification for `split` was dispatched as
/// message `message_ref`.
pub open spec fn notified(state: PlayerState, split: Split, message_ref: u64) -> PlayerState {
    PlayerState {
        last_split_reached: Some(split),
        last_notification_ref: Some(message_ref),
        expected_split_times: state.expected_split_times,
    }
}

/// The state that `states` holds for a player in a guild, if any.
pub open spec fn stored(
    states: Map<(u64, Seq<char>), PlayerState>,
    guild_id: u64,
    key: Seq<char>,
) -> Option<PlayerState> {
    if states.dom().contains((guild_id, key)) {
        Some(states[(guild_id, key)])
    } else {
        None
    }
}

/// The state to work on for a player: the stored one, or the fresh state
/// where none is stored.
pub open spec fn known_or_fresh(state: Option<PlayerState>) -> PlayerState {
    match state {
        Some(known) => known,
        None => PlayerState::fresh(),
    }
}

/// The state of `state` after a finish in `minutes` was announced: the
/// first announced finish becomes the time that later ones must beat.
pub open spec fn finished(state: PlayerState, minutes: u64) -> PlayerState {
    PlayerState {
        expected_split_times: SplitTimes {
            finish: match state.expected_split_times.finish {
                Some(limit) => Some(limit),
                None => Some(minutes),
            },
            ..state.expected_split_times
        },
        ..state
    }
}

/// Per-guild, per-player state, keyed by guild id and player key.
pub struct GuildPlayerStore {
    guild_ids: Vec<u64>,
    player_keys: Vec<String>,
    states: Vec<PlayerState>,
}

impl GuildPlayerStore {
    spec fn key_at(&self, i: int) -> (u64, Seq<char>) {
        (self.guild_ids@[i], self.player_keys@[i]@)
    }

    spec fn holds(&self, key: (u64, Seq<char>), i: int) -> bool {
        0 <= i < self.states@.len() && self.key_at(i) == key
    }

    /// Every entry has its key and its state, and no key occurs twice.
    pub closed spec fn wf(&self) -> bool {
        &&& self.guild_ids@.len() == self.states@.len()
        &&& self.player_keys@.len() == self.states@.len()
        &&& forall|i: int, j: int|
            0 <= i < j < self.states@.len() ==> self.key_at(i) != self.key_at(j)
    }

    /// The stored states by guild id and player key.
    pub closed spec fn view(&self) -> Map<(u64, Seq<char>), PlayerState> {
        Map::new(
            |key: (u64, Seq<char>)| exists|i: int| self.holds(key, i),
            |key: (u64, Seq<char>)| self.states@[choose|i: int| self.holds(key, i)],
        )
    }

    /// The state stored for a player in a guild, if any.
    pub open spec fn state_of(&self, guild_id: u64, key: Seq<char>) -> Option<PlayerState> {
        stored(self@, guild_id, key)
    }

    proof fn lemma_entry(&self, i: int)
        requires
            self.wf(),
            0 <= i < self.states@.len(),
        ensures
            self@.dom().contains(self.key_at(i)),
            self@[self.key_at(i)] == self.states@[i],
    {
        let key = self.key_at(i);
        assert(self.holds(key, i));
        let c = choose|c: int| self.holds(key, c);
        assert(self.holds(key, c));
        assert(c == i);
    }

    /// An empty store.
    pub fn new() -> (store: GuildPlayerStore)
        ensures
            store.wf(),
            store@ == Map::<(u64, Seq<char>), PlayerState>::empty(),
    {
        let store = GuildPlayerStore {
            guild_ids: Vec::new(),
            player_keys: Vec::new(),
            states: Vec::new(),
        };
        assert(store@ =~= Map::<(u64, Seq<char>), PlayerState>::empty());
        store
    }

    fn position(&self, guild_id: u64, key: &str) -> (at: Option<usize>)
        requires
            self.wf(),
        ensures
            match at {
                Some(i) => self.holds((guild_id, key@), i as int),
                None => !self@.dom().contains((guild_id, key@)),
            },
    {
        let mut i: usize = 0;
        while i < self.states.len()
            invariant
                self.wf(),
                i <= self.states@.len(),
                forall|j: int| 0 <= j < i ==> self.key_at(j) != (guild_id, key@),
            decreases self.states@.len() - i,
        {
            if self.guild_ids[i] == guild_id && str_eq(self.player_keys[i].as_str(), key) {
                return Some(i);
            }
            i += 1;
        }
        None
    }

    /// The state stored for a player in a guild, if any.
    pub fn find(&self, guild_id: u64, key: &str) -> (state: Option<PlayerState>)
        requires
            self.wf(),
        ensures
            state == self.state_of(guild_id, key@),
    {
        match self.position(guild_id, key) {
            Some(i) => {
                proof {
                    self.lemma_entry(i as int);
                }
                Some(self.states[i])
            },
            None => None,
        }
    }

    /// Stores `state` for a player in a guild, in place of what was stored
    /// for that player there, if anything.
    pub fn set(&mut self, guild_id: u64, key: &str, state: PlayerState)
        requires
            old(self).wf(),
        ensures
            final(self).wf(),
            final(self)@ == old(self)@.insert((guild_id, key@), state),
    {
        match self.position(guild_id, key) {
            Some(i) => {
                self.states.set(i, state);
                proof {
                    assert forall|j: int| 0 <= j < self.states@.len() implies self.key_at(j) == old(
                        self,
                    ).key_at(j) by {}
                    assert forall|k: (u64, Seq<char>)|
                        self@.dom().contains(k) <==> old(self)@.insert(
                            (guild_id, key@),
                            state,
                        ).dom().contains(k) by {
                        if self@.dom().contains(k) {
                            let c = choose|c: int| self.holds(k, c);
                            assert(old(self).holds(k, c));
                        }
                        if old(self)@.dom().contains(k) {
                            let c = choose|c: int| old(self).holds(k, c);
                            assert(self.holds(k, c));
                        }
                        if k == (guild_id, key@) {
                            assert(self.holds(k, i as int));
                        }
                    }
                    assert forall|k: (u64, Seq<char>)| self@.dom().contains(k) implies self@[k]
                        == old(self)@.insert((guild_id, key@), state)[k] by {
                        let c = choose|c: int| self.holds(k, c);
                        assert(self.holds(k, c));
                        self.lemma_entry(c);
                        assert(old(self).holds(k, c));
                        old(self).lemma_entry(c);
                    }
                    assert(self@ =~= old(self)@.insert((guild_id, key@), state));
                }
            },
            None => {
                self.guild_ids.push(guild_id);
                self.player_keys.push(String::from_str(key));
                self.states.push(state);
                proof {
                    let n = old(self).states@.len() as int;
                    assert forall|j: int| 0 <= j < n implies self.key_at(j) == old(self).key_at(
                        j,
                    ) by {}
                    assert(self.key_at(n) == (guild_id, key@));
                    assert forall|j: int| 0 <= j < n implies old(self).key_at(j) != (
                        guild_id,
                        key@,
                    ) by {
                        if old(self).key_at(j) == (guild_id, key@) {
                            assert(old(self).holds((guild_id, key@), j));
                        }
                    }
                    assert(self.wf());
                    assert forall|k: (u64, Seq<char>)|
                        self@.dom().contains(k) <==> old(self)@.insert(
                            (guild_id, key@),
                            state,
                        ).dom().contains(k) by {
                        if self@.dom().contains(k) {
                            let c = choose|c: int| self.holds(k, c);
                            if c < n {
                                assert(old(self).holds(k, c));
                            }
                        }
                        if old(self)@.dom().contains(k) {
                            let c = choose|c: int| old(self).holds(k, c);
                            assert(self.holds(k, c));
                        }
                        if k == (guild_id, key@) {
                            assert(self.holds(k, n));
                        }
                    }
                    assert forall|k: (u64, Seq<char>)| self@.dom().contains(k) implies self@[k]
                        == old(self)@.insert((guild_id, key@), state)[k] by {
                        let c = choose|c: int| self.holds(k, c);
                        assert(self.holds(k, c));
                        self.lemma_entry(c);
                        if c < n {
                            assert(old(self).holds(k, c));
                            old(self).lemma_entry(c);
                        }
                    }
                    assert(self@ =~= old(self)@.insert((guild_id, key@), state));
                }
            },
        }
    }

    /// The state of a player in a guild; a player not stored yet is stored
    /// with the fresh state.
    pub fn get_or_create(&mut self, guild_id: u64, key: &str) -> (state: PlayerState)
        requires
            old(self).wf(),
        ensures
            final(self).wf(),
            state == known_or_fresh(old(self).state_of(guild_id, key@)),
            final(self)@ == old(self)@.insert((guild_id, key@), state),
    {
        match self.find(guild_id, key) {
            Some(state) => {
                assert(self@ =~= old(self)@.insert((guild_id, key@), state));
                state
            },
            None => {
                let state = PlayerState::new();
                self.set(guild_id, key, state);
                state
            },
        }
    }

    /// Records the expected split times of a rostered player, keeping what
    /// else is stored for that player.
    pub fn enroll(&mut self, guild_id: u64, key: &str, expected: SplitTimes)
        requires
            old(self).wf(),
        ensures
            final(self).wf(),
            final(self)@ == old(self)@.insert(
                (guild_id, key@),
                (PlayerState {
                    expected_split_times: expected,
                    ..known_or_fresh(old(self).state_of(guild_id, key@))
                }),
            ),
    {
        let mut state = self.get_or_create(guild_id, key);
        state.expected_split_times = expected;
        self.set(guild_id, key, state);
        assert(self@ =~= old(self)@.insert((guild_id, key@), state));
    }

    /// Records that a notification for `split` was dispatched as message
    /// `message_ref`: the player's last split and last notification become
    /// these, and the expected times are kept.
    pub fn record_notification(&mut self, guild_id: u64, key: &str, split: Split, message_ref: u64)
        requires
            old(self).wf(),
        ensures
            final(self).wf(),
            final(self)@ == old(self)@.insert(
                (guild_id, key@),
                notified(known_or_fresh(old(self).state_of(guild_id, key@)), split, message_ref),
            ),
    {
        let mut state = self.get_or_create(guild_id, key);
        state.last_split_reached = Some(split);
        state.last_notification_ref = Some(message_ref);
        self.set(guild_id, key, state);
        assert(self@ =~= old(self)@.insert((guild_id, key@), state));
    }

    /// Records that a finish in `minutes` was announced: where the player
    /// had no expected finish time, this finish becomes it.
    pub fn record_finish(&mut self, guild_id: u64, key: &str, minutes: u64)
        requires
            old(self).wf(),
        ensures
            final(self).wf(),
            final(self)@ == old(self)@.insert(
                (guild_id, key@),
                finished(known_or_fresh(old(self).state_of(guild_id, key@)), minutes),
            ),
    {
        let mut state = self.get_or_create(guild_id, key);
        if state.expected_split_times.finish.is_none() {
            state.expected_split_times.finish = Some(minutes);
        }
        self.set(guild_id, key, state);
        assert(self@ =~= old(self)@.insert((guild_id, key@), state));
    }
}

} // verus!
