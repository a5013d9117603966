//! The handler: the guilds it serves and what it remembers of their
//! players.

use vstd::prelude::*;
use vstd::string::*;
use crate::classify::{classify_spec, Verdict};
use crate::event::EventRecord;
use crate::guild::{GuildConfig, PlayerState, SplitTimes};
use crate::router::{
    dispatched, guild_action, routed_store, Action, Dispatcher, RecordError,
};
use crate::split::Split;
use crate::store::{
    case_folded, finished, known_or_fresh, notified, player_key, stored, GuildPlayerStore,
};

verus! {

/// The first place in `guilds` that holds the guild with id `guild_id`, or
/// the length of `guilds` where none does.
pub open spec fn guild_position(guilds: Seq<GuildConfig>, guild_id: u64) -> int
    decreases guilds.len(),
{
    if guilds.len() == 0 {
        0
    } else if guilds[0].guild_id == guild_id {
        0
    } else {
        1 + guild_position(guilds.drop_first(), guild_id)
    }
}

/// `guilds` with `guild` in the place of the first guild of the same id,
/// or at the end where there is none.
pub open spec fn with_guild(guilds: Seq<GuildConfig>, guild: GuildConfig) -> Seq<GuildConfig> {
    if guild_position(guilds, guild.guild_id) < guilds.len() {
        guilds.update(guild_position(guilds, guild.guild_id), guild)
    } else {
        guilds.push(guild)
    }
}

/// Turns records into actions for the guilds it knows, and keeps the state
/// of their players between records.
pub struct Handler {
    guilds: Vec<GuildConfig>,
    store: GuildPlayerStore,
}

impl Handler {
    /// The store is well formed.
    pub closed spec fn wf(&self) -> bool {
        self.store.wf()
    }

    /// The guilds served, in the order in which they are served.
    pub closed spec fn guilds(&self) -> Seq<GuildConfig> {
        self.guilds@
    }

    /// The stored states by guild id and player key.
    pub closed spec fn states(&self) -> Map<(u64, Seq<char>), PlayerState> {
        self.store@
    }

    /// A handler that serves no guild and knows no player.
    pub fn new() -> (handler: Handler)
        ensures
            handler.wf(),
            handler.guilds() == Seq::<GuildConfig>::empty(),
            handler.states() == Map::<(u64, Seq<char>), PlayerState>::empty(),
    {
        Handler { guilds: Vec::new(), store: GuildPlayerStore::new() }
    }

    /// Takes a guild into service, or takes its new configuration where it
    /// is served already.
    pub fn guild_create(&mut self, guild: GuildConfig)
        requires
            old(self).wf(),
        ensures
            final(self).wf(),
            final(self).guilds() == with_guild(old(self).guilds(), guild),
            final(self).states() == old(self).states(),
    {
        let mut i: usize = 0;
        assert(self.guilds@.subrange(0, self.guilds@.len() as int) =~= self.guilds@);
        while i < self.guilds.len()
            invariant
                self.wf(),
                i <= self.guilds@.len(),
                self.guilds@ == old(self).guilds@,
                self.store == old(self).store,
                guild_position(self.guilds@, guild.guild_id) == i + guild_position(
                    self.guilds@.subrange(i as int, self.guilds@.len() as int),
                    guild.guild_id,
                ),
            decreases self.guilds@.len() - i,
        {
            let ghost rest = self.guilds@.subrange(i as int, self.guilds@.len() as int);
            assert(rest[0] == self.guilds@[i as int]);
            if self.guilds[i].guild_id == guild.guild_id {
                self.guilds.set(i, guild);
                return ;
            }
            assert(rest.drop_first() =~= self.guilds@.subrange(
                i + 1,
                self.guilds@.len() as int,
            ));
            i += 1;
        }
        assert(self.guilds@.subrange(i as int, self.guilds@.len() as int).len() == 0);
        self.guilds.push(guild);
    }

    /// Records the expected split times of a rostered player of a guild.
    pub fn enroll(&mut self, guild_id: u64, nickname: &str, expected: SplitTimes)
        requires
            old(self).wf(),
        ensures
            final(self).wf(),
            final(self).guilds() == old(self).guilds(),
            final(self).states() == old(self).states().insert(
                (guild_id, case_folded(nickname@)),
                (PlayerState {
                    expected_split_times: expected,
                    ..known_or_fresh(stored(old(self).states(), guild_id, case_folded(nickname@)))
                }),
            ),
    {
        let key = player_key(nickname);
        self.store.enroll(guild_id, key.as_str(), expected);
    }

    /// Routes one record to the guilds served: one action for each guild,
    /// in order, or the reason why the record is given up as a whole, in
    /// which case nothing is stored.
    pub fn handle_record(&mut self, record: EventRecord) -> (result: Result<Vec<Action>, RecordError>)
        requires
            old(self).wf(),
        ensures
            final(self).wf(),
            final(self).guilds() == old(self).guilds(),
            match result {
                Err(RecordError::NoEvents) => {
                    &&& record.event_list@.len() == 0
                    &&& final(self).states() == old(self).states()
                },
                Err(RecordError::UnrecognizedEvent) => {
                    &&& classify_spec(record.event_list@, record.context_event_list@) == Some(
                        Verdict::Unrecognized,
                    )
                    &&& final(self).states() == old(self).states()
                },
                Ok(actions) => {
                    &&& dispatched(record)
                    &&& actions@.len() == old(self).guilds().len()
                    &&& forall|i: int|
                        0 <= i < old(self).guilds().len() ==> (#[trigger] actions@[i])@
                            == guild_action(
                            record,
                            classify_spec(record.event_list@, record.context_event_list@)->0,
                            old(self).guilds()[i],
                            stored(
                                routed_store(
                                    record,
                                    old(self).guilds().subrange(0, i),
                                    old(self).states(),
                                ),
                                old(self).guilds()[i].guild_id,
                                case_folded(record.nickname@),
                            ),
                        )
                    &&& final(self).states() == routed_store(
                        record,
                        old(self).guilds(),
                        old(self).states(),
                    )
                },
            },
    {
        let dispatcher = Dispatcher { record };
        dispatcher.dispatch(&self.guilds, &mut self.store)
    }

    /// Records that the notification of an action was sent as message
    /// `message_ref`: it becomes the one that a reset corrects.
    pub fn message_sent(&mut self, guild_id: u64, nickname: &str, split: Split, message_ref: u64)
        requires
            old(self).wf(),
        ensures
            final(self).wf(),
            final(self).guilds() == old(self).guilds(),
            final(self).states() == old(self).states().insert(
                (guild_id, case_folded(nickname@)),
                notified(
                    known_or_fresh(stored(old(self).states(), guild_id, case_folded(nickname@))),
                    split,
                    message_ref,
                ),
            ),
    {
        let key = player_key(nickname);
        self.store.record_notification(guild_id, key.as_str(), split, message_ref);
    }

    /// Records a sent notification as `message_sent` does, but only where
    /// the player's state is still `expected`, the state that the action
    /// was decided on; where it has changed since, nothing is recorded.
    pub fn message_sent_if_unchanged(
        &mut self,
        guild_id: u64,
        nickname: &str,
        expected: Option<PlayerState>,
        split: Split,
        message_ref: u64,
    ) -> (recorded: bool)
        requires
            old(self).wf(),
        ensures
            final(self).wf(),
            final(self).guilds() == old(self).guilds(),
            recorded == (stored(old(self).states(), guild_id, case_folded(nickname@)) == expected),
            recorded ==> final(self).states() == old(self).states().insert(
                (guild_id, case_folded(nickname@)),
                notified(known_or_fresh(expected), split, message_ref),
            ),
            !recorded ==> final(self).states() == old(self).states(),
    {
        let key = player_key(nickname);
        let unchanged = match (self.store.find(guild_id, key.as_str()), expected) {
            (Some(now), Some(then)) => now == then,
            (None, None) => true,
            _ => false,
        };
        if unchanged {
            self.store.record_notification(guild_id, key.as_str(), split, message_ref);
        }
        unchanged
    }

    /// Records that a finish in `minutes` was announced in a guild.
    pub fn finish_sent(&mut self, guild_id: u64, nickname: &str, minutes: u64)
        requires
            old(self).wf(),
        ensures
            final(self).wf(),
            final(self).guilds() == old(self).guilds(),
            final(self).states() == old(self).states().insert(
                (guild_id, case_folded(nickname@)),
                finished(
                    known_or_fresh(stored(old(self).states(), guild_id, case_folded(nickname@))),
                    minutes,
                ),
            ),
    {
        let key = player_key(nickname);
        self.store.record_finish(guild_id, key.as_str(), minutes);
    }

    /// The state stored for a player of a guild, if any.
    pub fn player_state(&self, guild_id: u64, nickname: &str) -> (state: Option<PlayerState>)
        requires
            self.wf(),
        ensures
            state == stored(self.states(), guild_id, case_folded(nickname@)),
    {
        let key = player_key(nickname);
        self.store.find(guild_id, key.as_str())
    }

    /// The ids of the guilds served, in the order in which they are served
    /// and in which `handle_record` gives their actions.
    pub fn guild_ids(&self) -> (ids: Vec<u64>)
        ensures
            ids@ == self.guilds().map_values(|guild: GuildConfig| guild.guild_id),
    {
        let mut ids: Vec<u64> = Vec::new();
        let mut i: usize = 0;
        while i < self.guilds.len()
            invariant
                i <= self.guilds@.len(),
                ids@ == self.guilds@.subrange(0, i as int).map_values(
                    |guild: GuildConfig| guild.guild_id,
                ),
            decreases self.guilds@.len() - i,
        {
            ids.push(self.guilds[i].guild_id);
            assert(ids@ =~= self.guilds@.subrange(0, i + 1).map_values(
                |guild: GuildConfig| guild.guild_id,
            ));
            i += 1;
        }
        assert(self.guilds@.subrange(0, i as int) =~= self.guilds@);
        ids
    }
}

} // verus!
