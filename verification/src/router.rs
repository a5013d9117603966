//! Routing: from a record to one action per guild.

use vstd::prelude::*;
use vstd::string::*;
use crate::classify::{classify, classify_spec, Verdict};
use crate::content::{account_view, content_text, notification_content};
use crate::event::EventRecord;
use crate::guild::{eligible, match_roles, GuildConfig, PlayerState, RoleDef};
use crate::split::{Split, StructureLabel};
use crate::store::{
    case_folded, finished, known_or_fresh, notified, player_key, stored, GuildPlayerStore,
};
use crate::text::{get_time, minutes_of, seconds_of};

verus! {

/// Why a guild gets nothing for a record.
#[derive(Clone, Copy, Debug, PartialEq, Eq, Structural)]
pub enum SkipReason {
    /// The player is not live and the guild is public.
    NotLive,
    /// The guild is private and the player is not on its roster.
    NotRostered,
    /// The run was reset and no notification is there to correct.
    NoPriorNotification,
    /// No subscriber role is eligible for the split.
    NoRolesMatched,
}

/// Why a record is given up as a whole.
#[derive(Clone, Copy, Debug, PartialEq, Eq, Structural)]
pub enum RecordError {
    /// The record has no event.
    NoEvents,
    /// The trailing event id is outside the known vocabulary.
    UnrecognizedEvent,
}

/// What to do for one guild.
#[derive(Clone, Debug, PartialEq, Eq)]
pub enum Action {
    /// Nothing is sent or edited.
    Suppress { reason: SkipReason },
    /// Send `content` to `channel`, for the holders of `roles`; on success
    /// the message is to be recorded as the player's notification for
    /// `split`.
    Send { channel: u64, split: Split, content: String, roles: Vec<RoleDef> },
    /// Edit message `message_ref` of `channel`: its content becomes what
    /// marking it as reset gives.
    Edit { channel: u64, message_ref: u64 },
    /// Hand the finish time to the leaderboard `board`, where the guild has
    /// one, and send `announcement`, where there is one.
    DelegateLeaderboard {
        board: Option<u64>,
        minutes: u64,
        seconds: u64,
        channel: u64,
        announcement: Option<String>,
    },
}

/// An action as a plain value.
pub enum ActionView {
    Suppress { reason: SkipReason },
    Send { channel: u64, split: Split, content: Seq<char>, roles: Seq<RoleDef> },
    Edit { channel: u64, message_ref: u64 },
    DelegateLeaderboard {
        board: Option<u64>,
        minutes: u64,
        seconds: u64,
        channel: u64,
        announcement: Option<Seq<char>>,
    },
}

impl View for Action {
    type V = ActionView;

    open spec fn view(&self) -> ActionView {
        match *self {
            Action::Suppress { reason } => ActionView::Suppress { reason },
            Action::Send { channel, split, content, roles } => ActionView::Send {
                channel,
                split,
                content: content@,
                roles: roles@,
            },
            Action::Edit { channel, message_ref } => ActionView::Edit { channel, message_ref },
            Action::DelegateLeaderboard {
                board,
                minutes,
                seconds,
                channel,
                announcement,
            } => ActionView::DelegateLeaderboard {
                board,
                minutes,
                seconds,
                channel,
                announcement: account_view(announcement),
            },
        }
    }
}

/// Whether a finish in `minutes` is announced: the first finish of a
/// player with no expected finish time always is, and any other finish
/// where it beats that time.
pub open spec fn finish_announced(state: PlayerState, minutes: nat) -> bool {
    match state.expected_split_times.finish {
        Some(limit) => minutes < limit,
        None => true,
    }
}

/// The key under which the store of `guild` holds the player of `record`.
pub open spec fn state_key(record: EventRecord, guild: GuildConfig) -> (u64, Seq<char>) {
    (guild.guild_id, case_folded(record.nickname@))
}

/// Whether `guild` sees a record of a player at all: a public guild only
/// while the player is live.
pub open spec fn visible(record: EventRecord, guild: GuildConfig) -> bool {
    record.live_account is Some || guild.is_private
}

/// The roles of `guild` eligible for `split` at `igt_millis`.
pub open spec fn matched_roles(
    guild: GuildConfig,
    split: Split,
    igt_millis: u64,
    state: PlayerState,
) -> Seq<RoleDef> {
    guild.subscriber_roles@.filter(
        |role: RoleDef|
            eligible(guild.is_private, split, igt_millis as nat, state.expected_split_times, role),
    )
}

/// The action for `guild` on a run finished at `igt_millis`: the time goes
/// to the guild's leaderboard, and, whatever becomes of that, the finish is
/// announced where `finish_announced` says so.
pub open spec fn finish_action(
    record: EventRecord,
    igt_millis: u64,
    guild: GuildConfig,
    state: PlayerState,
) -> ActionView {
    ActionView::DelegateLeaderboard {
        board: guild.leaderboard_channel,
        minutes: minutes_of(igt_millis as nat) as u64,
        seconds: seconds_of(igt_millis as nat) as u64,
        channel: guild.notification_channel,
        announcement: if finish_announced(state, minutes_of(igt_millis as nat)) {
            Some(
                content_text(
                    igt_millis as nat,
                    Split::Finish,
                    StructureLabel::Unlabelled,
                    false,
                    record.nickname@,
                    account_view(record.live_account),
                    record.last_updated as nat,
                    Seq::<RoleDef>::empty(),
                ),
            )
        } else {
            None
        },
    }
}

/// The action for `guild` on a record with a recognized verdict, where the
/// store holds `known` for the player.
pub open spec fn guild_action(
    record: EventRecord,
    verdict: Verdict,
    guild: GuildConfig,
    known: Option<PlayerState>,
) -> ActionView
    recommends
        !(verdict is Unrecognized),
{
    let state = known_or_fresh(known);
    let igt = record.event_list@.last().igt;
    if !visible(record, guild) {
        ActionView::Suppress { reason: SkipReason::NotLive }
    } else if guild.is_private && known is None {
        ActionView::Suppress { reason: SkipReason::NotRostered }
    } else {
        match verdict {
            Verdict::Reset => match state.last_notification_ref {
                Some(message_ref) => ActionView::Edit {
                    channel: guild.notification_channel,
                    message_ref,
                },
                None => ActionView::Suppress { reason: SkipReason::NoPriorNotification },
            },
            Verdict::Finish { igt_millis } => finish_action(record, igt_millis, guild, state),
            Verdict::Split { split, label, bastionless } => if matched_roles(
                guild,
                split,
                igt,
                state,
            ).len() == 0 {
                ActionView::Suppress { reason: SkipReason::NoRolesMatched }
            } else {
                ActionView::Send {
                    channel: guild.notification_channel,
                    split,
                    content: content_text(
                        igt as nat,
                        split,
                        label,
                        bastionless,
                        record.nickname@,
                        account_view(record.live_account),
                        record.last_updated as nat,
                        matched_roles(guild, split, igt, state),
                    ),
                    roles: matched_roles(guild, split, igt, state),
                }
            },
            Verdict::Unrecognized => arbitrary(),
        }
    }
}

/// The stored states after `guild` was served: a public guild that sees
/// the record stores the fresh state for a player it did not know.
pub open spec fn guild_store(
    record: EventRecord,
    guild: GuildConfig,
    states: Map<(u64, Seq<char>), PlayerState>,
) -> Map<(u64, Seq<char>), PlayerState> {
    if visible(record, guild) && !guild.is_private {
        states.insert(
            state_key(record, guild),
            known_or_fresh(stored(states, guild.guild_id, case_folded(record.nickname@))),
        )
    } else {
        states
    }
}

/// Whether a record is served to the guilds: it has events, and the
/// trailing one is recognized.
pub open spec fn dispatched(record: EventRecord) -> bool {
    classify_spec(record.event_list@, record.context_event_list@) is Some && !(classify_spec(
        record.event_list@,
        record.context_event_list@,
    )->0 is Unrecognized)
}

/// The stored states after each of `guilds` was served in turn.
pub open spec fn routed_store(
    record: EventRecord,
    guilds: Seq<GuildConfig>,
    states: Map<(u64, Seq<char>), PlayerState>,
) -> Map<(u64, Seq<char>), PlayerState>
    decreases guilds.len(),
{
    if guilds.len() == 0 {
        states
    } else {
        guild_store(record, guilds.last(), routed_store(record, guilds.drop_last(), states))
    }
}

/// Decides what to do for one guild on a run finished at `igt_millis`.
pub fn handle_non_pace_event(
    record: &EventRecord,
    igt_millis: u64,
    guild: &GuildConfig,
    state: &PlayerState,
) -> (action: Action)
    ensures
        action@ == finish_action(*record, igt_millis, *guild, *state),
{
    let (minutes, seconds) = get_time(igt_millis);
    let announced = match state.expected_split_times.finish {
        Some(limit) => minutes < limit,
        None => true,
    };
    let announcement = if announced {
        let nobody: Vec<RoleDef> = Vec::new();
        Some(
            notification_content(
                igt_millis,
                Split::Finish,
                StructureLabel::Unlabelled,
                false,
                record.nickname.as_str(),
                &record.live_account,
                record.last_updated,
                &nobody,
            ),
        )
    } else {
        None
    };
    Action::DelegateLeaderboard {
        board: guild.leaderboard_channel,
        minutes,
        seconds,
        channel: guild.notification_channel,
        announcement,
    }
}

/// Decides what to do for one guild on a record with verdict `verdict`,
/// and stores a state for the player where the guild is to have one.
///
/// An unrecognized verdict, or a record without events, is no matter of
/// any one guild: it gives `None` and leaves the store as it is.
pub fn route_guild(
    record: &EventRecord,
    verdict: Verdict,
    guild: &GuildConfig,
    store: &mut GuildPlayerStore,
) -> (action: Option<Action>)
    requires
        old(store).wf(),
    ensures
        final(store).wf(),
        verdict is Unrecognized || record.event_list@.len() == 0 ==> {
            &&& action is None
            &&& final(store)@ == old(store)@
        },
        !(verdict is Unrecognized) && record.event_list@.len() > 0 ==> {
            &&& action is Some
            &&& action->0@ == guild_action(
                *record,
                verdict,
                *guild,
                old(store).state_of(guild.guild_id, case_folded(record.nickname@)),
            )
            &&& final(store)@ == guild_store(*record, *guild, old(store)@)
        },
{
    if record.event_list.len() == 0 {
        return None;
    }
    if let Verdict::Unrecognized = verdict {
        return None;
    }
    if record.live_account.is_none() && !guild.is_private {
        return Some(Action::Suppress { reason: SkipReason::NotLive });
    }
    let key = player_key(record.nickname.as_str());
    let state = if guild.is_private {
        match store.find(guild.guild_id, key.as_str()) {
            Some(state) => state,
            None => {
                return Some(Action::Suppress { reason: SkipReason::NotRostered });
            },
        }
    } else {
        store.get_or_create(guild.guild_id, key.as_str())
    };
    let igt = record.event_list[record.event_list.len() - 1].igt;
    let action = match verdict {
        Verdict::Reset => match state.last_notification_ref {
            Some(message_ref) => Action::Edit { channel: guild.notification_channel, message_ref },
            None => Action::Suppress { reason: SkipReason::NoPriorNotification },
        },
        Verdict::Finish { igt_millis } => {
            handle_non_pace_event(record, igt_millis, guild, &state)
        },
        Verdict::Split { split, label, bastionless } => {
            let roles = match_roles(guild, split, igt, &state);
            if roles.len() == 0 {
                Action::Suppress { reason: SkipReason::NoRolesMatched }
            } else {
                let content = notification_content(
                    igt,
                    split,
                    label,
                    bastionless,
                    record.nickname.as_str(),
                    &record.live_account,
                    record.last_updated,
                    &roles,
                );
                Action::Send { channel: guild.notification_channel, split, content, roles }
            }
        },
        Verdict::Unrecognized => {
            return None;
        },
    };
    Some(action)
}

/// One record on its way to the guilds.
pub struct Dispatcher {
    pub record: EventRecord,
}

impl Dispatcher {
    /// Routes one record: classifies it once, then decides guild by guild, in
    /// the order of `guilds`.
    ///
    /// A record without events, or with an unrecognized trailing event, is
    /// given up as a whole: no guild is served and the store stays as it is.
    /// Otherwise there is one action for each guild.
    pub fn dispatch(&self, guilds: &Vec<GuildConfig>, store: &mut GuildPlayerStore) -> (result: Result<
        Vec<Action>,
        RecordError,
    >)
        requires
            old(store).wf(),
        ensures
            final(store).wf(),
            match result {
                Err(RecordError::NoEvents) => {
                    &&& self.record.event_list@.len() == 0
                    &&& final(store)@ == old(store)@
                },
                Err(RecordError::UnrecognizedEvent) => {
                    &&& classify_spec(self.record.event_list@, self.record.context_event_list@) == Some(
                        Verdict::Unrecognized,
                    )
                    &&& final(store)@ == old(store)@
                },
                Ok(actions) => {
                    &&& classify_spec(self.record.event_list@, self.record.context_event_list@) is Some
                    &&& !(classify_spec(self.record.event_list@, self.record.context_event_list@)->0
                        is Unrecognized)
                    &&& actions@.len() == guilds@.len()
                    &&& forall|i: int|
                        0 <= i < guilds@.len() ==> (#[trigger] actions@[i])@ == guild_action(
                            self.record,
                            classify_spec(self.record.event_list@, self.record.context_event_list@)->0,
                            guilds@[i],
                            stored(
                                routed_store(self.record, guilds@.subrange(0, i), old(store)@),
                                guilds@[i].guild_id,
                                case_folded(self.record.nickname@),
                            ),
                        )
                    &&& final(store)@ == routed_store(self.record, guilds@, old(store)@)
                },
            },
    {
        let record = &self.record;
        let verdict = match classify(record, None) {
            None => {
                return Err(RecordError::NoEvents);
            },
            Some(Verdict::Unrecognized) => {
                return Err(RecordError::UnrecognizedEvent);
            },
            Some(verdict) => verdict,
        };
        let ghost before = store@;
        let mut actions: Vec<Action> = Vec::new();
        let mut i: usize = 0;
        while i < guilds.len()
            invariant
                store.wf(),
                i <= guilds@.len(),
                record.event_list@.len() > 0,
                !(verdict is Unrecognized),
                actions@.len() == i,
                store@ == routed_store(*record, guilds@.subrange(0, i as int), before),
                forall|j: int|
                    0 <= j < i ==> (#[trigger] actions@[j])@ == guild_action(
                        *record,
                        verdict,
                        guilds@[j],
                        stored(
                            routed_store(*record, guilds@.subrange(0, j), before),
                            guilds@[j].guild_id,
                            case_folded(record.nickname@),
                        ),
                    ),
            decreases guilds@.len() - i,
        {
            let action = route_guild(record, verdict, &guilds[i], store);
            proof {
                let next = guilds@.subrange(0, i + 1);
                assert(next.drop_last() =~= guilds@.subrange(0, i as int));
                assert(next.last() == guilds@[i as int]);
            }
            match action {
                Some(action) => {
                    actions.push(action);
                },
                None => {},
            }
            i += 1;
        }
        assert(guilds@.subrange(0, i as int) =~= guilds@);
        Ok(actions)
    }
}

/// The actions that `result` holds; none for a record given up as a whole.
pub open spec fn actions_of(result: Result<Vec<Action>, RecordError>) -> Seq<Action> {
    match result {
        Ok(actions) => actions@,
        Err(_) => Seq::<Action>::empty(),
    }
}

/// Routes `record` to `guilds` and gives the action for each of them, in
/// order; a record given up as a whole gives no action at all and leaves
/// the store as it is.
pub fn parse_record(record: EventRecord, guilds: &Vec<GuildConfig>, store: &mut GuildPlayerStore) -> (actions:
    Vec<Action>)
    requires
        old(store).wf(),
    ensures
        final(store).wf(),
        dispatched(record) ==> {
            &&& actions@.len() == guilds@.len()
            &&& forall|i: int|
                0 <= i < guilds@.len() ==> (#[trigger] actions@[i])@ == guild_action(
                    record,
                    classify_spec(record.event_list@, record.context_event_list@)->0,
                    guilds@[i],
                    stored(
                        routed_store(record, guilds@.subrange(0, i), old(store)@),
                        guilds@[i].guild_id,
                        case_folded(record.nickname@),
                    ),
                )
            &&& final(store)@ == routed_store(record, guilds@, old(store)@)
        },
        !dispatched(record) ==> {
            &&& actions@.len() == 0
            &&& final(store)@ == old(store)@
        },
{
    let dispatcher = Dispatcher { record };
    match dispatcher.dispatch(guilds, store) {
        Ok(actions) => actions,
        Err(_) => Vec::new(),
    }
}

/// A reset for a player with no notification on record sends and edits
/// nothing, and serving the guild a second time does the same and stores
/// nothing more.
pub proof fn lemma_reset_without_notification(
    record: EventRecord,
    guild: GuildConfig,
    states: Map<(u64, Seq<char>), PlayerState>,
)
    requires
        known_or_fresh(
            stored(states, guild.guild_id, case_folded(record.nickname@)),
        ).last_notification_ref is None,
    ensures
        guild_action(
            record,
            Verdict::Reset,
            guild,
            stored(states, guild.guild_id, case_folded(record.nickname@)),
        ) is Suppress,
        guild_action(
            record,
            Verdict::Reset,
            guild,
            stored(
                guild_store(record, guild, states),
                guild.guild_id,
                case_folded(record.nickname@),
            ),
        ) == guild_action(
            record,
            Verdict::Reset,
            guild,
            stored(states, guild.guild_id, case_folded(record.nickname@)),
        ),
        guild_store(record, guild, guild_store(record, guild, states)) == guild_store(
            record,
            guild,
            states,
        ),
{
    let once = guild_store(record, guild, states);
    assert(guild_store(record, guild, once) =~= once);
}

/// A split for which no subscriber role is eligible sends and edits
/// nothing.
pub proof fn lemma_no_roles_no_send(
    record: EventRecord,
    split: Split,
    label: StructureLabel,
    bastionless: bool,
    guild: GuildConfig,
    known: Option<PlayerState>,
)
    requires
        matched_roles(guild, split, record.event_list@.last().igt, known_or_fresh(known)).len()
            == 0,
    ensures
        guild_action(record, Verdict::Split { split, label, bastionless }, guild, known)
            is Suppress,
{
}

/// A reset that follows a recorded notification, in a guild that sees the
/// record, edits the very message that was recorded, in the guild's
/// notification channel.
pub proof fn lemma_send_then_reset(
    record: EventRecord,
    guild: GuildConfig,
    states: Map<(u64, Seq<char>), PlayerState>,
    split: Split,
    message_ref: u64,
)
    requires
        visible(record, guild),
    ensures
        guild_action(
            record,
            Verdict::Reset,
            guild,
            stored(
                states.insert(
                    state_key(record, guild),
                    notified(
                        known_or_fresh(
                            stored(states, guild.guild_id, case_folded(record.nickname@)),
                        ),
                        split,
                        message_ref,
                    ),
                ),
                guild.guild_id,
                case_folded(record.nickname@),
            ),
        ) == (ActionView::Edit { channel: guild.notification_channel, message_ref }),
{
}

/// Every matched role is a role for the split reached, and in a public
/// guild none of them is a personal-best role.
pub proof fn lemma_matched_roles(guild: GuildConfig, split: Split, igt_millis: u64, state: PlayerState)
    ensures
        forall|i: int|
            0 <= i < matched_roles(guild, split, igt_millis, state).len() ==> (#[trigger] matched_roles(
                guild,
                split,
                igt_millis,
                state,
            )[i]).split == split,
        !guild.is_private ==> forall|i: int|
            0 <= i < matched_roles(guild, split, igt_millis, state).len() ==> !(
            #[trigger] matched_roles(guild, split, igt_millis, state)[i]).is_personal_best_role,
{
    let wanted = |role: RoleDef|
        eligible(guild.is_private, split, igt_millis as nat, state.expected_split_times, role);
    assert forall|i: int| 0 <= i < guild.subscriber_roles@.filter(wanted).len() implies wanted(
        #[trigger] guild.subscriber_roles@.filter(wanted)[i],
    ) by {
        guild.subscriber_roles@.lemma_filter_pred(wanted, i);
    }
}

/// The first finish of a player with no expected finish time is announced
/// whatever its time and whatever the guild; once it was recorded, a later
/// finish is announced exactly where it is faster than the first.
pub proof fn lemma_first_finish_then_faster(state: PlayerState, first: u64, later: nat)
    requires
        state.expected_split_times.finish is None,
    ensures
        finish_announced(state, first as nat),
        finish_announced(finished(state, first), later) == (later < first),
{
}

} // verus!
