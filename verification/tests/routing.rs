use pacemanbot::content::reset_edit;
use pacemanbot::event::{Event, EventRecord};
use pacemanbot::guild::{GuildConfig, PlayerState, RoleDef, SplitTimes};
use pacemanbot::handler::Handler;
use pacemanbot::router::{
    handle_non_pace_event, parse_record, route_guild, Action, Dispatcher, RecordError, SkipReason,
};
use pacemanbot::classify::Verdict;
use pacemanbot::split::{Split, StructureLabel};
use pacemanbot::store::{player_key, GuildPlayerStore};

fn ev(id: &str, igt: u64) -> Event {
    Event { event_id: id.to_string(), igt }
}

fn rec(nickname: &str, live: Option<&str>, events: Vec<Event>, context: Vec<Event>) -> EventRecord {
    EventRecord {
        nickname: nickname.to_string(),
        user_id: "id-1".to_string(),
        live_account: live.map(|l| l.to_string()),
        last_updated: 1_700_000_000_000,
        event_list: events,
        context_event_list: context,
    }
}

fn sub(role_id: u64, split: Split, minutes: u32, seconds: u32) -> RoleDef {
    RoleDef {
        role_id,
        split,
        threshold_minutes: minutes,
        threshold_seconds: seconds,
        is_personal_best_role: false,
    }
}

fn guild(guild_id: u64, is_private: bool, roles: Vec<RoleDef>) -> GuildConfig {
    GuildConfig {
        guild_id,
        is_private,
        notification_channel: guild_id * 100,
        leaderboard_channel: None,
        subscriber_roles: roles,
    }
}

fn first_structure_roles() -> Vec<RoleDef> {
    vec![
        sub(1, Split::FirstStructure, 2, 0),
        sub(2, Split::FirstStructure, 2, 30),
        sub(3, Split::SecondStructure, 4, 0),
        sub(4, Split::FirstStructure, 3, 0),
    ]
}

fn suppressed(reason: SkipReason) -> Action {
    Action::Suppress { reason }
}

const SENT: &str =
    "## 02:05 - Bastion\n[A](<https://twitch.tv/a_tv>)\t<t:1700000000:R>\n<@&2> <@&4>";

#[test]
fn live_player_in_public_guild_gets_a_send() {
    let mut handler = Handler::new();
    handler.guild_create(guild(1, false, first_structure_roles()));
    let record = rec("A", Some("a_tv"), vec![ev("rsg.enter_bastion", 125_000)], vec![]);
    let actions = handler.handle_record(record).unwrap();
    assert_eq!(actions.len(), 1);
    match &actions[0] {
        Action::Send { channel, split, content, roles } => {
            assert_eq!(*channel, 100);
            assert_eq!(*split, Split::FirstStructure);
            assert_eq!(roles.iter().map(|r| r.role_id).collect::<Vec<u64>>(), vec![2, 4]);
            assert_eq!(content.split('\n').next(), Some("## 02:05 - Bastion"));
            assert_eq!(content, SENT);
        }
        other => panic!("expected a send, got {:?}", other),
    }
    assert_eq!(handler.player_state(1, "A"), Some(PlayerState::new()));
}

#[test]
fn reset_edits_the_message_just_sent() {
    let mut handler = Handler::new();
    handler.guild_create(guild(1, false, first_structure_roles()));
    let first = rec("A", Some("a_tv"), vec![ev("rsg.enter_bastion", 125_000)], vec![]);
    let actions = handler.handle_record(first).unwrap();
    let content = match &actions[0] {
        Action::Send { content, .. } => content.clone(),
        other => panic!("expected a send, got {:?}", other),
    };
    handler.message_sent(1, "A", Split::FirstStructure, 777);
    let state = handler.player_state(1, "a").unwrap();
    assert_eq!(state.last_notification_ref, Some(777));
    assert_eq!(state.last_split_reached, Some(Split::FirstStructure));

    let second = rec(
        "A",
        Some("a_tv"),
        vec![ev("rsg.enter_bastion", 125_000), ev("common.open_to_lan", 130_000)],
        vec![],
    );
    let actions = handler.handle_record(second).unwrap();
    assert_eq!(actions, vec![Action::Edit { channel: 100, message_ref: 777 }]);
    let edited = reset_edit(&content);
    let lines: Vec<&str> = edited.split('\n').collect();
    let sent_lines: Vec<&str> = content.split('\n').collect();
    assert_eq!(lines[0], "## 02:05 - Bastion (Reset)");
    assert_eq!(lines[1..], sent_lines[1..]);
    let state = handler.player_state(1, "A").unwrap();
    assert_eq!(state.last_split_reached, Some(Split::FirstStructure));
    assert_eq!(state.last_notification_ref, Some(777));
}

#[test]
fn reset_without_notification_is_a_skip_each_time() {
    let mut handler = Handler::new();
    handler.guild_create(guild(1, false, first_structure_roles()));
    for _ in 0..2 {
        let record = rec("A", Some("a_tv"), vec![ev("common.leave_world", 5)], vec![]);
        assert_eq!(
            handler.handle_record(record),
            Ok(vec![suppressed(SkipReason::NoPriorNotification)])
        );
        assert_eq!(handler.player_state(1, "A"), Some(PlayerState::new()));
    }
}

#[test]
fn split_without_matching_role_is_suppressed() {
    let mut handler = Handler::new();
    handler.guild_create(guild(1, false, first_structure_roles()));
    let record = rec("A", Some("a_tv"), vec![ev("rsg.enter_bastion", 200_000)], vec![]);
    assert_eq!(handler.handle_record(record), Ok(vec![suppressed(SkipReason::NoRolesMatched)]));
    assert_eq!(handler.player_state(1, "A").unwrap().last_notification_ref, None);
}

#[test]
fn unrecognized_event_stops_before_any_guild() {
    let mut handler = Handler::new();
    handler.guild_create(guild(1, false, first_structure_roles()));
    handler.guild_create(guild(2, false, first_structure_roles()));
    let record = rec("A", Some("a_tv"), vec![ev("foo.bar", 1)], vec![]);
    assert_eq!(handler.handle_record(record), Err(RecordError::UnrecognizedEvent));
    assert_eq!(handler.player_state(1, "A"), None);
    assert_eq!(handler.player_state(2, "A"), None);

    let mut store = GuildPlayerStore::new();
    let guilds = vec![guild(1, false, vec![]), guild(2, false, vec![])];
    let record = rec("A", Some("a_tv"), vec![ev("foo.bar", 1)], vec![]);
    assert!(parse_record(record, &guilds, &mut store).is_empty());
    assert_eq!(store.find(2, "a"), None);
}

#[test]
fn record_without_events_is_given_up() {
    let mut store = GuildPlayerStore::new();
    let guilds = vec![guild(1, false, first_structure_roles())];
    let dispatcher = Dispatcher { record: rec("A", Some("a_tv"), vec![], vec![]) };
    assert_eq!(dispatcher.dispatch(&guilds, &mut store), Err(RecordError::NoEvents));
    assert_eq!(store.find(1, "a"), None);
    assert!(parse_record(rec("A", Some("a_tv"), vec![], vec![]), &guilds, &mut store).is_empty());
}

#[test]
fn each_guild_decides_for_itself() {
    let mut handler = Handler::new();
    handler.guild_create(guild(1, false, vec![sub(1, Split::FirstStructure, 2, 0)]));
    handler.guild_create(guild(2, true, first_structure_roles()));
    handler.guild_create(guild(3, false, first_structure_roles()));
    handler.guild_create(guild(4, true, first_structure_roles()));
    handler.enroll(4, "A", SplitTimes::new());
    let record = rec("A", Some("a_tv"), vec![ev("rsg.enter_bastion", 125_000)], vec![]);
    let actions = handler.handle_record(record).unwrap();
    assert_eq!(actions.len(), 4);
    assert_eq!(actions[0], suppressed(SkipReason::NoRolesMatched));
    assert_eq!(actions[1], suppressed(SkipReason::NotRostered));
    assert!(matches!(actions[2], Action::Send { channel: 300, .. }));
    assert!(matches!(actions[3], Action::Send { channel: 400, .. }));
    assert_eq!(handler.player_state(2, "A"), None);
    assert_eq!(handler.player_state(1, "A"), Some(PlayerState::new()));
}

#[test]
fn offline_player_is_skipped_in_public_and_labelled_in_private() {
    let mut handler = Handler::new();
    handler.guild_create(guild(1, false, first_structure_roles()));
    handler.guild_create(guild(2, true, first_structure_roles()));
    handler.enroll(2, "Bea", SplitTimes::new());
    let record = rec("Bea", None, vec![ev("rsg.enter_bastion", 125_000)], vec![]);
    let actions = handler.handle_record(record).unwrap();
    assert_eq!(actions[0], suppressed(SkipReason::NotLive));
    match &actions[1] {
        Action::Send { content, .. } => {
            assert_eq!(
                content,
                "## 02:05 - Bastion\nOffline - Bea\t<t:1700000000:R>\n<@&2> <@&4>"
            );
        }
        other => panic!("expected a send, got {:?}", other),
    }
    assert_eq!(handler.player_state(1, "Bea"), None);
}

#[test]
fn player_is_found_whatever_the_case_of_the_nickname() {
    assert_eq!(player_key("AbC_9"), "abc_9");
    let mut handler = Handler::new();
    handler.guild_create(guild(1, true, first_structure_roles()));
    handler.enroll(1, "runner", SplitTimes::new());
    let record = rec("RuNNer", Some("tv"), vec![ev("rsg.enter_bastion", 125_000)], vec![]);
    let actions = handler.handle_record(record).unwrap();
    assert!(matches!(actions[0], Action::Send { .. }));
}

#[test]
fn finish_goes_to_the_leaderboard_and_is_announced() {
    let mut private = guild(1, true, vec![]);
    private.leaderboard_channel = Some(55);
    let record = rec("A", None, vec![ev("rsg.credits", 725_000)], vec![]);
    let action = handle_non_pace_event(&record, 725_000, &private, &PlayerState::new());
    assert_eq!(
        action,
        Action::DelegateLeaderboard {
            board: Some(55),
            minutes: 12,
            seconds: 5,
            channel: 100,
            announcement: Some("## 12:05 - Finish\nOffline - A\t<t:1700000000:R>\n".to_string()),
        }
    );
}

#[test]
fn first_finish_is_announced_whatever_its_time() {
    let public = guild(1, false, vec![]);
    let record = rec("A", Some("a_tv"), vec![ev("rsg.credits", 599_999)], vec![]);
    let fast = handle_non_pace_event(&record, 599_999, &public, &PlayerState::new());
    assert!(matches!(
        fast,
        Action::DelegateLeaderboard {
            announcement: Some(_),
            minutes: 9,
            seconds: 59,
            board: None,
            ..
        }
    ));
    let slow = handle_non_pace_event(&record, 600_000, &public, &PlayerState::new());
    assert_eq!(
        slow,
        Action::DelegateLeaderboard {
            board: None,
            minutes: 10,
            seconds: 0,
            channel: 100,
            announcement: Some(
                "## 10:00 - Finish\n[A](<https://twitch.tv/a_tv>)\t<t:1700000000:R>\n".to_string()
            ),
        }
    );
    let slower = handle_non_pace_event(&record, 7_200_000, &public, &PlayerState::new());
    assert!(matches!(slower, Action::DelegateLeaderboard { announcement: Some(_), .. }));
    let private = guild(2, true, vec![]);
    let there = handle_non_pace_event(&record, 7_200_000, &private, &PlayerState::new());
    assert!(matches!(there, Action::DelegateLeaderboard { announcement: Some(_), .. }));
}

#[test]
fn slow_first_finish_in_a_public_guild_is_the_time_to_beat() {
    let mut handler = Handler::new();
    handler.guild_create(guild(1, false, vec![]));
    let record = rec("A", Some("a_tv"), vec![ev("rsg.credits", 1_500_000)], vec![]);
    let actions = handler.handle_record(record).unwrap();
    assert!(matches!(
        actions[0],
        Action::DelegateLeaderboard { announcement: Some(_), minutes: 25, seconds: 0, .. }
    ));
    handler.finish_sent(1, "A", 25);
    let same = rec("A", Some("a_tv"), vec![ev("rsg.credits", 1_500_000)], vec![]);
    let actions = handler.handle_record(same).unwrap();
    assert!(matches!(actions[0], Action::DelegateLeaderboard { announcement: None, .. }));
    let faster = rec("A", Some("a_tv"), vec![ev("rsg.credits", 1_499_999)], vec![]);
    let actions = handler.handle_record(faster).unwrap();
    assert!(matches!(actions[0], Action::DelegateLeaderboard { announcement: Some(_), .. }));
}

#[test]
fn finish_must_beat_the_expected_time() {
    let private = guild(1, true, vec![]);
    let mut state = PlayerState::new();
    state.expected_split_times.finish = Some(12);
    let record = rec("A", Some("a_tv"), vec![ev("rsg.credits", 1)], vec![]);
    let ahead = handle_non_pace_event(&record, 719_999, &private, &state);
    assert!(matches!(ahead, Action::DelegateLeaderboard { announcement: Some(_), .. }));
    let behind = handle_non_pace_event(&record, 720_000, &private, &state);
    assert!(matches!(behind, Action::DelegateLeaderboard { announcement: None, .. }));
}

#[test]
fn first_announced_finish_is_the_time_to_beat() {
    let mut handler = Handler::new();
    handler.guild_create(guild(1, false, vec![]));
    let record = rec("A", Some("a_tv"), vec![ev("rsg.credits", 540_000)], vec![]);
    let actions = handler.handle_record(record).unwrap();
    assert!(matches!(actions[0], Action::DelegateLeaderboard { announcement: Some(_), .. }));
    handler.finish_sent(1, "A", 9);
    handler.finish_sent(1, "A", 7);
    assert_eq!(handler.player_state(1, "A").unwrap().expected_split_times.finish, Some(9));
    let again = rec("A", Some("a_tv"), vec![ev("rsg.credits", 540_000)], vec![]);
    let actions = handler.handle_record(again).unwrap();
    assert!(matches!(actions[0], Action::DelegateLeaderboard { announcement: None, .. }));
    let faster = rec("A", Some("a_tv"), vec![ev("rsg.credits", 539_999)], vec![]);
    let actions = handler.handle_record(faster).unwrap();
    assert!(matches!(actions[0], Action::DelegateLeaderboard { announcement: Some(_), .. }));
}

#[test]
fn unrecognized_verdict_is_no_matter_of_one_guild() {
    let mut store = GuildPlayerStore::new();
    let record = rec("A", Some("a_tv"), vec![ev("foo.bar", 1)], vec![]);
    let public = guild(1, false, vec![]);
    assert_eq!(route_guild(&record, Verdict::Unrecognized, &public, &mut store), None);
    assert_eq!(store.find(1, "a"), None);
    assert_eq!(
        route_guild(&record, Verdict::Reset, &public, &mut store),
        Some(suppressed(SkipReason::NoPriorNotification))
    );
    assert_eq!(store.find(1, "a"), Some(PlayerState::new()));
}

#[test]
fn store_keeps_one_state_per_guild_and_player() {
    let mut store = GuildPlayerStore::new();
    assert_eq!(store.find(1, "a"), None);
    assert_eq!(store.get_or_create(1, "a"), PlayerState::new());
    store.record_notification(1, "a", Split::Blind, 5);
    store.record_notification(2, "a", Split::EyeSpy, 6);
    store.record_notification(1, "b", Split::EndEnter, 7);
    let a1 = store.get_or_create(1, "a");
    assert_eq!(a1.last_notification_ref, Some(5));
    assert_eq!(a1.last_split_reached, Some(Split::Blind));
    assert_eq!(store.find(2, "a").unwrap().last_notification_ref, Some(6));
    assert_eq!(store.find(1, "b").unwrap().last_split_reached, Some(Split::EndEnter));
    let mut times = SplitTimes::new();
    times.blind = Some(6);
    store.enroll(1, "a", times);
    let a1 = store.find(1, "a").unwrap();
    assert_eq!(a1.expected_split_times.blind, Some(6));
    assert_eq!(a1.last_notification_ref, Some(5));
    store.set(1, "a", PlayerState::new());
    assert_eq!(store.find(1, "a"), Some(PlayerState::new()));
    assert_eq!(store.find(1, "b").unwrap().last_notification_ref, Some(7));
    store.record_finish(3, "c", 11);
    assert_eq!(store.find(3, "c").unwrap().expected_split_times.finish, Some(11));
}

#[test]
fn guild_configuration_is_replaced_in_place() {
    let mut handler = Handler::new();
    handler.guild_create(guild(1, false, vec![]));
    handler.guild_create(guild(2, false, first_structure_roles()));
    handler.guild_create(guild(1, false, first_structure_roles()));
    let record = rec("A", Some("a_tv"), vec![ev("rsg.enter_bastion", 125_000)], vec![]);
    let actions = handler.handle_record(record).unwrap();
    assert_eq!(actions.len(), 2);
    assert!(matches!(actions[0], Action::Send { channel: 100, .. }));
    assert!(matches!(actions[1], Action::Send { channel: 200, .. }));
}

#[test]
fn bastionless_marker_reaches_the_header() {
    let mut handler = Handler::new();
    handler.guild_create(guild(1, false, vec![sub(8, Split::Blind, 8, 0)]));
    let record = rec(
        "A",
        Some("a_tv"),
        vec![ev("rsg.enter_fortress", 100_000), ev("rsg.first_portal", 400_000)],
        vec![],
    );
    let actions = handler.handle_record(record).unwrap();
    match &actions[0] {
        Action::Send { content, split, .. } => {
            assert_eq!(*split, Split::Blind);
            assert_eq!(content.split('\n').next(), Some("## 06:40 - Blind (Bastionless)"));
        }
        other => panic!("expected a send, got {:?}", other),
    }
    let _ = StructureLabel::Unlabelled;
}

#[test]
fn sent_message_is_recorded_only_on_the_state_it_was_decided_on() {
    let mut handler = Handler::new();
    handler.guild_create(guild(1, false, first_structure_roles()));
    assert!(!handler.message_sent_if_unchanged(1, "A", Some(PlayerState::new()), Split::Blind, 5));
    assert_eq!(handler.player_state(1, "A"), None);
    assert!(handler.message_sent_if_unchanged(1, "A", None, Split::Blind, 5));
    let recorded = handler.player_state(1, "A");
    assert_eq!(recorded.unwrap().last_notification_ref, Some(5));
    assert!(!handler.message_sent_if_unchanged(1, "A", None, Split::EyeSpy, 6));
    assert!(!handler.message_sent_if_unchanged(1, "A", Some(PlayerState::new()), Split::EyeSpy, 6));
    assert_eq!(handler.player_state(1, "A"), recorded);
    assert!(handler.message_sent_if_unchanged(1, "a", recorded, Split::EyeSpy, 6));
    let state = handler.player_state(1, "A").unwrap();
    assert_eq!(state.last_notification_ref, Some(6));
    assert_eq!(state.last_split_reached, Some(Split::EyeSpy));
}
