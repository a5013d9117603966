use pacemanbot::guild::{is_eligible, match_roles, GuildConfig, PlayerState, RoleDef, SplitTimes};
use pacemanbot::split::Split;
use pacemanbot::text::{format_time, get_time, push_decimal, push_two_digits};

fn role(role_id: u64, split: Split, minutes: u32, seconds: u32) -> RoleDef {
    RoleDef {
        role_id,
        split,
        threshold_minutes: minutes,
        threshold_seconds: seconds,
        is_personal_best_role: false,
    }
}

fn pb_role(role_id: u64, split: Split) -> RoleDef {
    RoleDef {
        role_id,
        split,
        threshold_minutes: 0,
        threshold_seconds: 0,
        is_personal_best_role: true,
    }
}

fn guild_with(is_private: bool, roles: Vec<RoleDef>) -> GuildConfig {
    GuildConfig {
        guild_id: 1,
        is_private,
        notification_channel: 10,
        leaderboard_channel: None,
        subscriber_roles: roles,
    }
}

fn ids(roles: &[RoleDef]) -> Vec<u64> {
    roles.iter().map(|r| r.role_id).collect()
}

#[test]
fn time_is_split_into_minutes_and_seconds() {
    assert_eq!(get_time(0), (0, 0));
    assert_eq!(get_time(999), (0, 0));
    assert_eq!(get_time(125_000), (2, 5));
    assert_eq!(get_time(125_999), (2, 5));
    assert_eq!(get_time(59_999), (0, 59));
    assert_eq!(get_time(60_000), (1, 0));
    assert_eq!(get_time(u64::MAX), (u64::MAX / 60_000, (u64::MAX / 1000) % 60));
}

#[test]
fn time_is_rendered_in_two_digits() {
    assert_eq!(format_time(0), "00:00");
    assert_eq!(format_time(125_000), "02:05");
    assert_eq!(format_time(599_000), "09:59");
    assert_eq!(format_time(600_000), "10:00");
    assert_eq!(format_time(6_000_000), "100:00");
    assert_eq!(format_time(754_321), "12:34");
}

#[test]
fn decimal_numerals() {
    let mut out = String::from("n=");
    push_decimal(&mut out, 0);
    out.push(',');
    push_decimal(&mut out, 7);
    out.push(',');
    push_decimal(&mut out, 10);
    out.push(',');
    push_decimal(&mut out, 1234567890);
    out.push(',');
    push_decimal(&mut out, u64::MAX);
    assert_eq!(out, "n=0,7,10,1234567890,18446744073709551615");
    let mut padded = String::new();
    push_two_digits(&mut padded, 3);
    push_two_digits(&mut padded, 10);
    push_two_digits(&mut padded, 123);
    assert_eq!(padded, "0310123");
}

#[test]
fn roles_need_the_split_and_a_beaten_threshold() {
    let guild = guild_with(
        false,
        vec![
            role(1, Split::FirstStructure, 2, 30),
            role(2, Split::FirstStructure, 3, 0),
            role(3, Split::FirstStructure, 2, 0),
            role(4, Split::SecondStructure, 3, 0),
            role(5, Split::FirstStructure, 1, 30),
        ],
    );
    let matched = match_roles(&guild, Split::FirstStructure, 125_000, &PlayerState::new());
    assert_eq!(ids(&matched), vec![1, 2]);
    assert!(matched.iter().all(|r| r.split == Split::FirstStructure));
}

#[test]
fn equal_minutes_need_fewer_seconds() {
    let state = PlayerState::new();
    let guild = guild_with(false, vec![role(1, Split::Blind, 5, 30), role(2, Split::Blind, 5, 0)]);
    assert_eq!(ids(&match_roles(&guild, Split::Blind, 329_999, &state)), vec![1]);
    assert_eq!(ids(&match_roles(&guild, Split::Blind, 330_000, &state)), Vec::<u64>::new());
    assert_eq!(ids(&match_roles(&guild, Split::Blind, 299_999, &state)), vec![1, 2]);
    assert_eq!(ids(&match_roles(&guild, Split::Blind, 300_000, &state)), vec![1]);
}

#[test]
fn matched_roles_keep_configuration_order() {
    let guild = guild_with(
        false,
        vec![
            role(9, Split::EyeSpy, 9, 0),
            role(3, Split::EyeSpy, 8, 30),
            role(7, Split::EndEnter, 9, 0),
            role(5, Split::EyeSpy, 10, 0),
        ],
    );
    let matched = match_roles(&guild, Split::EyeSpy, 480_000, &PlayerState::new());
    assert_eq!(ids(&matched), vec![9, 3, 5]);
}

#[test]
fn no_role_matches_a_slow_pace() {
    let guild = guild_with(false, vec![role(1, Split::FirstStructure, 2, 0)]);
    assert!(match_roles(&guild, Split::FirstStructure, 125_000, &PlayerState::new()).is_empty());
    let none = guild_with(true, vec![]);
    assert!(match_roles(&none, Split::FirstStructure, 1, &PlayerState::new()).is_empty());
}

#[test]
fn personal_best_roles_never_count_in_a_public_guild() {
    let mut state = PlayerState::new();
    state.expected_split_times.first_structure = Some(5);
    let guild = guild_with(false, vec![pb_role(1, Split::FirstStructure)]);
    assert!(match_roles(&guild, Split::FirstStructure, 125_000, &state).is_empty());
    assert!(match_roles(&guild, Split::FirstStructure, 0, &state).is_empty());
}

#[test]
fn personal_best_roles_count_ahead_of_the_expected_time() {
    let mut state = PlayerState::new();
    state.expected_split_times.first_structure = Some(3);
    let guild = guild_with(true, vec![pb_role(1, Split::FirstStructure), pb_role(2, Split::Blind)]);
    assert_eq!(ids(&match_roles(&guild, Split::FirstStructure, 125_000, &state)), vec![1]);
    assert_eq!(ids(&match_roles(&guild, Split::FirstStructure, 179_999, &state)), vec![1]);
    assert!(match_roles(&guild, Split::FirstStructure, 180_000, &state).is_empty());
    assert!(match_roles(&guild, Split::Blind, 1, &state).is_empty());
}

#[test]
fn personal_best_roles_need_an_expected_time() {
    let guild = guild_with(true, vec![pb_role(1, Split::EndEnter)]);
    assert!(match_roles(&guild, Split::EndEnter, 1, &PlayerState::new()).is_empty());
}

#[test]
fn eligibility_of_one_role() {
    let times = SplitTimes::new();
    let r = role(1, Split::Blind, 6, 30);
    assert!(is_eligible(false, Split::Blind, 389_000, &times, &r));
    assert!(!is_eligible(false, Split::Blind, 390_000, &times, &r));
    assert!(!is_eligible(false, Split::EyeSpy, 1, &times, &r));
}

#[test]
fn expected_times_by_split() {
    let mut times = SplitTimes::new();
    assert_eq!(times.get(Split::Finish), None);
    times.first_structure = Some(1);
    times.second_structure = Some(2);
    times.blind = Some(3);
    times.eye_spy = Some(4);
    times.end_enter = Some(5);
    times.finish = Some(6);
    assert_eq!(times.get(Split::FirstStructure), Some(1));
    assert_eq!(times.get(Split::SecondStructure), Some(2));
    assert_eq!(times.get(Split::Blind), Some(3));
    assert_eq!(times.get(Split::EyeSpy), Some(4));
    assert_eq!(times.get(Split::EndEnter), Some(5));
    assert_eq!(times.get(Split::Finish), Some(6));
}
