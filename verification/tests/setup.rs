use pacemanbot::components::{
    contains_name, error_message, menu_custom_id, menu_option, menu_placeholder, menu_options, read_options, role_colour, role_name, role_prefix,
    send_role_selection_message, setup_default_roles, setup_roles, validate_config, CommandOption,
    ConfigError, MenuOption, OptionValue, RoleRange, Row,
};
use pacemanbot::guild::RoleDef;
use pacemanbot::role_names::{parse_role_name, role_def, RoleName};
use pacemanbot::split::Split;

fn names(list: &[&str]) -> Vec<String> {
    list.iter().map(|n| n.to_string()).collect()
}

fn text_option(name: &str, value: &str) -> CommandOption {
    CommandOption { name: name.to_string(), value: Some(OptionValue::Text(value.to_string())) }
}

fn int_option(name: &str, value: u64) -> CommandOption {
    CommandOption { name: name.to_string(), value: Some(OptionValue::Integer(value)) }
}

fn threshold(role_id: u64, split: Split, minutes: u32, seconds: u32) -> RoleDef {
    RoleDef {
        role_id,
        split,
        threshold_minutes: minutes,
        threshold_seconds: seconds,
        is_personal_best_role: false,
    }
}

fn choice(label: &str, value: &str) -> MenuOption {
    MenuOption { label: label.to_string(), value: value.to_string() }
}

#[test]
fn role_colour_is_packed_from_its_channels() {
    assert_eq!(role_colour(), 0x36393f);
    assert_eq!(role_colour(), (54 << 16) | (57 << 8) | 63);
}

#[test]
fn role_prefixes_by_split_name() {
    assert_eq!(role_prefix("first_structure"), Some("FS"));
    assert_eq!(role_prefix("second_structure"), Some("SS"));
    assert_eq!(role_prefix("blind"), Some("B"));
    assert_eq!(role_prefix("eye_spy"), Some("ES"));
    assert_eq!(role_prefix("end_enter"), Some("EE"));
    assert_eq!(role_prefix("finish"), None);
    assert_eq!(role_prefix(""), None);
}

#[test]
fn role_names_are_built_from_prefix_and_pace() {
    assert_eq!(role_name("FS", 2, 3), "*FS2:3");
    assert_eq!(role_name("EE", 10, 0), "*EE10:0");
    assert!(contains_name(&names(&["a", "*FS2:3"]), "*FS2:3"));
    assert!(!contains_name(&names(&["a", "*FS2:3"]), "*FS2:0"));
    assert!(!contains_name(&names(&[]), ""));
}

#[test]
fn default_roles_are_those_the_guild_lacks() {
    let plan = setup_default_roles(&names(&[]));
    assert_eq!(
        plan.names,
        names(&[
            "*FS2:0", "*FS2:3", "*FS3:0", "*SS6:0", "*SS5:3", "*SS5:0", "*SS4:3", "*B8:0",
            "*B7:3", "*B7:0", "*B6:3", "*B6:0", "*B5:3", "*E9:3", "*E9:0", "*E8:3", "*E8:0",
            "*EE8:3", "*EE9:0", "*EE9:3", "*EE10:0",
        ])
    );
    assert_eq!(plan.colour, 0x36393f);
    assert_eq!(plan.reply, "Default pace-roles have been setup!");
    let existing = names(&["*FS2:0", "everyone", "*EE10:0", "*B7:0"]);
    let plan = setup_default_roles(&existing);
    assert_eq!(plan.names.len(), 18);
    assert!(!plan.names.contains(&"*FS2:0".to_string()));
    assert!(!plan.names.contains(&"*EE10:0".to_string()));
    assert_eq!(plan.names[0], "*FS2:3");
}

#[test]
fn roles_of_a_range_are_planned_in_half_minutes() {
    let options = vec![
        text_option("split_name", "blind"),
        int_option("split_start", 5),
        int_option("split_end", 7),
    ];
    let plan = setup_roles(&options, &names(&["*B6:0"])).unwrap();
    assert_eq!(plan.names, names(&["*B5:0", "*B5:3", "*B6:3", "*B7:0"]));
    assert_eq!(plan.colour, 0x36393f);
    assert_eq!(
        plan.reply,
        "Pace-roles for split name: blind with lower bound: 5 and upper bound: 7 have been setup!"
    );
}

#[test]
fn range_that_ends_before_it_starts_plans_its_end_only() {
    let options = vec![
        int_option("split_end", 2),
        int_option("split_start", 4),
        text_option("split_name", "eye_spy"),
    ];
    let plan = setup_roles(&options, &names(&[])).unwrap();
    assert_eq!(plan.names, names(&["*ES2:0"]));
    let same = vec![text_option("split_name", "end_enter")];
    assert_eq!(setup_roles(&same, &names(&[])).unwrap().names, names(&["*EE0:0"]));
}

#[test]
fn options_are_read_in_order() {
    let options = vec![
        int_option("split_start", 1),
        text_option("split_name", "a"),
        int_option("split_start", 3),
        int_option("split_end", 9),
        text_option("split_name", "b"),
    ];
    assert_eq!(
        read_options(&options),
        Ok(RoleRange { split_name: "b".to_string(), split_start: 3, split_end: 9 })
    );
    assert_eq!(
        read_options(&vec![]),
        Ok(RoleRange { split_name: String::new(), split_start: 0, split_end: 0 })
    );
}

#[test]
fn each_bad_option_has_its_error() {
    let absent = |name: &str| CommandOption { name: name.to_string(), value: None };
    let other = |name: &str| CommandOption { name: name.to_string(), value: Some(OptionValue::Other) };
    assert_eq!(read_options(&vec![int_option("split_name", 1)]), Err(ConfigError::SplitNameNotText));
    assert_eq!(read_options(&vec![absent("split_name")]), Err(ConfigError::SplitNameMissing));
    assert_eq!(
        read_options(&vec![text_option("split_start", "1")]),
        Err(ConfigError::SplitStartNotInteger)
    );
    assert_eq!(read_options(&vec![absent("split_start")]), Err(ConfigError::SplitStartMissing));
    assert_eq!(read_options(&vec![other("split_end")]), Err(ConfigError::SplitEndNotInteger));
    assert_eq!(read_options(&vec![absent("split_end")]), Err(ConfigError::SplitEndMissing));
    assert_eq!(read_options(&vec![int_option("colour", 1)]), Err(ConfigError::UnrecognizedOption));
    let first_wins = vec![text_option("split_name", "blind"), absent("split_end"), absent("what")];
    assert_eq!(setup_roles(&first_wins, &names(&[])), Err(ConfigError::SplitEndMissing));
    let unknown = vec![text_option("split_name", "finish"), int_option("split_end", 3)];
    assert_eq!(setup_roles(&unknown, &names(&[])), Err(ConfigError::UnrecognizedSplitName));
    assert_eq!(setup_roles(&vec![], &names(&[])), Err(ConfigError::UnrecognizedSplitName));
}

#[test]
fn validation_reply() {
    assert_eq!(
        validate_config(&Ok(())),
        "Config validation successful! Bot will send paces in #pacemanbot."
    );
    assert_eq!(validate_config(&Err("no channel".to_string())), "Error: no channel");
}

#[test]
fn menu_choices_show_pace_and_id() {
    assert_eq!(
        menu_option(&threshold(77, Split::FirstStructure, 2, 30)),
        choice("Sub 2:30 Structure 1", "77")
    );
    assert_eq!(menu_option(&threshold(5, Split::EyeSpy, 10, 0)), choice("Sub 10:00 Eye Spy", "5"));
    let roles = vec![
        threshold(1, Split::Blind, 6, 0),
        threshold(2, Split::EndEnter, 9, 30),
        threshold(3, Split::Blind, 5, 30),
        RoleDef {
            role_id: 4,
            split: Split::Blind,
            threshold_minutes: 0,
            threshold_seconds: 0,
            is_personal_best_role: true,
        },
    ];
    assert_eq!(
        menu_options(&roles, Split::Blind),
        vec![choice("Sub 6:00 Blind", "1"), choice("Sub 5:30 Blind", "3")]
    );
    assert_eq!(menu_options(&roles, Split::EndEnter), vec![choice("Sub 9:30 End Enter", "2")]);
    assert!(menu_options(&roles, Split::SecondStructure).is_empty());
}

#[test]
fn selection_message_with_first_structure_roles() {
    let roles = vec![threshold(1, Split::FirstStructure, 2, 0), threshold(2, Split::SecondStructure, 5, 0)];
    let message = send_role_selection_message(&roles);
    assert_eq!(message.content, "Select roles based on the splits and paces you wish to follow.");
    assert!(message.remove_button_follows);
    assert_eq!(
        message.rows,
        vec![
            Row::Menu { split: Split::FirstStructure, options: vec![choice("Sub 2:00 Structure 1", "1")] },
            Row::Menu { split: Split::SecondStructure, options: vec![choice("Sub 5:00 Structure 2", "2")] },
            Row::Menu { split: Split::Blind, options: vec![] },
            Row::Menu { split: Split::EyeSpy, options: vec![] },
            Row::Menu { split: Split::EndEnter, options: vec![] },
        ]
    );
}

#[test]
fn selection_message_without_first_structure_roles() {
    let roles = vec![threshold(9, Split::EndEnter, 10, 0)];
    let message = send_role_selection_message(&roles);
    assert!(!message.remove_button_follows);
    assert_eq!(
        message.rows,
        vec![
            Row::Menu { split: Split::SecondStructure, options: vec![] },
            Row::Menu { split: Split::Blind, options: vec![] },
            Row::Menu { split: Split::EyeSpy, options: vec![] },
            Row::Menu { split: Split::EndEnter, options: vec![choice("Sub 10:00 End Enter", "9")] },
            Row::RemoveButton,
        ]
    );
}

#[test]
fn role_names_are_read_back() {
    let pace = |split, minutes, seconds| Some(RoleName::Pace { split, minutes, seconds });
    assert_eq!(parse_role_name("*FS2:3"), pace(Split::FirstStructure, 2, 30));
    assert_eq!(parse_role_name("*FS2:0"), pace(Split::FirstStructure, 2, 0));
    assert_eq!(parse_role_name("*SS5:3"), pace(Split::SecondStructure, 5, 30));
    assert_eq!(parse_role_name("*B8:0"), pace(Split::Blind, 8, 0));
    assert_eq!(parse_role_name("*E9:3"), pace(Split::EyeSpy, 9, 30));
    assert_eq!(parse_role_name("*ES9:0"), pace(Split::EyeSpy, 9, 0));
    assert_eq!(parse_role_name("*EE10:0"), pace(Split::EndEnter, 10, 0));
    assert_eq!(parse_role_name("*EE007:3"), pace(Split::EndEnter, 7, 30));
    assert_eq!(parse_role_name("*B4294967295:0"), pace(Split::Blind, 4294967295, 0));
    assert_eq!(
        parse_role_name("*FSPB"),
        Some(RoleName::PersonalBest { split: Split::FirstStructure })
    );
    assert_eq!(parse_role_name("*EPB"), Some(RoleName::PersonalBest { split: Split::EyeSpy }));
}

#[test]
fn other_names_are_no_subscriber_roles() {
    for name in [
        "", "*", "FS2:3", "*FS", "*FS2", "*FS2:", "*FS:3", "*FS2:5", "*FS2:30", "*FSx:0",
        "*FS2 :0", "*B4294967296:0", "*X2:0", "*FSPBx", "*FSP", "moderator", "*F2:0", "*fs2:0",
        "*FS-2:0", "*FS+2:0",
    ] {
        assert_eq!(parse_role_name(name), None, "{}", name);
    }
}

#[test]
fn subscriber_role_from_a_guild_role() {
    assert_eq!(role_def("*SS4:3", 12), Some(threshold(12, Split::SecondStructure, 4, 30)));
    assert_eq!(
        role_def("*BPB", 13),
        Some(RoleDef {
            role_id: 13,
            split: Split::Blind,
            threshold_minutes: 0,
            threshold_seconds: 0,
            is_personal_best_role: true,
        })
    );
    assert_eq!(role_def("everyone", 14), None);
}

#[test]
fn each_error_has_its_message() {
    assert_eq!(
        error_message(ConfigError::SplitNameNotText, ""),
        "Unable to convert 'split_name' into '&str'."
    );
    assert_eq!(
        error_message(ConfigError::SplitNameMissing, ""),
        "Unable to get value for option name: 'split_name'."
    );
    assert_eq!(
        error_message(ConfigError::SplitStartNotInteger, ""),
        "Unable to convert 'split_start' into 'u64'."
    );
    assert_eq!(
        error_message(ConfigError::SplitStartMissing, ""),
        "Unable to get value for option name: 'split_start'."
    );
    assert_eq!(
        error_message(ConfigError::SplitEndNotInteger, ""),
        "Unable to convert 'split_end' into 'u64'."
    );
    assert_eq!(
        error_message(ConfigError::SplitEndMissing, ""),
        "Unable to get value for option name: 'split_end'."
    );
    assert_eq!(error_message(ConfigError::UnrecognizedOption, "x"), "Unrecognized option name.");
    assert_eq!(
        error_message(ConfigError::UnrecognizedSplitName, "finish"),
        "Unrecognized split name: 'finish'."
    );
}

#[test]
fn menus_have_their_ids_and_placeholders() {
    assert_eq!(menu_custom_id(Split::FirstStructure), "select_structure1_role");
    assert_eq!(menu_custom_id(Split::SecondStructure), "select_structure2_role");
    assert_eq!(menu_custom_id(Split::Blind), "select_blind_role");
    assert_eq!(menu_custom_id(Split::EyeSpy), "select_eye_spy_role");
    assert_eq!(menu_custom_id(Split::EndEnter), "select_end_enter_role");
    assert_eq!(menu_placeholder(Split::FirstStructure), "Choose a First Structure Role...");
    assert_eq!(menu_placeholder(Split::SecondStructure), "Choose a Second Structure Role...");
    assert_eq!(menu_placeholder(Split::Blind), "Choose a Blind Role...");
    assert_eq!(menu_placeholder(Split::EyeSpy), "Choose an Eye Spy Role...");
    assert_eq!(menu_placeholder(Split::EndEnter), "Choose an End Enter Role...");
}
