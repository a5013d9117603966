//! Planning of the pace roles of a guild and of the message from which
//! members pick them.

use vstd::prelude::*;
use vstd::string::*;
use serenity::utils::Colour;
use crate::guild::RoleDef;
use crate::split::Split;
use crate::text::{decimal, push_decimal, push_two_digits, str_eq, two_digits};

verus! {

/// The texts of a sequence of strings.
pub open spec fn texts(names: Seq<String>) -> Seq<Seq<char>> {
    names.map_values(|name: String| name@)
}

/// The name of the pace role with the given prefix for a pace of
/// `minutes` and `tens` times ten seconds.
pub open spec fn role_name_text(prefix: Seq<char>, minutes: nat, tens: nat) -> Seq<char> {
    "*"@ + prefix + decimal(minutes) + ":"@ + decimal(tens)
}

/// The role names for every minute from `start` up to, not including,
/// `upto`: the full minute and the half minute of each.
pub open spec fn paired_names(prefix: Seq<char>, start: nat, upto: nat) -> Seq<Seq<char>>
    decreases upto,
{
    if upto <= start {
        Seq::<Seq<char>>::empty()
    } else {
        paired_names(prefix, start, (upto - 1) as nat).push(
            role_name_text(prefix, (upto - 1) as nat, 0),
        ).push(role_name_text(prefix, (upto - 1) as nat, 3))
    }
}

/// The role names for the paces from `start` minutes to `end` minutes in
/// steps of half a minute.
pub open spec fn planned_names(prefix: Seq<char>, start: nat, end: nat) -> Seq<Seq<char>> {
    paired_names(prefix, start, end).push(role_name_text(prefix, end, 0))
}

/// The names of `wanted` that are not among `existing`, in order.
pub open spec fn missing_names(wanted: Seq<Seq<char>>, existing: Seq<Seq<char>>) -> Seq<Seq<char>> {
    wanted.filter(|name: Seq<char>| !existing.contains(name))
}

/// The role prefix of a split named in a command.
pub open spec fn prefix_of(split_name: Seq<char>) -> Option<Seq<char>> {
    if split_name == "first_structure"@ {
        Some("FS"@)
    } else if split_name == "second_structure"@ {
        Some("SS"@)
    } else if split_name == "blind"@ {
        Some("B"@)
    } else if split_name == "eye_spy"@ {
        Some("ES"@)
    } else if split_name == "end_enter"@ {
        Some("EE"@)
    } else {
        None
    }
}

/// The value of an option of a command.
#[derive(Clone, Debug, PartialEq, Eq)]
pub enum OptionValue {
    Text(String),
    Integer(u64),
    Other,
}

/// An option of a command, by name.
#[derive(Clone, Debug, PartialEq, Eq)]
pub struct CommandOption {
    pub name: String,
    pub value: Option<OptionValue>,
}

/// Why a command to set roles up is turned down.
#[derive(Clone, Copy, Debug, PartialEq, Eq, Structural)]
pub enum ConfigError {
    SplitNameNotText,
    SplitNameMissing,
    SplitStartNotInteger,
    SplitStartMissing,
    SplitEndNotInteger,
    SplitEndMissing,
    UnrecognizedOption,
    UnrecognizedSplitName,
}

/// What is said to a member whose command is turned down for `error`;
/// `split_name` is the split that the command named.
pub open spec fn error_text(error: ConfigError, split_name: Seq<char>) -> Seq<char> {
    match error {
        ConfigError::SplitNameNotText => "Unable to convert 'split_name' into '&str'."@,
        ConfigError::SplitNameMissing => "Unable to get value for option name: 'split_name'."@,
        ConfigError::SplitStartNotInteger => "Unable to convert 'split_start' into 'u64'."@,
        ConfigError::SplitStartMissing => "Unable to get value for option name: 'split_start'."@,
        ConfigError::SplitEndNotInteger => "Unable to convert 'split_end' into 'u64'."@,
        ConfigError::SplitEndMissing => "Unable to get value for option name: 'split_end'."@,
        ConfigError::UnrecognizedOption => "Unrecognized option name."@,
        ConfigError::UnrecognizedSplitName => "Unrecognized split name: '"@ + split_name + "'."@,
    }
}

/// Builds what is said to a member whose command is turned down.
pub fn error_message(error: ConfigError, split_name: &str) -> (text: String)
    ensures
        text@ == error_text(error, split_name@),
{
    match error {
        ConfigError::SplitNameNotText => String::from_str(
            "Unable to convert 'split_name' into '&str'.",
        ),
        ConfigError::SplitNameMissing => String::from_str(
            "Unable to get value for option name: 'split_name'.",
        ),
        ConfigError::SplitStartNotInteger => String::from_str(
            "Unable to convert 'split_start' into 'u64'.",
        ),
        ConfigError::SplitStartMissing => String::from_str(
            "Unable to get value for option name: 'split_start'.",
        ),
        ConfigError::SplitEndNotInteger => String::from_str(
            "Unable to convert 'split_end' into 'u64'.",
        ),
        ConfigError::SplitEndMissing => String::from_str(
            "Unable to get value for option name: 'split_end'.",
        ),
        ConfigError::UnrecognizedOption => String::from_str("Unrecognized option name."),
        ConfigError::UnrecognizedSplitName => {
            let mut text = String::from_str("Unrecognized split name: '");
            text.append(split_name);
            text.append("'.");
            text
        },
    }
}

/// The range of paces that a command asks roles for.
#[derive(Clone, Debug, PartialEq, Eq)]
pub struct RoleRange {
    pub split_name: String,
    pub split_start: u64,
    pub split_end: u64,
}

/// A range as plain values: split name, first minute, last minute.
pub type RangeView = (Seq<char>, u64, u64);

/// The range after `option` was read into `range`, or the reason why the
/// option is turned down.
pub open spec fn option_read(range: RangeView, option: CommandOption) -> Result<
    RangeView,
    ConfigError,
> {
    if option.name@ == "split_name"@ {
        match option.value {
            Some(OptionValue::Text(text)) => Ok((text@, range.1, range.2)),
            Some(_) => Err(ConfigError::SplitNameNotText),
            None => Err(ConfigError::SplitNameMissing),
        }
    } else if option.name@ == "split_start"@ {
        match option.value {
            Some(OptionValue::Integer(minutes)) => Ok((range.0, minutes, range.2)),
            Some(_) => Err(ConfigError::SplitStartNotInteger),
            None => Err(ConfigError::SplitStartMissing),
        }
    } else if option.name@ == "split_end"@ {
        match option.value {
            Some(OptionValue::Integer(minutes)) => Ok((range.0, range.1, minutes)),
            Some(_) => Err(ConfigError::SplitEndNotInteger),
            None => Err(ConfigError::SplitEndMissing),
        }
    } else {
        Err(ConfigError::UnrecognizedOption)
    }
}

/// The range that `options` give when read in order, starting from the
/// empty name and zero minutes, or the first reason why one of them is
/// turned down.
pub open spec fn options_read(options: Seq<CommandOption>) -> Result<RangeView, ConfigError>
    decreases options.len(),
{
    if options.len() == 0 {
        Ok((Seq::<char>::empty(), 0u64, 0u64))
    } else {
        match options_read(options.drop_last()) {
            Ok(range) => option_read(range, options.last()),
            Err(error) => Err(error),
        }
    }
}

/// What to do to set roles up: the roles to create, their colour, and the
/// reply to the command.
#[derive(Clone, Debug, PartialEq, Eq)]
pub struct RolePlan {
    pub names: Vec<String>,
    pub colour: u32,
    pub reply: String,
}

/// The colour of a pace role, as one number.
pub open spec fn role_colour_value() -> u32 {
    0x36393f
}

/// The reply to a command that set the roles of a range up.
pub open spec fn setup_reply_text(range: RangeView) -> Seq<char> {
    "Pace-roles for split name: "@ + range.0 + " with lower bound: "@ + decimal(range.1 as nat)
        + " and upper bound: "@ + decimal(range.2 as nat) + " have been setup!"@
}

/// `Colour::from_rgb` of serenity, and the number inside the `Colour` it
/// gives: the three channels packed into one number, red in the highest of
/// the three bytes and blue in the lowest.
#[verifier::external_body]
fn colour_from_rgb(red: u8, green: u8, blue: u8) -> (value: u32)
    ensures
        value == (red as u32) << 16 | (green as u32) << 8 | (blue as u32),
{
    Colour::from_rgb(red, green, blue).0
}

/// The colour of a pace role.
pub fn role_colour() -> (value: u32)
    ensures
        value == role_colour_value(),
{
    let value = colour_from_rgb(54, 57, 63);
    assert((54u32 << 16 | 57u32 << 8 | 63u32) == 0x36393fu32) by (bit_vector);
    value
}

/// The role prefix of a split named in a command.
pub fn role_prefix(split_name: &str) -> (prefix: Option<&'static str>)
    ensures
        match prefix {
            Some(text) => prefix_of(split_name@) == Some(text@),
            None => prefix_of(split_name@) is None,
        },
{
    if str_eq(split_name, "first_structure") {
        Some("FS")
    } else if str_eq(split_name, "second_structure") {
        Some("SS")
    } else if str_eq(split_name, "blind") {
        Some("B")
    } else if str_eq(split_name, "eye_spy") {
        Some("ES")
    } else if str_eq(split_name, "end_enter") {
        Some("EE")
    } else {
        None
    }
}

/// Builds the name of a pace role.
pub fn role_name(prefix: &str, minutes: u64, tens: u64) -> (name: String)
    ensures
        name@ == role_name_text(prefix@, minutes as nat, tens as nat),
{
    let mut name = String::from_str("*");
    name.append(prefix);
    push_decimal(&mut name, minutes);
    name.append(":");
    push_decimal(&mut name, tens);
    assert(name@ =~= role_name_text(prefix@, minutes as nat, tens as nat));
    name
}

/// Whether `name` is among `existing`.
pub fn contains_name(existing: &Vec<String>, name: &str) -> (found: bool)
    ensures
        found == texts(existing@).contains(name@),
{
    let mut i: usize = 0;
    while i < existing.len()
        invariant
            i <= existing@.len(),
            forall|j: int| 0 <= j < i ==> texts(existing@)[j] != name@,
        decreases existing@.len() - i,
    {
        if str_eq(existing[i].as_str(), name) {
            assert(texts(existing@)[i as int] == name@);
            return true;
        }
        i += 1;
    }
    false
}

fn plan_names(prefix: &str, start: u64, end: u64) -> (names: Vec<String>)
    ensures
        texts(names@) == planned_names(prefix@, start as nat, end as nat),
{
    let mut names: Vec<String> = Vec::new();
    let mut minutes = start;
    assert(texts(names@) =~= paired_names(prefix@, start as nat, minutes as nat));
    while minutes < end
        invariant
            start <= minutes,
            start <= end ==> minutes <= end,
            end < start ==> minutes == start,
            texts(names@) == paired_names(prefix@, start as nat, minutes as nat),
        decreases end - minutes,
    {
        let ghost before = names@;
        let full = role_name(prefix, minutes, 0);
        let half = role_name(prefix, minutes, 3);
        names.push(full);
        names.push(half);
        minutes += 1;
        assert(texts(names@) =~= texts(before).push(full@).push(half@));
    }
    let ghost before = names@;
    let last = role_name(prefix, end, 0);
    names.push(last);
    assert(texts(names@) =~= texts(before).push(last@));
    proof {
        if end < start {
            assert(paired_names(prefix@, start as nat, start as nat) =~= Seq::<Seq<char>>::empty());
            assert(paired_names(prefix@, start as nat, end as nat) =~= Seq::<Seq<char>>::empty());
        }
    }
    names
}

fn keep_missing(wanted: Vec<String>, existing: &Vec<String>) -> (missing: Vec<String>)
    ensures
        texts(missing@) == missing_names(texts(wanted@), texts(existing@)),
{
    let ghost absent = |name: Seq<char>| !texts(existing@).contains(name);
    let mut missing: Vec<String> = Vec::new();
    let mut i: usize = 0;
    proof {
        reveal(Seq::filter);
        assert(texts(wanted@).subrange(0, 0).filter(absent) =~= texts(missing@));
    }
    while i < wanted.len()
        invariant
            i <= wanted@.len(),
            absent == |name: Seq<char>| !texts(existing@).contains(name),
            texts(missing@) == texts(wanted@).subrange(0, i as int).filter(absent),
        decreases wanted@.len() - i,
    {
        let ghost before = missing@;
        let there = contains_name(existing, wanted[i].as_str());
        proof {
            reveal(Seq::filter);
            let next = texts(wanted@).subrange(0, i + 1);
            assert(next.drop_last() =~= texts(wanted@).subrange(0, i as int));
            assert(next.last() == wanted@[i as int]@);
        }
        if !there {
            let name = wanted[i].clone();
            missing.push(name);
            assert(texts(missing@) =~= texts(before).push(wanted@[i as int]@));
        }
        i += 1;
    }
    assert(texts(wanted@).subrange(0, i as int) =~= texts(wanted@));
    missing
}

/// The names of the default pace roles.
pub open spec fn default_names() -> Seq<Seq<char>> {
    seq![
        "*FS2:0"@,
        "*FS2:3"@,
        "*FS3:0"@,
        "*SS6:0"@,
        "*SS5:3"@,
        "*SS5:0"@,
        "*SS4:3"@,
        "*B8:0"@,
        "*B7:3"@,
        "*B7:0"@,
        "*B6:3"@,
        "*B6:0"@,
        "*B5:3"@,
        "*E9:3"@,
        "*E9:0"@,
        "*E8:3"@,
        "*E8:0"@,
        "*EE8:3"@,
        "*EE9:0"@,
        "*EE9:3"@,
        "*EE10:0"@,
    ]
}

fn default_role_names() -> (names: Vec<String>)
    ensures
        texts(names@) == default_names(),
{
    let mut names: Vec<String> = Vec::new();
    names.push(String::from_str("*FS2:0"));
    names.push(String::from_str("*FS2:3"));
    names.push(String::from_str("*FS3:0"));
    names.push(String::from_str("*SS6:0"));
    names.push(String::from_str("*SS5:3"));
    names.push(String::from_str("*SS5:0"));
    names.push(String::from_str("*SS4:3"));
    names.push(String::from_str("*B8:0"));
    names.push(String::from_str("*B7:3"));
    names.push(String::from_str("*B7:0"));
    names.push(String::from_str("*B6:3"));
    names.push(String::from_str("*B6:0"));
    names.push(String::from_str("*B5:3"));
    names.push(String::from_str("*E9:3"));
    names.push(String::from_str("*E9:0"));
    names.push(String::from_str("*E8:3"));
    names.push(String::from_str("*E8:0"));
    names.push(String::from_str("*EE8:3"));
    names.push(String::from_str("*EE9:0"));
    names.push(String::from_str("*EE9:3"));
    names.push(String::from_str("*EE10:0"));
    assert(texts(names@) =~= default_names());
    names
}

/// Plans the default pace roles of a guild that has the roles named
/// `existing`: those of the default names that the guild lacks are to be
/// created.
pub fn setup_default_roles(existing: &Vec<String>) -> (plan: RolePlan)
    ensures
        texts(plan.names@) == missing_names(default_names(), texts(existing@)),
        plan.colour == role_colour_value(),
        plan.reply@ == "Default pace-roles have been setup!"@,
{
    let names = keep_missing(default_role_names(), existing);
    RolePlan {
        names,
        colour: role_colour(),
        reply: String::from_str("Default pace-roles have been setup!"),
    }
}

/// Reads the options of a command to set roles up, in order.
pub fn read_options(options: &Vec<CommandOption>) -> (range: Result<RoleRange, ConfigError>)
    ensures
        match range {
            Ok(read) => options_read(options@) == Ok::<RangeView, ConfigError>(
                (read.split_name@, read.split_start, read.split_end),
            ),
            Err(error) => options_read(options@) == Err::<RangeView, ConfigError>(error),
        },
{
    let mut split_name = String::new();
    let mut split_start: u64 = 0;
    let mut split_end: u64 = 0;
    let mut i: usize = 0;
    assert(options@.subrange(0, 0) =~= Seq::<CommandOption>::empty());
    while i < options.len()
        invariant
            i <= options@.len(),
            options_read(options@.subrange(0, i as int)) == Ok::<RangeView, ConfigError>(
                (split_name@, split_start, split_end),
            ),
        decreases options@.len() - i,
    {
        let option = &options[i];
        proof {
            let next = options@.subrange(0, i + 1);
            assert(next.drop_last() =~= options@.subrange(0, i as int));
            assert(next.last() == *option);
            if options_read(next) is Err {
                lemma_error_stays(options@, i + 1);
            }
        }
        if str_eq(option.name.as_str(), "split_name") {
            match &option.value {
                Some(OptionValue::Text(text)) => {
                    split_name = text.clone();
                },
                Some(_) => {
                    return Err(ConfigError::SplitNameNotText);
                },
                None => {
                    return Err(ConfigError::SplitNameMissing);
                },
            }
        } else if str_eq(option.name.as_str(), "split_start") {
            match &option.value {
                Some(OptionValue::Integer(minutes)) => {
                    split_start = *minutes;
                },
                Some(_) => {
                    return Err(ConfigError::SplitStartNotInteger);
                },
                None => {
                    return Err(ConfigError::SplitStartMissing);
                },
            }
        } else if str_eq(option.name.as_str(), "split_end") {
            match &option.value {
                Some(OptionValue::Integer(minutes)) => {
                    split_end = *minutes;
                },
                Some(_) => {
                    return Err(ConfigError::SplitEndNotInteger);
                },
                None => {
                    return Err(ConfigError::SplitEndMissing);
                },
            }
        } else {
            return Err(ConfigError::UnrecognizedOption);
        }
        i += 1;
    }
    assert(options@.subrange(0, i as int) =~= options@);
    Ok(RoleRange { split_name, split_start, split_end })
}

/// Once an option was turned down, the options after it are not read.
pub proof fn lemma_error_stays(options: Seq<CommandOption>, upto: int)
    requires
        0 <= upto <= options.len(),
        options_read(options.subrange(0, upto)) is Err,
    ensures
        options_read(options) == options_read(options.subrange(0, upto)),
    decreases options.len() - upto,
{
    if upto < options.len() {
        let next = options.subrange(0, upto + 1);
        assert(next.drop_last() =~= options.subrange(0, upto));
        lemma_error_stays(options, upto + 1);
    } else {
        assert(options.subrange(0, upto) =~= options);
    }
}

/// Plans the pace roles that a command asks for, in a guild that has the
/// roles named `existing`: the command's options give a split and a range
/// of minutes, and those of the range's role names that the guild lacks are
/// to be created.
pub fn setup_roles(options: &Vec<CommandOption>, existing: &Vec<String>) -> (plan: Result<
    RolePlan,
    ConfigError,
>)
    ensures
        match plan {
            Ok(plan) => {
                &&& options_read(options@) is Ok
                &&& prefix_of(options_read(options@)->Ok_0.0) is Some
                &&& texts(plan.names@) == missing_names(
                    planned_names(
                        prefix_of(options_read(options@)->Ok_0.0)->0,
                        options_read(options@)->Ok_0.1 as nat,
                        options_read(options@)->Ok_0.2 as nat,
                    ),
                    texts(existing@),
                )
                &&& plan.colour == role_colour_value()
                &&& plan.reply@ == setup_reply_text(options_read(options@)->Ok_0)
            },
            Err(ConfigError::UnrecognizedSplitName) => {
                &&& options_read(options@) is Ok
                &&& prefix_of(options_read(options@)->Ok_0.0) is None
            },
            Err(error) => options_read(options@) == Err::<RangeView, ConfigError>(error),
        },
{
    let range = match read_options(options) {
        Ok(range) => range,
        Err(error) => {
            proof {
                lemma_read_errors(options@);
            }
            return Err(error);
        },
    };
    let prefix = match role_prefix(range.split_name.as_str()) {
        Some(prefix) => prefix,
        None => {
            return Err(ConfigError::UnrecognizedSplitName);
        },
    };
    let names = keep_missing(plan_names(prefix, range.split_start, range.split_end), existing);
    let mut reply = String::from_str("Pace-roles for split name: ");
    reply.append(range.split_name.as_str());
    reply.append(" with lower bound: ");
    push_decimal(&mut reply, range.split_start);
    reply.append(" and upper bound: ");
    push_decimal(&mut reply, range.split_end);
    reply.append(" have been setup!");
    assert(reply@ =~= setup_reply_text((range.split_name@, range.split_start, range.split_end)));
    Ok(RolePlan { names, colour: role_colour(), reply })
}

/// Reading options never turns one down for its split's name: that is
/// found only after all of them were read.
pub proof fn lemma_read_errors(options: Seq<CommandOption>)
    ensures
        options_read(options) != Err::<RangeView, ConfigError>(ConfigError::UnrecognizedSplitName),
    decreases options.len(),
{
    if options.len() > 0 {
        lemma_read_errors(options.drop_last());
    }
}

/// The reply to a command that asked whether the guild's configuration is
/// valid, given the error found, if any.
pub open spec fn validation_text(error: Option<Seq<char>>) -> Seq<char> {
    match error {
        None => "Config validation successful! Bot will send paces in #pacemanbot."@,
        Some(text) => "Error: "@ + text,
    }
}

/// Builds the reply to a command that asked whether the guild's
/// configuration is valid: `outcome` is what loading the configuration
/// gave.
pub fn validate_config(outcome: &Result<(), String>) -> (reply: String)
    ensures
        reply@ == validation_text(
            match *outcome {
                Ok(_) => None,
                Err(text) => Some(text@),
            },
        ),
{
    match outcome {
        Ok(_) => String::from_str(
            "Config validation successful! Bot will send paces in #pacemanbot.",
        ),
        Err(text) => {
            let mut reply = String::from_str("Error: ");
            reply.append(text.as_str());
            reply
        },
    }
}

/// One choice of a select menu.
#[derive(Clone, Debug, PartialEq, Eq)]
pub struct MenuOption {
    pub label: String,
    pub value: String,
}

/// One row of the message from which members pick their roles.
#[derive(Clone, Debug, PartialEq, Eq)]
pub enum Row {
    /// A select menu with the roles of one split.
    Menu { split: Split, options: Vec<MenuOption> },
    /// The button that takes every pace role from the member.
    RemoveButton,
}

/// The message from which members pick their roles: its text and rows,
/// and whether the remove button follows in a message of its own.
#[derive(Clone, Debug, PartialEq, Eq)]
pub struct SelectionMessage {
    pub content: String,
    pub rows: Vec<Row>,
    pub remove_button_follows: bool,
}

/// A choice as plain values: label and value.
pub type OptionView = (Seq<char>, Seq<char>);

/// A row as plain values.
pub enum RowView {
    Menu { split: Split, options: Seq<OptionView> },
    RemoveButton,
}

/// The choices of a menu as plain values.
pub open spec fn option_views(options: Seq<MenuOption>) -> Seq<OptionView> {
    options.map_values(|option: MenuOption| (option.label@, option.value@))
}

impl View for Row {
    type V = RowView;

    open spec fn view(&self) -> RowView {
        match *self {
            Row::Menu { split, options } => RowView::Menu { split, options: option_views(options@) },
            Row::RemoveButton => RowView::RemoveButton,
        }
    }
}

/// The rows of a message as plain values.
pub open spec fn row_views(rows: Seq<Row>) -> Seq<RowView> {
    rows.map_values(|row: Row| row@)
}

/// What a menu calls its split.
pub open spec fn menu_title(split: Split) -> Seq<char> {
    match split {
        Split::FirstStructure => "Structure 1"@,
        Split::SecondStructure => "Structure 2"@,
        Split::Blind => "Blind"@,
        Split::EyeSpy => "Eye Spy"@,
        Split::EndEnter => "End Enter"@,
        Split::Finish => "Finish"@,
    }
}

/// The choice that stands for `role`: the pace it asks for, and its id.
pub open spec fn option_of(role: RoleDef) -> OptionView {
    (
        "Sub "@ + decimal(role.threshold_minutes as nat) + ":"@ + two_digits(role.threshold_seconds as nat) + " "@
            + menu_title(role.split),
        decimal(role.role_id as nat),
    )
}

/// Whether `role` is offered in the menu of `split`: it is for that split
/// and has a threshold of its own.
pub open spec fn offered(role: RoleDef, split: Split) -> bool {
    role.split == split && !role.is_personal_best_role
}

/// The choices of the menu of `split`: one for each role offered there, in
/// the order of `roles`.
pub open spec fn menu_of(roles: Seq<RoleDef>, split: Split) -> Seq<OptionView> {
    roles.filter(|role: RoleDef| offered(role, split)).map_values(|role: RoleDef| option_of(role))
}

/// The menu row of `split`.
pub open spec fn menu_row(roles: Seq<RoleDef>, split: Split) -> RowView {
    RowView::Menu { split, options: menu_of(roles, split) }
}

/// Whether some role is offered for the first structure split.
pub open spec fn has_first_structure_role(roles: Seq<RoleDef>) -> bool {
    exists|i: int| 0 <= i < roles.len() && offered(#[trigger] roles[i], Split::FirstStructure)
}

/// The rows of the message: with a role for the first structure split,
/// the five menus; without one, the four other menus and the remove button.
pub open spec fn selection_rows(roles: Seq<RoleDef>) -> Seq<RowView> {
    if has_first_structure_role(roles) {
        seq![
            menu_row(roles, Split::FirstStructure),
            menu_row(roles, Split::SecondStructure),
            menu_row(roles, Split::Blind),
            menu_row(roles, Split::EyeSpy),
            menu_row(roles, Split::EndEnter),
        ]
    } else {
        seq![
            menu_row(roles, Split::SecondStructure),
            menu_row(roles, Split::Blind),
            menu_row(roles, Split::EyeSpy),
            menu_row(roles, Split::EndEnter),
            RowView::RemoveButton,
        ]
    }
}

/// The id by which the menu of a split is known.
pub open spec fn menu_id_text(split: Split) -> Seq<char> {
    match split {
        Split::FirstStructure => "select_structure1_role"@,
        Split::SecondStructure => "select_structure2_role"@,
        Split::Blind => "select_blind_role"@,
        Split::EyeSpy => "select_eye_spy_role"@,
        Split::EndEnter => "select_end_enter_role"@,
        Split::Finish => "select_finish_role"@,
    }
}

/// What the menu of a split shows while nothing is chosen.
pub open spec fn menu_placeholder_text(split: Split) -> Seq<char> {
    match split {
        Split::FirstStructure => "Choose a First Structure Role..."@,
        Split::SecondStructure => "Choose a Second Structure Role..."@,
        Split::Blind => "Choose a Blind Role..."@,
        Split::EyeSpy => "Choose an Eye Spy Role..."@,
        Split::EndEnter => "Choose an End Enter Role..."@,
        Split::Finish => "Choose a Finish Role..."@,
    }
}

/// What the menu of a split shows while nothing is chosen.
pub fn menu_placeholder(split: Split) -> (text: &'static str)
    ensures
        text@ == menu_placeholder_text(split),
{
    match split {
        Split::FirstStructure => "Choose a First Structure Role...",
        Split::SecondStructure => "Choose a Second Structure Role...",
        Split::Blind => "Choose a Blind Role...",
        Split::EyeSpy => "Choose an Eye Spy Role...",
        Split::EndEnter => "Choose an End Enter Role...",
        Split::Finish => "Choose a Finish Role...",
    }
}

/// The id by which the menu of a split is known.
pub fn menu_custom_id(split: Split) -> (id: &'static str)
    ensures
        id@ == menu_id_text(split),
{
    match split {
        Split::FirstStructure => "select_structure1_role",
        Split::SecondStructure => "select_structure2_role",
        Split::Blind => "select_blind_role",
        Split::EyeSpy => "select_eye_spy_role",
        Split::EndEnter => "select_end_enter_role",
        Split::Finish => "select_finish_role",
    }
}

fn menu_title_of(split: Split) -> (title: &'static str)
    ensures
        title@ == menu_title(split),
{
    match split {
        Split::FirstStructure => "Structure 1",
        Split::SecondStructure => "Structure 2",
        Split::Blind => "Blind",
        Split::EyeSpy => "Eye Spy",
        Split::EndEnter => "End Enter",
        Split::Finish => "Finish",
    }
}

/// Builds the choice that stands for `role`.
pub fn menu_option(role: &RoleDef) -> (option: MenuOption)
    ensures
        (option.label@, option.value@) == option_of(*role),
{
    let mut label = String::from_str("Sub ");
    push_decimal(&mut label, role.threshold_minutes as u64);
    label.append(":");
    push_two_digits(&mut label, role.threshold_seconds as u64);
    label.append(" ");
    label.append(menu_title_of(role.split));
    assert(label@ =~= option_of(*role).0);
    let mut value = String::new();
    push_decimal(&mut value, role.role_id);
    assert(value@ =~= option_of(*role).1);
    MenuOption { label, value }
}

/// Builds the choices of the menu of `split`.
pub fn menu_options(roles: &Vec<RoleDef>, split: Split) -> (options: Vec<MenuOption>)
    ensures
        option_views(options@) == menu_of(roles@, split),
{
    let ghost wanted = |role: RoleDef| offered(role, split);
    let ghost shown = |role: RoleDef| option_of(role);
    let mut options: Vec<MenuOption> = Vec::new();
    let mut i: usize = 0;
    proof {
        reveal(Seq::filter);
        assert(option_views(options@) =~= roles@.subrange(0, 0).filter(wanted).map_values(shown));
    }
    while i < roles.len()
        invariant
            i <= roles@.len(),
            wanted == |role: RoleDef| offered(role, split),
            shown == |role: RoleDef| option_of(role),
            option_views(options@) == roles@.subrange(0, i as int).filter(wanted).map_values(shown),
        decreases roles@.len() - i,
    {
        let ghost before = options@;
        proof {
            reveal(Seq::filter);
            let next = roles@.subrange(0, i + 1);
            assert(next.drop_last() =~= roles@.subrange(0, i as int));
            assert(next.last() == roles@[i as int]);
        }
        if roles[i].split == split && !roles[i].is_personal_best_role {
            let option = menu_option(&roles[i]);
            options.push(option);
            assert(option_views(options@) =~= option_views(before).push(option_of(roles@[i as int])));
            assert(roles@.subrange(0, i + 1).filter(wanted).map_values(shown) =~= roles@.subrange(
                0,
                i as int,
            ).filter(wanted).map_values(shown).push(option_of(roles@[i as int])));
        }
        i += 1;
    }
    assert(roles@.subrange(0, i as int) =~= roles@);
    options
}

fn any_first_structure(roles: &Vec<RoleDef>) -> (found: bool)
    ensures
        found == has_first_structure_role(roles@),
{
    let mut i: usize = 0;
    while i < roles.len()
        invariant
            i <= roles@.len(),
            forall|j: int| 0 <= j < i ==> !offered(#[trigger] roles@[j], Split::FirstStructure),
        decreases roles@.len() - i,
    {
        if roles[i].split == Split::FirstStructure && !roles[i].is_personal_best_role {
            return true;
        }
        i += 1;
    }
    false
}

fn menu(roles: &Vec<RoleDef>, split: Split) -> (row: Row)
    ensures
        row@ == menu_row(roles@, split),
{
    Row::Menu { split, options: menu_options(roles, split) }
}

/// Plans the message from which members pick their roles, for a guild with
/// the subscriber roles `roles`.
///
/// A message holds five rows. Where a role for the first structure split
/// takes the first of them, the remove button follows in a message of its
/// own.
pub fn send_role_selection_message(roles: &Vec<RoleDef>) -> (message: SelectionMessage)
    ensures
        message.content@ == "Select roles based on the splits and paces you wish to follow."@,
        row_views(message.rows@) == selection_rows(roles@),
        message.remove_button_follows == has_first_structure_role(roles@),
{
    let with_first = any_first_structure(roles);
    let mut rows: Vec<Row> = Vec::new();
    if with_first {
        rows.push(menu(roles, Split::FirstStructure));
    }
    rows.push(menu(roles, Split::SecondStructure));
    rows.push(menu(roles, Split::Blind));
    rows.push(menu(roles, Split::EyeSpy));
    rows.push(menu(roles, Split::EndEnter));
    if !with_first {
        rows.push(Row::RemoveButton);
    }
    assert(row_views(rows@) =~= selection_rows(roles@));
    SelectionMessage {
        content: String::from_str("Select roles based on the splits and paces you wish to follow."),
        rows,
        remove_button_follows: with_first,
    }
}

} // verus!
