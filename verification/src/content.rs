//! The text of a notification, and its correction after a reset.

use vstd::prelude::*;
use vstd::string::*;
use serenity::model::id::RoleId;
use serenity::model::mention::Mentionable;
use crate::guild::RoleDef;
use crate::split::{description_text, Split, StructureLabel};
use crate::text::{clock_text, decimal, format_time, push_decimal};

verus! {

/// The mention of the role with id `role_id`.
pub open spec fn mention_text(role_id: u64) -> Seq<char> {
    "<@&"@ + decimal(role_id as nat) + ">"@
}

/// `Mentionable::mention` of serenity on a `RoleId`, rendered by the
/// `Display` of the `Mention` it gives: `<@&`, the id in decimal, `>`.
#[verifier::external_body]
fn role_mention(role_id: u64) -> (text: String)
    ensures
        text@ == mention_text(role_id),
{
    RoleId(role_id).mention().to_string()
}

/// `str::split_once` of std with a character as the delimiter: the text
/// before the first occurrence of the delimiter and the text after it, or
/// `None` where the text does not hold the delimiter.
#[verifier::external_body]
fn split_once(text: &str, delimiter: char) -> (parts: Option<(&str, &str)>)
    ensures
        match parts {
            Some((head, tail)) => !head@.contains(delimiter) && text@ == head@ + seq![delimiter]
                + tail@,
            None => !text@.contains(delimiter),
        },
{
    text.split_once(delimiter)
}

/// The header line: the time, the split's description, and the bastionless
/// marker where it applies.
pub open spec fn header_text(
    igt_millis: nat,
    split: Split,
    label: StructureLabel,
    bastionless: bool,
) -> Seq<char> {
    "## "@ + clock_text(igt_millis) + " - "@ + description_text(split, label) + if bastionless {
        " (Bastionless)"@
    } else {
        Seq::<char>::empty()
    }
}

/// The link to the runner's stream, or the offline label.
pub open spec fn link_text(nickname: Seq<char>, live_account: Option<Seq<char>>) -> Seq<char> {
    match live_account {
        Some(account) => "["@ + nickname + "](<https://twitch.tv/"@ + account + ">)"@,
        None => "Offline - "@ + nickname,
    }
}

/// The relative timestamp of a moment given in epoch milliseconds.
pub open spec fn stamp_text(last_updated: nat) -> Seq<char> {
    "<t:"@ + decimal(last_updated / 1000) + ":R>"@
}

/// The mentions of `roles`, in order, with one space between two of them.
pub open spec fn mentions_text(roles: Seq<RoleDef>) -> Seq<char>
    decreases roles.len(),
{
    if roles.len() == 0 {
        Seq::<char>::empty()
    } else if roles.len() == 1 {
        mention_text(roles[0].role_id)
    } else {
        mentions_text(roles.drop_last()) + " "@ + mention_text(roles.last().role_id)
    }
}

/// The whole notification: header line, link and timestamp line, mention
/// line.
pub open spec fn content_text(
    igt_millis: nat,
    split: Split,
    label: StructureLabel,
    bastionless: bool,
    nickname: Seq<char>,
    live_account: Option<Seq<char>>,
    last_updated: nat,
    roles: Seq<RoleDef>,
) -> Seq<char> {
    header_text(igt_millis, split, label, bastionless) + "\n"@ + link_text(nickname, live_account)
        + "\t"@ + stamp_text(last_updated) + "\n"@ + mentions_text(roles)
}

/// The view of an optional string.
pub open spec fn account_view(account: Option<String>) -> Option<Seq<char>> {
    match account {
        Some(name) => Some(name@),
        None => None,
    }
}

/// Builds the header line.
pub fn header(igt_millis: u64, split: Split, label: StructureLabel, bastionless: bool) -> (text:
    String)
    ensures
        text@ == header_text(igt_millis as nat, split, label, bastionless),
{
    let mut text = String::from_str("## ");
    let clock = format_time(igt_millis);
    text.append(clock.as_str());
    text.append(" - ");
    text.append(split.desc(label));
    if bastionless {
        text.append(" (Bastionless)");
    }
    assert(text@ =~= header_text(igt_millis as nat, split, label, bastionless));
    text
}

/// Builds the link to the runner's stream, or the offline label.
pub fn live_link(nickname: &str, live_account: &Option<String>) -> (text: String)
    ensures
        text@ == link_text(nickname@, account_view(*live_account)),
{
    match live_account {
        Some(account) => {
            let mut text = String::from_str("[");
            text.append(nickname);
            text.append("](<https://twitch.tv/");
            text.append(account.as_str());
            text.append(">)");
            assert(text@ =~= link_text(nickname@, account_view(*live_account)));
            text
        },
        None => {
            let mut text = String::from_str("Offline - ");
            text.append(nickname);
            text
        },
    }
}

/// Builds the mention line.
pub fn mentions(roles: &Vec<RoleDef>) -> (text: String)
    ensures
        text@ == mentions_text(roles@),
{
    let mut text = String::new();
    let mut i: usize = 0;
    while i < roles.len()
        invariant
            i <= roles@.len(),
            text@ == mentions_text(roles@.subrange(0, i as int)),
        decreases roles@.len() - i,
    {
        if i > 0 {
            text.append(" ");
        }
        let mention = role_mention(roles[i].role_id);
        text.append(mention.as_str());
        proof {
            let next = roles@.subrange(0, i + 1);
            assert(next.drop_last() =~= roles@.subrange(0, i as int));
            assert(next.last() == roles@[i as int]);
            assert(text@ =~= mentions_text(next));
        }
        i += 1;
    }
    assert(roles@.subrange(0, i as int) =~= roles@);
    text
}

/// Builds the whole notification.
pub fn notification_content(
    igt_millis: u64,
    split: Split,
    label: StructureLabel,
    bastionless: bool,
    nickname: &str,
    live_account: &Option<String>,
    last_updated: u64,
    roles: &Vec<RoleDef>,
) -> (text: String)
    ensures
        text@ == content_text(
            igt_millis as nat,
            split,
            label,
            bastionless,
            nickname@,
            account_view(*live_account),
            last_updated as nat,
            roles@,
        ),
{
    let mut text = header(igt_millis, split, label, bastionless);
    text.append("\n");
    let link = live_link(nickname, live_account);
    text.append(link.as_str());
    text.append("\t");
    text.append("<t:");
    push_decimal(&mut text, last_updated / 1000);
    text.append(":R>");
    text.append("\n");
    let line = mentions(roles);
    text.append(line.as_str());
    assert(text@ =~= content_text(
        igt_millis as nat,
        split,
        label,
        bastionless,
        nickname@,
        account_view(*live_account),
        last_updated as nat,
        roles@,
    ));
    text
}

/// Whether the first line of `text` ends at `at`: no line feed before it,
/// and a line feed or the end of the text there.
pub open spec fn first_line_ends(text: Seq<char>, at: int) -> bool {
    &&& 0 <= at <= text.len()
    &&& forall|j: int| 0 <= j < at ==> text[j] != '\n'
    &&& at < text.len() ==> text[at] == '\n'
}

/// The length of the first line of `text`.
pub open spec fn first_line_len(text: Seq<char>) -> int {
    choose|at: int| first_line_ends(text, at)
}

/// `text` with the reset marker put at the end of its first line.
pub open spec fn reset_text(text: Seq<char>) -> Seq<char> {
    text.subrange(0, first_line_len(text)) + " (Reset)"@ + text.subrange(
        first_line_len(text),
        text.len() as int,
    )
}

/// The first line of a text ends at one place only, so any place at which
/// it ends is its length.
pub proof fn lemma_first_line_len(text: Seq<char>, at: int)
    requires
        first_line_ends(text, at),
    ensures
        first_line_len(text) == at,
{
    let chosen = first_line_len(text);
    assert(first_line_ends(text, chosen));
    if chosen < at {
        assert(text[chosen] != '\n');
    }
    if at < chosen {
        assert(text[at] != '\n');
    }
}

/// A reset changes the first line only: it gains the marker at its end, and
/// what follows it stays as it was, character for character.
pub proof fn lemma_reset_keeps_other_lines(head: Seq<char>, tail: Seq<char>)
    requires
        !head.contains('\n'),
    ensures
        reset_text(head) == head + " (Reset)"@,
        reset_text(head + seq!['\n'] + tail) == head + " (Reset)"@ + seq!['\n'] + tail,
{
    assert forall|j: int| 0 <= j < head.len() implies head[j] != '\n' by {
        if head[j] == '\n' {
            assert(head.contains('\n'));
        }
    }
    lemma_first_line_len(head, head.len() as int);
    assert(reset_text(head) =~= head + " (Reset)"@);
    let whole = head + seq!['\n'] + tail;
    assert(whole[head.len() as int] == '\n');
    lemma_first_line_len(whole, head.len() as int);
    assert(whole.subrange(0, head.len() as int) =~= head);
    assert(whole.subrange(head.len() as int, whole.len() as int) =~= seq!['\n'] + tail);
    assert(reset_text(whole) =~= head + " (Reset)"@ + seq!['\n'] + tail);
}

/// Marks a notification as reset: the marker goes to the end of its first
/// line, and every other line stays as it is.
pub fn reset_edit(content: &str) -> (text: String)
    ensures
        text@ == reset_text(content@),
{
    match split_once(content, '\n') {
        Some((head, tail)) => {
            let mut text = String::from_str(head);
            text.append(" (Reset)");
            text.append("\n");
            text.append(tail);
            proof {
                reveal_strlit("\n");
                assert("\n"@ =~= seq!['\n']);
                lemma_reset_keeps_other_lines(head@, tail@);
                assert(text@ =~= head@ + " (Reset)"@ + seq!['\n'] + tail@);
            }
            text
        },
        None => {
            let mut text = String::from_str(content);
            text.append(" (Reset)");
            proof {
                lemma_reset_keeps_other_lines(content@, Seq::<char>::empty());
            }
            text
        },
    }
}

} // verus!
