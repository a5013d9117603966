//! The names of subscriber roles: `*`, the code of a split, and either a
//! pace as minutes, a colon and the tens of seconds, or `PB`.

use vstd::prelude::*;
use vstd::string::*;
use crate::guild::RoleDef;
use crate::split::Split;

verus! {

/// What the name of a subscriber role says.
#[derive(Clone, Copy, Debug, PartialEq, Eq)]
pub enum RoleName {
    /// A role for paces under `minutes:seconds` at `split`.
    Pace { split: Split, minutes: u32, seconds: u32 },
    /// A role for paces ahead of the player's own best at `split`.
    PersonalBest { split: Split },
}

/// Whether `text` begins with `prefix`.
pub open spec fn starts_with(text: Seq<char>, prefix: Seq<char>) -> bool {
    prefix.len() <= text.len() && text.subrange(0, prefix.len() as int) == prefix
}

/// The value of a decimal digit.
pub open spec fn digit_value(c: char) -> Option<nat> {
    if c == '0' {
        Some(0)
    } else if c == '1' {
        Some(1)
    } else if c == '2' {
        Some(2)
    } else if c == '3' {
        Some(3)
    } else if c == '4' {
        Some(4)
    } else if c == '5' {
        Some(5)
    } else if c == '6' {
        Some(6)
    } else if c == '7' {
        Some(7)
    } else if c == '8' {
        Some(8)
    } else if c == '9' {
        Some(9)
    } else {
        None
    }
}

/// The number that `text` denotes in decimal digits, where it has at least
/// one digit, nothing but digits, and fits in 32 bits.
pub open spec fn number_of(text: Seq<char>) -> Option<nat>
    decreases text.len(),
{
    if text.len() == 0 {
        None
    } else if text.len() == 1 {
        digit_value(text[0])
    } else {
        match (number_of(text.drop_last()), digit_value(text.last())) {
            (Some(n), Some(d)) => if n * 10 + d <= u32::MAX {
                Some(n * 10 + d)
            } else {
                None
            },
            _ => None,
        }
    }
}

/// The split whose code `name` begins with, after the star, and the length
/// of star and code.
pub open spec fn code_of(name: Seq<char>) -> Option<(Split, int)> {
    if starts_with(name, seq!['*', 'F', 'S']) {
        Some((Split::FirstStructure, 3))
    } else if starts_with(name, seq!['*', 'S', 'S']) {
        Some((Split::SecondStructure, 3))
    } else if starts_with(name, seq!['*', 'E', 'E']) {
        Some((Split::EndEnter, 3))
    } else if starts_with(name, seq!['*', 'E', 'S']) {
        Some((Split::EyeSpy, 3))
    } else if starts_with(name, seq!['*', 'B']) {
        Some((Split::Blind, 2))
    } else if starts_with(name, seq!['*', 'E']) {
        Some((Split::EyeSpy, 2))
    } else {
        None
    }
}

/// What follows the code in a role's name: `PB`, or minutes, a colon and
/// the tens of seconds, which are none or three.
pub open spec fn pace_of(split: Split, rest: Seq<char>) -> Option<RoleName> {
    if rest == seq!['P', 'B'] {
        Some(RoleName::PersonalBest { split })
    } else if rest.len() >= 3 && rest[rest.len() - 2] == ':' && (rest.last() == '0' || rest.last()
        == '3') {
        match number_of(rest.subrange(0, rest.len() - 2)) {
            Some(minutes) => Some(
                RoleName::Pace {
                    split,
                    minutes: minutes as u32,
                    seconds: if rest.last() == '0' {
                        0
                    } else {
                        30
                    },
                },
            ),
            None => None,
        }
    } else {
        None
    }
}

/// What the role name `name` says, if it is the name of a subscriber role.
pub open spec fn role_named(name: Seq<char>) -> Option<RoleName> {
    match code_of(name) {
        Some((split, at)) => pace_of(split, name.subrange(at, name.len() as int)),
        None => None,
    }
}

/// The subscriber role with id `role_id` that `name` names.
pub open spec fn role_def_of(name: Seq<char>, role_id: u64) -> Option<RoleDef> {
    match role_named(name) {
        Some(RoleName::Pace { split, minutes, seconds }) => Some(
            RoleDef {
                role_id,
                split,
                threshold_minutes: minutes,
                threshold_seconds: seconds,
                is_personal_best_role: false,
            },
        ),
        Some(RoleName::PersonalBest { split }) => Some(
            RoleDef {
                role_id,
                split,
                threshold_minutes: 0,
                threshold_seconds: 0,
                is_personal_best_role: true,
            },
        ),
        None => None,
    }
}

fn chars_of(text: &str) -> (chars: Vec<char>)
    ensures
        chars@ == text@,
{
    let n = text.unicode_len();
    let mut chars: Vec<char> = Vec::new();
    let mut i: usize = 0;
    while i < n
        invariant
            i <= n,
            n == text@.len(),
            chars@ == text@.subrange(0, i as int),
        decreases n - i,
    {
        let c = text.get_char(i);
        chars.push(c);
        assert(chars@ =~= text@.subrange(0, i + 1));
        i += 1;
    }
    assert(text@.subrange(0, n as int) =~= text@);
    chars
}

fn begins(chars: &Vec<char>, prefix: &Vec<char>) -> (yes: bool)
    ensures
        yes == starts_with(chars@, prefix@),
{
    if prefix.len() > chars.len() {
        return false;
    }
    let mut i: usize = 0;
    while i < prefix.len()
        invariant
            i <= prefix@.len() <= chars@.len(),
            forall|j: int| 0 <= j < i ==> chars@[j] == prefix@[j],
        decreases prefix@.len() - i,
    {
        if chars[i] != prefix[i] {
            assert(chars@.subrange(0, prefix@.len() as int)[i as int] != prefix@[i as int]);
            return false;
        }
        i += 1;
    }
    assert(chars@.subrange(0, prefix@.len() as int) =~= prefix@);
    true
}

fn digit(c: char) -> (value: Option<u64>)
    ensures
        match value {
            Some(d) => digit_value(c) == Some(d as nat) && d < 10,
            None => digit_value(c) is None,
        },
{
    if c == '0' {
        Some(0)
    } else if c == '1' {
        Some(1)
    } else if c == '2' {
        Some(2)
    } else if c == '3' {
        Some(3)
    } else if c == '4' {
        Some(4)
    } else if c == '5' {
        Some(5)
    } else if c == '6' {
        Some(6)
    } else if c == '7' {
        Some(7)
    } else if c == '8' {
        Some(8)
    } else if c == '9' {
        Some(9)
    } else {
        None
    }
}

proof fn lemma_number_stays_none(text: Seq<char>, upto: int)
    requires
        0 < upto <= text.len(),
        number_of(text.subrange(0, upto)) is None,
    ensures
        number_of(text) is None,
    decreases text.len() - upto,
{
    if upto < text.len() {
        let next = text.subrange(0, upto + 1);
        assert(next.drop_last() =~= text.subrange(0, upto));
        lemma_number_stays_none(text, upto + 1);
    } else {
        assert(text.subrange(0, upto) =~= text);
    }
}

fn number(chars: &Vec<char>, from: usize, to: usize) -> (value: Option<u32>)
    requires
        from <= to <= chars@.len(),
    ensures
        match value {
            Some(n) => number_of(chars@.subrange(from as int, to as int)) == Some(n as nat),
            None => number_of(chars@.subrange(from as int, to as int)) is None,
        },
{
    let ghost text = chars@.subrange(from as int, to as int);
    if from == to {
        return None;
    }
    let mut value: u64 = 0;
    let mut i: usize = from;
    while i < to
        invariant
            from <= i <= to <= chars@.len(),
            from < to,
            text == chars@.subrange(from as int, to as int),
            value <= u32::MAX,
            i == from ==> value == 0,
            i > from ==> number_of(text.subrange(0, i - from)) == Some(value as nat),
        decreases to - i,
    {
        let ghost next = text.subrange(0, i + 1 - from);
        proof {
            assert(next.drop_last() =~= text.subrange(0, i - from));
            assert(next.last() == chars@[i as int]);
        }
        match digit(chars[i]) {
            Some(d) => {
                let grown = value * 10 + d;
                if grown > 0xffff_ffff {
                    proof {
                        lemma_number_stays_none(text, i + 1 - from);
                    }
                    return None;
                }
                value = grown;
            },
            None => {
                proof {
                    lemma_number_stays_none(text, i + 1 - from);
                }
                return None;
            },
        }
        i += 1;
    }
    assert(text.subrange(0, to - from) =~= text);
    Some(value as u32)
}

fn code(chars: &Vec<char>) -> (found: Option<(Split, usize)>)
    ensures
        match found {
            Some((split, at)) => code_of(chars@) == Some((split, at as int)) && 2 <= at
                <= chars@.len(),
            None => code_of(chars@) is None,
        },
{
    if begins(chars, &vec!['*', 'F', 'S']) {
        Some((Split::FirstStructure, 3))
    } else if begins(chars, &vec!['*', 'S', 'S']) {
        Some((Split::SecondStructure, 3))
    } else if begins(chars, &vec!['*', 'E', 'E']) {
        Some((Split::EndEnter, 3))
    } else if begins(chars, &vec!['*', 'E', 'S']) {
        Some((Split::EyeSpy, 3))
    } else if begins(chars, &vec!['*', 'B']) {
        Some((Split::Blind, 2))
    } else if begins(chars, &vec!['*', 'E']) {
        Some((Split::EyeSpy, 2))
    } else {
        None
    }
}

/// Reads the name of a role: `Some` exactly for the names of subscriber
/// roles.
pub fn parse_role_name(name: &str) -> (parsed: Option<RoleName>)
    ensures
        parsed == role_named(name@),
{
    let chars = chars_of(name);
    let (split, at) = match code(&chars) {
        Some(found) => found,
        None => {
            return None;
        },
    };
    let n = chars.len();
    let ghost rest = chars@.subrange(at as int, n as int);
    if n == at + 2 && chars[at] == 'P' && chars[at + 1] == 'B' {
        assert(rest =~= seq!['P', 'B']);
        return Some(RoleName::PersonalBest { split });
    }
    assert(rest != seq!['P', 'B']) by {
        if rest == seq!['P', 'B'] {
            assert(rest.len() == 2);
            assert(rest[0] == 'P' && rest[1] == 'B');
        }
    }
    if n < at + 3 || chars[n - 2] != ':' {
        return None;
    }
    let tens = chars[n - 1];
    if tens != '0' && tens != '3' {
        return None;
    }
    assert(rest.subrange(0, rest.len() - 2) =~= chars@.subrange(at as int, n - 2));
    match number(&chars, at, n - 2) {
        Some(minutes) => Some(
            RoleName::Pace {
                split,
                minutes,
                seconds: if tens == '0' {
                    0
                } else {
                    30
                },
            },
        ),
        None => None,
    }
}

/// The subscriber role that a guild's role with the given name and id is,
/// if it is one.
pub fn role_def(name: &str, role_id: u64) -> (role: Option<RoleDef>)
    ensures
        role == role_def_of(name@, role_id),
{
    match parse_role_name(name) {
        Some(RoleName::Pace { split, minutes, seconds }) => Some(
            RoleDef {
                role_id,
                split,
                threshold_minutes: minutes,
                threshold_seconds: seconds,
                is_personal_best_role: false,
            },
        ),
        Some(RoleName::PersonalBest { split }) => Some(
            RoleDef {
                role_id,
                split,
                threshold_minutes: 0,
                threshold_seconds: 0,
                is_personal_best_role: true,
            },
        ),
        None => None,
    }
}

} // verus!
