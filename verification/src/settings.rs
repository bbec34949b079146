//! Slash commands that change session settings, and cycling through the
//! fixed choices of a setting.
use vstd::prelude::*;

use crate::slash_command::{command_from_prompt, command_from_prompt_spec, SlashCommand};
use crate::text::{chars_of, next_token, owned, string_of, tokens};

verus! {

/// The reasoning efforts, in cycling order.
pub const EFFORTS: [&'static str; 3] = ["low", "medium", "high"];

/// The permission profiles, in cycling order.
pub const PERMISSION_PROFILES: [&'static str; 3] = [":read-only", ":workspace", ":danger-full-access"];

/// A settings change asked for by a slash command.
#[derive(Clone, Debug)]
pub enum SettingsCommand {
    ModelPicker,
    Plan,
    Model { model: String, provider: Option<String> },
    Effort(String),
    Permissions(String),
}

/// A settings command used without the value it needs, or with one it takes
/// none of.
#[derive(Clone, Copy, Debug, PartialEq, Eq, Structural)]
pub enum SettingsError {
    PlanUsage,
    EffortUsage,
    PermissionsUsage,
}

impl SettingsError {
    /// The usage line of the command.
    pub open spec fn message_text(self) -> Seq<char> {
        match self {
            SettingsError::PlanUsage => "usage: /plan"@,
            SettingsError::EffortUsage => "usage: /effort <low|medium|high>"@,
            SettingsError::PermissionsUsage => "usage: /permissions <profile>"@,
        }
    }

    /// The usage line of the command.
    pub fn message(&self) -> (r: &'static str)
        ensures
            r@ == self.message_text(),
    {
        match self {
            SettingsError::PlanUsage => "usage: /plan",
            SettingsError::EffortUsage => "usage: /effort <low|medium|high>",
            SettingsError::PermissionsUsage => "usage: /permissions <profile>",
        }
    }
}

/// Whether `r` is what a prompt asks of the settings: `None` unless the
/// prompt starts with `/model`, `/plan`, `/effort` or `/permissions`; the
/// second whitespace token is the value and the third the model's provider.
pub open spec fn settings_result(
    prompt: Seq<char>,
    r: Option<Result<SettingsCommand, SettingsError>>,
) -> bool {
    let t = tokens(prompt);
    match command_from_prompt_spec(prompt) {
        Some(SlashCommand::Model) => if t.len() < 2 {
            r == Some(Ok::<SettingsCommand, SettingsError>(SettingsCommand::ModelPicker))
        } else {
            match r {
                Some(Ok(SettingsCommand::Model { model, provider })) => {
                    &&& model@ == t[1]
                    &&& match provider {
                        Some(p) => t.len() > 2 && p@ == t[2],
                        None => t.len() <= 2,
                    }
                },
                _ => false,
            }
        },
        Some(SlashCommand::Plan) => if t.len() < 2 {
            r == Some(Ok::<SettingsCommand, SettingsError>(SettingsCommand::Plan))
        } else {
            r == Some(Err::<SettingsCommand, SettingsError>(SettingsError::PlanUsage))
        },
        Some(SlashCommand::Effort) => if t.len() < 2 {
            r == Some(Err::<SettingsCommand, SettingsError>(SettingsError::EffortUsage))
        } else {
            match r {
                Some(Ok(SettingsCommand::Effort(e))) => e@ == t[1],
                _ => false,
            }
        },
        Some(SlashCommand::Permissions) => if t.len() < 2 {
            r == Some(Err::<SettingsCommand, SettingsError>(SettingsError::PermissionsUsage))
        } else {
            match r {
                Some(Ok(SettingsCommand::Permissions(p))) => p@ == t[1],
                _ => false,
            }
        },
        _ => r is None,
    }
}

/// The settings change a prompt asks for (`/model grok-test grok` selects
/// that model of that provider); `None` for a prompt that is no settings
/// command.
pub fn parse_settings_command(prompt: &str) -> (r: Option<Result<SettingsCommand, SettingsError>>)
    ensures
        settings_result(prompt@, r),
{
    let command = match command_from_prompt(prompt) {
        Some(c) => c,
        None => return None,
    };
    let v = chars_of(prompt);
    assert(v@.skip(0) =~= v@);
    let ghost t = tokens(v@);
    let mut value: Option<String> = None;
    let mut provider: Option<String> = None;
    if let Some((_a, b)) = next_token(&v, 0) {
        if let Some((c, d)) = next_token(&v, b) {
            value = Some(string_of(&v, c, d));
            if let Some((e, f)) = next_token(&v, d) {
                provider = Some(string_of(&v, e, f));
                assert(t[2] == v@.subrange(e as int, f as int));
            } else {
                assert(t.len() == 2);
            }
            assert(t[1] == v@.subrange(c as int, d as int));
        } else {
            assert(t.len() == 1);
        }
    }
    proof {
        assert(value is None <==> t.len() < 2);
        assert(value matches Some(x) ==> x@ == t[1]);
        assert(provider is None <==> t.len() <= 2);
        assert(provider matches Some(x) ==> x@ == t[2]);
    }
    match command {
        SlashCommand::Model => match value {
            None => Some(Ok(SettingsCommand::ModelPicker)),
            Some(model) => Some(Ok(SettingsCommand::Model { model, provider })),
        },
        SlashCommand::Plan => Some(
            if value.is_some() {
                Err(SettingsError::PlanUsage)
            } else {
                Ok(SettingsCommand::Plan)
            },
        ),
        SlashCommand::Effort => match value {
            None => Some(Err(SettingsError::EffortUsage)),
            Some(effort) => Some(Ok(SettingsCommand::Effort(effort))),
        },
        SlashCommand::Permissions => match value {
            None => Some(Err(SettingsError::PermissionsUsage)),
            Some(permissions) => Some(Ok(SettingsCommand::Permissions(permissions))),
        },
        _ => None,
    }
}

/// The first position, from `from` on, of a choice equal to `v`.
pub open spec fn choice_position(values: Seq<&str>, v: Seq<char>, from: int) -> Option<int>
    decreases values.len() - from,
{
    if from < 0 || from >= values.len() {
        None
    } else if values[from]@ == v {
        Some(from)
    } else {
        choice_position(values, v, from + 1)
    }
}

/// The position of the current choice; the first choice when there is none
/// or it is not among the choices.
pub open spec fn current_position(values: Seq<&str>, current: Option<&str>) -> int {
    match current {
        Some(c) => match choice_position(values, c@, 0) {
            Some(i) => i,
            None => 0,
        },
        None => 0,
    }
}

/// The position one step from `i` among `len` choices, backwards for a
/// negative direction and forwards otherwise, wrapping around.
pub open spec fn step_position(len: int, i: int, direction: int) -> int {
    if direction < 0 {
        if i == 0 {
            len - 1
        } else {
            i - 1
        }
    } else {
        (i + 1) % len
    }
}

/// No two choices are equal.
pub open spec fn distinct_choices(values: Seq<&str>) -> bool {
    forall|i: int, j: int| 0 <= i < j < values.len() ==> values[i]@ != values[j]@
}

/// A position found by `choice_position` holds the value looked for.
pub proof fn lemma_choice_position_found(values: Seq<&str>, v: Seq<char>, from: int)
    ensures
        choice_position(values, v, from) matches Some(i) ==> from <= i < values.len()
            && values[i]@ == v,
    decreases values.len() - from,
{
    if 0 <= from < values.len() && values[from]@ != v {
        lemma_choice_position_found(values, v, from + 1);
    }
}

/// Among distinct choices, each choice is found at its own position.
pub proof fn lemma_choice_position_distinct(values: Seq<&str>, j: int, from: int)
    requires
        distinct_choices(values),
        0 <= from <= j < values.len(),
    ensures
        choice_position(values, values[j]@, from) == Some(j),
    decreases j - from,
{
    if from < j {
        assert(values[from]@ != values[j]@);
        lemma_choice_position_distinct(values, j, from + 1);
    }
}

/// Cycling one step and then one step the other way gives back the current
/// choice, when the choices are distinct and the current one is among them.
pub proof fn lemma_cycle_undone(values: Seq<&str>, current: &str, direction: int, next: &str)
    requires
        values.len() > 0,
        distinct_choices(values),
        choice_position(values, current@, 0) is Some,
        next@ == values[step_position(
            values.len() as int,
            current_position(values, Some(current)),
            direction,
        )]@,
    ensures
        values[step_position(
            values.len() as int,
            current_position(values, Some(next)),
            if direction < 0 { 1 } else { -1 },
        )]@ == current@,
{
    let n = values.len() as int;
    lemma_choice_position_found(values, current@, 0);
    let i = current_position(values, Some(current));
    let j = step_position(n, i, direction);
    assert(0 <= j < n) by {
        if direction >= 0 {
            vstd::arithmetic::div_mod::lemma_mod_bound(i + 1, n);
        }
    }
    lemma_choice_position_distinct(values, j, 0);
    assert(current_position(values, Some(next)) == j);
    if direction >= 0 {
        if i + 1 < n {
            vstd::arithmetic::div_mod::lemma_small_mod((i + 1) as nat, n as nat);
        } else {
            vstd::arithmetic::div_mod::lemma_mod_self_0(n);
        }
    } else if i > 0 {
        vstd::arithmetic::div_mod::lemma_small_mod(i as nat, n as nat);
    } else {
        vstd::arithmetic::div_mod::lemma_mod_self_0(n);
    }
}

fn find_choice(values: &[&str], v: &str) -> (r: Option<usize>)
    ensures
        match r {
            Some(i) => choice_position(values@, v@, 0) == Some(i as int) && i < values.len(),
            None => choice_position(values@, v@, 0) is None,
        },
{
    let mut i: usize = 0;
    while i < values.len()
        invariant
            i <= values.len(),
            choice_position(values@, v@, 0) == choice_position(values@, v@, i as int),
        decreases values.len() - i,
    {
        if crate::text::str_eq(values[i], v) {
            return Some(i);
        }
        i = i + 1;
    }
    None
}

/// The choice after the current one (`direction >= 0`) or before it
/// (`direction < 0`), wrapping around; an unknown current choice counts as
/// the first.
pub fn cycle_setting(values: &[&str], current: Option<&str>, direction: i8) -> (r: String)
    requires
        values.len() > 0,
    ensures
        r@ == values@[step_position(
            values.len() as int,
            current_position(values@, current),
            direction as int,
        )]@,
{
    let current_index: usize = match current {
        Some(c) => match find_choice(values, c) {
            Some(i) => i,
            None => 0,
        },
        None => 0,
    };
    let next_index: usize = if direction < 0 {
        if current_index == 0 {
            values.len() - 1
        } else {
            current_index - 1
        }
    } else {
        (current_index + 1) % values.len()
    };
    owned(values[next_index])
}

} // verus!
