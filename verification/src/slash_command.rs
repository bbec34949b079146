//! Slash commands: their names, the prompt forms that invoke them and the
//! filter text of the command popup.
use vstd::prelude::*;

use crate::locale::Locale;
use crate::text::{
    chars_of, first_line, first_line_end, is_ws, matches_str, next_token, string_of, tokens,
};

verus! {

/// A slash command.
#[derive(Clone, Copy, Debug, PartialEq, Eq, Structural)]
pub enum SlashCommand {
    Model,
    Plan,
    Effort,
    Permissions,
    Status,
    Pwd,
    Copy,
    Export,
    Agents,
    MultiAgents,
    Resume,
    Mcp,
    Vim,
}

/// The commands in catalog order.
pub open spec fn catalog(i: int) -> SlashCommand {
    if i == 0 {
        SlashCommand::Model
    } else if i == 1 {
        SlashCommand::Plan
    } else if i == 2 {
        SlashCommand::Effort
    } else if i == 3 {
        SlashCommand::Permissions
    } else if i == 4 {
        SlashCommand::Status
    } else if i == 5 {
        SlashCommand::Pwd
    } else if i == 6 {
        SlashCommand::Copy
    } else if i == 7 {
        SlashCommand::Export
    } else if i == 8 {
        SlashCommand::Agents
    } else if i == 9 {
        SlashCommand::MultiAgents
    } else if i == 10 {
        SlashCommand::Resume
    } else if i == 11 {
        SlashCommand::Mcp
    } else {
        SlashCommand::Vim
    }
}

/// Number of commands in the catalog.
pub const COMMAND_COUNT: usize = 13;

impl SlashCommand {
    /// Every command, in catalog order.
    pub const ALL: [SlashCommand; 13] = [
        SlashCommand::Model,
        SlashCommand::Plan,
        SlashCommand::Effort,
        SlashCommand::Permissions,
        SlashCommand::Status,
        SlashCommand::Pwd,
        SlashCommand::Copy,
        SlashCommand::Export,
        SlashCommand::Agents,
        SlashCommand::MultiAgents,
        SlashCommand::Resume,
        SlashCommand::Mcp,
        SlashCommand::Vim,
    ];

    /// The name typed after `/`.
    pub open spec fn command_text(self) -> Seq<char> {
        match self {
            SlashCommand::Model => "model"@,
            SlashCommand::Plan => "plan"@,
            SlashCommand::Effort => "effort"@,
            SlashCommand::Permissions => "permissions"@,
            SlashCommand::Status => "status"@,
            SlashCommand::Pwd => "pwd"@,
            SlashCommand::Copy => "copy"@,
            SlashCommand::Export => "export"@,
            SlashCommand::Agents => "agents"@,
            SlashCommand::MultiAgents => "subagents"@,
            SlashCommand::Resume => "resume"@,
            SlashCommand::Mcp => "mcp"@,
            SlashCommand::Vim => "vim"@,
        }
    }

    /// The name typed after `/`.
    pub fn command(self) -> (r: &'static str)
        ensures
            r@ == self.command_text(),
    {
        match self {
            SlashCommand::Model => "model",
            SlashCommand::Plan => "plan",
            SlashCommand::Effort => "effort",
            SlashCommand::Permissions => "permissions",
            SlashCommand::Status => "status",
            SlashCommand::Pwd => "pwd",
            SlashCommand::Copy => "copy",
            SlashCommand::Export => "export",
            SlashCommand::Agents => "agents",
            SlashCommand::MultiAgents => "subagents",
            SlashCommand::Resume => "resume",
            SlashCommand::Mcp => "mcp",
            SlashCommand::Vim => "vim",
        }
    }

    /// Whether the command needs a value after its name.
    pub fn requires_argument(self) -> (r: bool)
        ensures
            r == (self == SlashCommand::Effort || self == SlashCommand::Permissions),
    {
        match self {
            SlashCommand::Effort | SlashCommand::Permissions => true,
            _ => false,
        }
    }

    /// The description of the command in `locale`.
    pub fn description(self, locale: Locale) -> (r: &'static str)
        ensures
            r@ == locale.slash_command_description_text(self),
    {
        locale.slash_command_description(self)
    }

    /// The command named `name`: `cwd` is another name of `pwd`; otherwise
    /// the first catalog command whose name is `name`.
    pub fn from_name(name: &str) -> (r: Option<SlashCommand>)
        ensures
            r == command_named(name@),
    {
        if crate::text::str_eq(name, "cwd") {
            return Some(SlashCommand::Pwd);
        }
        let mut i: usize = 0;
        while i < COMMAND_COUNT
            invariant
                i <= COMMAND_COUNT,
                name@ != "cwd"@,
                catalog_index(name@, 0) == catalog_index(name@, i as int),
            decreases COMMAND_COUNT - i,
        {
            let c = catalog_at(i);
            if crate::text::str_eq(c.command(), name) {
                return Some(c);
            }
            i = i + 1;
        }
        None
    }
}

/// Every command's own name invokes that command.
pub proof fn lemma_name_round_trip(c: SlashCommand)
    ensures
        command_named(c.command_text()) == Some(c),
{
    reveal_strlit("model");
    reveal_strlit("plan");
    reveal_strlit("effort");
    reveal_strlit("permissions");
    reveal_strlit("status");
    reveal_strlit("pwd");
    reveal_strlit("copy");
    reveal_strlit("export");
    reveal_strlit("agents");
    reveal_strlit("subagents");
    reveal_strlit("resume");
    reveal_strlit("mcp");
    reveal_strlit("vim");
    reveal_strlit("cwd");
    reveal_with_fuel(catalog_index, 14);
    let n = c.command_text();
    assert forall|j: int| 0 <= j < 13 && catalog(j) != c implies catalog(j).command_text() != n by {
        let m = catalog(j).command_text();
        if m.len() == n.len() {
            assert(m[0] != n[0] || m[1] != n[1] || m[2] != n[2]);
        }
    }
    assert(n.len() == 3 ==> n[0] != 'c' || n[1] != 'w');
}

fn catalog_at(i: usize) -> (c: SlashCommand)
    requires
        i < COMMAND_COUNT,
    ensures
        c == catalog(i as int),
{
    SlashCommand::ALL[i]
}

/// The first catalog command, from position `from` on, named `name`.
pub open spec fn catalog_index(name: Seq<char>, from: int) -> Option<SlashCommand>
    decreases 13 - from,
{
    if from < 0 || from >= 13 {
        None
    } else if catalog(from).command_text() == name {
        Some(catalog(from))
    } else {
        catalog_index(name, from + 1)
    }
}

/// The command a name invokes.
pub open spec fn command_named(name: Seq<char>) -> Option<SlashCommand> {
    if name == "cwd"@ {
        Some(SlashCommand::Pwd)
    } else {
        catalog_index(name, 0)
    }
}

/// The popup filter of a composer text: the text after `/` when the text is
/// one line that starts with `/` and holds no white space.
pub open spec fn command_filter_spec(text: Seq<char>) -> Option<Seq<char>> {
    if first_line(text) == Some(text) && text.len() > 0 && text[0] == '/' && (forall|i: int|
        1 <= i < text.len() ==> !is_ws(#[trigger] text[i])) {
        Some(text.skip(1))
    } else {
        None
    }
}

/// The popup filter of a composer text (`"/mo"` filters by `"mo"`).
pub fn command_filter(text: &str) -> (r: Option<&str>)
    ensures
        match r {
            Some(f) => command_filter_spec(text@) == Some(f@),
            None => command_filter_spec(text@) is None,
        },
{
    let v = chars_of(text);
    let end = match first_line_end(&v) {
        Some(e) => e,
        None => return None,
    };
    if end != v.len() {
        proof {
            assert(v@.take(end as int).len() != v@.len());
        }
        return None;
    }
    assert(v@.take(end as int) =~= v@);
    if v[0] != '/' {
        return None;
    }
    let mut i: usize = 1;
    while i < v.len()
        invariant
            1 <= i <= v.len(),
            v@ == text@,
            forall|j: int| 1 <= j < i ==> !is_ws(#[trigger] v@[j]),
        decreases v.len() - i,
    {
        if crate::text::is_whitespace(v[i]) {
            return None;
        }
        i = i + 1;
    }
    Some(text.substring_char(1, v.len()))
}

/// The command a prompt starts with: its first whitespace token, when that
/// token is `/` followed by a command name.
pub open spec fn command_from_prompt_spec(prompt: Seq<char>) -> Option<SlashCommand> {
    let t = tokens(prompt);
    if t.len() > 0 && t[0].len() > 0 && t[0][0] == '/' {
        command_named(t[0].skip(1))
    } else {
        None
    }
}

/// The command a prompt starts with (`"/model gpt"` starts with `/model`).
pub fn command_from_prompt(prompt: &str) -> (r: Option<SlashCommand>)
    ensures
        r == command_from_prompt_spec(prompt@),
{
    let v = chars_of(prompt);
    assert(v@.skip(0) =~= v@);
    match next_token(&v, 0) {
        None => None,
        Some((a, b)) => {
            if v[a] != '/' {
                return None;
            }
            let name = string_of(&v, a + 1, b);
            assert(name@ =~= v@.subrange(a as int, b as int).skip(1));
            SlashCommand::from_name(name.as_str())
        },
    }
}

} // verus!
