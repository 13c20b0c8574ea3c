//! The plugin system of the client.
//!
//! Every feature is a plugin: a unit that describes its own sub-command
//! (name, summary, arguments) and carries an execution behavior. The
//! registry lists the plugins in a fixed order with provably distinct
//! command names, so that whoever builds the command tree can dispatch
//! by name without conflicts.
//!
//! An execution behavior here is a function over plain values: it takes
//! the outcome of the network fetches the feature needs and appends its
//! output lines to two caller-supplied sinks, one for normal output and
//! one for diagnostics. Performing the fetches (and deciding to skip
//! them when an argument is invalid) is the caller's loop.

use vstd::prelude::*;

pub mod completions;
pub mod dashboard;
pub mod list_achievements;
pub mod list_games;
pub mod show_progress;

pub use completions::CompletionsPlugin;
pub use dashboard::DashboardPlugin;
pub use list_achievements::ListAchievementsPlugin;
pub use list_games::ListGamesPlugin;
pub use show_progress::ShowProgressPlugin;

verus! {

/// How an argument is supplied on the command line.
#[derive(Debug, Clone, Copy, PartialEq, Eq, Structural)]
pub enum ArgKind {
    /// A bare value in a fixed position.
    Positional,
    /// A switch without a value.
    Flag,
    /// A named option that carries a value.
    Valued,
}

/// One declared argument of a sub-command.
#[derive(Debug, Clone)]
pub struct ArgSpec {
    pub id: String,
    pub kind: ArgKind,
    pub required: bool,
    /// The id of another argument that must be present for this one.
    pub depends_on: Option<String>,
}

/// The static description of one sub-command: its unique name, its help
/// summary, an optional long help text, and its declared arguments.
#[derive(Debug, Clone)]
pub struct CommandDescriptor {
    pub name: String,
    pub summary: String,
    pub long_help: Option<String>,
    pub args: Vec<ArgSpec>,
}

/// The uniform capability of every feature: describing its own
/// sub-command. The descriptor is stable: it depends on nothing but the
/// plugin itself, so repeated calls return the same description.
pub trait Plugin {
    fn command(&self) -> CommandDescriptor;
}

/// One registered feature of the client.
pub enum AnyPlugin {
    ListGames(ListGamesPlugin),
    Dashboard(DashboardPlugin),
    ListAchievements(ListAchievementsPlugin),
    ShowProgress(ShowProgressPlugin),
}

impl AnyPlugin {
    /// The command name this registered plugin answers to.
    pub open spec fn spec_name(&self) -> Seq<char> {
        match self {
            AnyPlugin::ListGames(_) => "list"@,
            AnyPlugin::Dashboard(_) => "dashboard"@,
            AnyPlugin::ListAchievements(_) => "achievements"@,
            AnyPlugin::ShowProgress(_) => "progress"@,
        }
    }

    /// The sub-command description of this registered plugin.
    pub fn command(&self) -> (r: CommandDescriptor)
        ensures
            r.name@ == self.spec_name(),
    {
        match self {
            AnyPlugin::ListGames(p) => p.command(),
            AnyPlugin::Dashboard(p) => p.command(),
            AnyPlugin::ListAchievements(p) => p.command(),
            AnyPlugin::ShowProgress(p) => p.command(),
        }
    }
}

/// The registry: the fixed, ordered set of features, with pairwise
/// distinct command names.
pub fn get_plugins() -> (r: Vec<AnyPlugin>)
    ensures
        r@.len() == 4,
        r@[0].spec_name() == "list"@,
        r@[1].spec_name() == "dashboard"@,
        r@[2].spec_name() == "achievements"@,
        r@[3].spec_name() == "progress"@,
        forall|i: int, j: int|
            0 <= i < j < r@.len() ==> r@[i].spec_name() != r@[j].spec_name(),
{
    let plugins = vec![
        AnyPlugin::ListGames(ListGamesPlugin),
        AnyPlugin::Dashboard(DashboardPlugin),
        AnyPlugin::ListAchievements(ListAchievementsPlugin),
        AnyPlugin::ShowProgress(ShowProgressPlugin),
    ];
    proof {
        reveal_strlit("list");
        reveal_strlit("dashboard");
        reveal_strlit("achievements");
        reveal_strlit("progress");
        assert("list"@.len() == 4);
        assert("dashboard"@.len() == 9);
        assert("achievements"@.len() == 12);
        assert("progress"@.len() == 8);
    }
    plugins
}

/// The text contents of an output sink, line by line.
pub open spec fn lines_view(s: Seq<String>) -> Seq<Seq<char>> {
    s.map_values(|x: String| x@)
}

/// Appending one line to a sink appends its text to the sink's contents.
pub proof fn lemma_lines_view_push(s: Seq<String>, x: String)
    ensures
        lines_view(s.push(x)) == lines_view(s).push(x@),
{
    assert(lines_view(s.push(x)) =~= lines_view(s).push(x@));
}

/// The view of an optional string argument.
pub open spec fn opt_view(o: Option<String>) -> Option<Seq<char>> {
    match o {
        Some(s) => Some(s@),
        None => None,
    }
}

/// Whether `c` is a decimal digit.
pub open spec fn spec_is_digit(c: char) -> bool {
    '0' <= c && c <= '9'
}

/// The number denoted by a sequence of decimal digits, most significant
/// digit first.
pub open spec fn spec_digits_value(s: Seq<char>) -> int
    decreases s.len(),
{
    if s.len() == 0 {
        0
    } else {
        spec_digits_value(s.drop_last()) * 10 + (s.last() as int - 48)
    }
}

/// The digit part of a decimal number string: everything after an
/// optional leading plus sign.
pub open spec fn spec_digits_part(s: Seq<char>) -> Seq<char> {
    if s.len() > 0 && s[0] == '+' {
        s.skip(1)
    } else {
        s
    }
}

/// What parsing a game id from a string yields: the denoted number, if
/// the string is an optional plus sign followed by one or more decimal
/// digits whose value fits the id type, and nothing otherwise.
pub open spec fn spec_parse_game_id(s: Seq<char>) -> Option<u32> {
    let d = spec_digits_part(s);
    if d.len() >= 1 && (forall|i: int| 0 <= i < d.len() ==> spec_is_digit(d[i]))
        && spec_digits_value(d) <= u32::MAX {
        Some(spec_digits_value(d) as u32)
    } else {
        None
    }
}

proof fn lemma_digits_value_nonneg(d: Seq<char>)
    requires
        forall|j: int| 0 <= j < d.len() ==> spec_is_digit(d[j]),
    ensures
        spec_digits_value(d) >= 0,
    decreases d.len(),
{
    if d.len() > 0 {
        lemma_digits_value_nonneg(d.drop_last());
    }
}

proof fn lemma_digits_value_monotone(d: Seq<char>, k: int)
    requires
        0 <= k <= d.len(),
        forall|j: int| 0 <= j < d.len() ==> spec_is_digit(d[j]),
    ensures
        spec_digits_value(d) >= spec_digits_value(d.take(k)),
    decreases d.len() - k,
{
    if k < d.len() {
        assert(d.take(k + 1).drop_last() =~= d.take(k));
        assert(forall|j: int| 0 <= j < d.take(k).len() ==> spec_is_digit(d.take(k)[j]));
        lemma_digits_value_nonneg(d.take(k));
        assert(spec_digits_value(d.take(k + 1)) >= spec_digits_value(d.take(k)));
        lemma_digits_value_monotone(d, k + 1);
    } else {
        assert(d.take(k) =~= d);
    }
}

/// Parses a game id: an optional leading plus sign followed by decimal
/// digits. Returns nothing for an empty digit part, a non-digit
/// character, or a value too large for the id type.
#[verifier::loop_isolation(false)]
pub fn parse_game_id(s: &str) -> (r: Option<u32>)
    ensures
        r == spec_parse_game_id(s@),
{
    let n = s.unicode_len();
    let ghost d = spec_digits_part(s@);
    let mut i: usize = 0;
    if n > 0 && s.get_char(0) == '+' {
        i = 1;
    }
    let ghost start = i as int;
    assert(d =~= s@.skip(start));
    if i == n {
        return None;
    }
    let mut acc: u64 = 0;
    while i < n
        invariant
            start <= i <= n,
            acc <= u32::MAX,
            forall|j: int| 0 <= j < i - start ==> spec_is_digit(d[j]),
            acc == spec_digits_value(d.take(i - start)),
        decreases n - i,
    {
        let c = s.get_char(i);
        if c < '0' || c > '9' {
            assert(!spec_is_digit(d[i - start]));
            return None;
        }
        let digit = (c as u32) - 48;
        acc = acc * 10 + digit as u64;
        proof {
            assert(d.take(i - start + 1).drop_last() =~= d.take(i - start));
            assert(d.take(i - start + 1).last() == d[i - start]);
        }
        if acc > u32::MAX as u64 {
            proof {
                if forall|j: int| 0 <= j < d.len() ==> spec_is_digit(d[j]) {
                    lemma_digits_value_monotone(d, i - start + 1);
                }
            }
            return None;
        }
        i = i + 1;
    }
    proof {
        assert(d.take(n - start) =~= d);
    }
    Some(acc as u32)
}

} // verus!
