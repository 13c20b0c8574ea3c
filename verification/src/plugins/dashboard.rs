//! Plugin for displaying a dashboard of the most recently played games
//! and their achievement progress.
//!
//! The dashboard sorts the owned games by last-played time, most recent
//! first and stably (games with equal times keep their fetch order),
//! keeps the first ten, prints a centered banner sized to half the
//! terminal width, and then renders each kept game's progress report.
//! The caller fetches each game's achievements between the preparation
//! step and its report.

use vstd::prelude::*;

use crate::plugins::CommandDescriptor;
use crate::plugins::Plugin;
use crate::plugins::lemma_lines_view_push;
use crate::plugins::lines_view;
use crate::plugins::show_progress::progress_report;
use crate::plugins::show_progress::spec_progress_lines;
use crate::plugins::list_games::spec_fetched_games;
use crate::plugins::list_games::spec_steam_err_lines;
use crate::steam_api::Achievement;
use crate::steam_api::Game;
use crate::text::append_repeat;
use crate::text::spec_repeat;

verus! {

pub struct DashboardPlugin;

/// `g` inserted into `s` before the first game played less recently:
/// a game keeps its place behind every game played at least as recently,
/// so equal times preserve insertion order.
pub open spec fn spec_insert_desc(g: Game, s: Seq<Game>) -> Seq<Game>
    decreases s.len(),
{
    if s.len() == 0 {
        seq![g]
    } else if g.rtime_last_played > s[0].rtime_last_played {
        seq![g] + s
    } else {
        seq![s[0]] + spec_insert_desc(g, s.drop_first())
    }
}

/// The games sorted by last-played time, most recent first, stably:
/// each game in turn is inserted behind the already-placed games that
/// were played at least as recently.
pub open spec fn spec_sort_desc(s: Seq<Game>) -> Seq<Game>
    decreases s.len(),
{
    if s.len() == 0 {
        Seq::empty()
    } else {
        spec_insert_desc(s.last(), spec_sort_desc(s.drop_last()))
    }
}

/// The dashboard's games: the sorted list, cut to the first ten.
pub open spec fn spec_recent_games(games: Seq<Game>) -> Seq<Game> {
    let sorted = spec_sort_desc(games);
    if sorted.len() <= 10 {
        sorted
    } else {
        sorted.take(10)
    }
}

/// The banner: a line of equals signs across half the terminal width,
/// the centered title, and another line of equals signs.
pub open spec fn spec_banner_lines(width: u16) -> Seq<Seq<char>> {
    let box_width = (width / 2) as int;
    let padding = (box_width - 31) / 2;
    seq![
        spec_repeat('=', box_width),
        spec_repeat(' ', padding) + "Recently Played Games Dashboard"@ + spec_repeat(' ', padding),
        spec_repeat('=', box_width),
    ]
}

/// The games are descending in last-played time.
pub open spec fn spec_sorted_desc(s: Seq<Game>) -> bool {
    forall|i: int, j: int|
        0 <= i < j < s.len() ==> s[i].rtime_last_played >= s[j].rtime_last_played
}

proof fn lemma_insert_desc_multiset(g: Game, s: Seq<Game>)
    ensures
        spec_insert_desc(g, s).to_multiset() == s.to_multiset().insert(g),
    decreases s.len(),
{
    broadcast use vstd::seq_lib::group_to_multiset_ensures;
    broadcast use vstd::multiset::group_multiset_axioms;

    if s.len() == 0 {
        assert(spec_insert_desc(g, s) =~= Seq::<Game>::empty().push(g));
        assert(Seq::<Game>::empty().push(g).to_multiset() =~= s.to_multiset().insert(g));
    } else if g.rtime_last_played > s[0].rtime_last_played {
        vstd::seq_lib::lemma_multiset_commutative(seq![g], s);
        assert(seq![g] =~= Seq::<Game>::empty().push(g));
        assert((seq![g] + s).to_multiset() =~= s.to_multiset().insert(g));
    } else {
        let rest = s.drop_first();
        lemma_insert_desc_multiset(g, rest);
        vstd::seq_lib::lemma_multiset_commutative(seq![s[0]], spec_insert_desc(g, rest));
        vstd::seq_lib::lemma_multiset_commutative(seq![s[0]], rest);
        assert(s =~= seq![s[0]] + rest);
        assert(spec_insert_desc(g, s).to_multiset() =~= s.to_multiset().insert(g));
    }
}

proof fn lemma_insert_desc_sorted(g: Game, s: Seq<Game>)
    requires
        spec_sorted_desc(s),
    ensures
        spec_sorted_desc(spec_insert_desc(g, s)),
    decreases s.len(),
{
    broadcast use vstd::seq_lib::group_to_multiset_ensures;
    broadcast use vstd::multiset::group_multiset_axioms;

    if s.len() == 0 {
    } else if g.rtime_last_played > s[0].rtime_last_played {
        let r = seq![g] + s;
        assert forall|i: int, j: int|
            0 <= i < j < r.len() implies r[i].rtime_last_played
            >= r[j].rtime_last_played by {
            if i > 0 {
                assert(r[i] == s[i - 1] && r[j] == s[j - 1]);
            } else {
                assert(r[j] == s[j - 1]);
                if j > 1 {
                    assert(s[0].rtime_last_played >= s[j - 1].rtime_last_played);
                }
            }
        }
    } else {
        let rest = s.drop_first();
        let ins = spec_insert_desc(g, rest);
        assert(forall|i: int, j: int|
            0 <= i < j < rest.len() ==> rest[i].rtime_last_played
                >= rest[j].rtime_last_played);
        lemma_insert_desc_sorted(g, rest);
        lemma_insert_desc_multiset(g, rest);
        let r = seq![s[0]] + ins;
        assert forall|i: int, j: int|
            0 <= i < j < r.len() implies r[i].rtime_last_played
            >= r[j].rtime_last_played by {
            if i > 0 {
                assert(r[i] == ins[i - 1] && r[j] == ins[j - 1]);
            } else {
                let x = ins[j - 1];
                assert(ins.contains(x));
                assert(ins.to_multiset().count(x) > 0);
                if x == g {
                    assert(s[0].rtime_last_played >= x.rtime_last_played);
                } else {
                    assert(rest.to_multiset().count(x) > 0);
                    assert(rest.contains(x));
                    let m = choose|m: int| 0 <= m < rest.len() && rest[m] == x;
                    assert(s[m + 1] == x);
                    assert(s[0].rtime_last_played >= x.rtime_last_played);
                }
            }
        }
    }
}

/// The dashboard's ordering is a true sort: the result is descending in
/// last-played time and holds exactly the fetched games, each as often
/// as it was fetched.
pub proof fn lemma_sort_desc_correct(s: Seq<Game>)
    ensures
        spec_sorted_desc(spec_sort_desc(s)),
        spec_sort_desc(s).to_multiset() == s.to_multiset(),
    decreases s.len(),
{
    broadcast use vstd::seq_lib::group_to_multiset_ensures;
    broadcast use vstd::multiset::group_multiset_axioms;

    if s.len() == 0 {
    } else {
        let prefix = s.drop_last();
        lemma_sort_desc_correct(prefix);
        lemma_insert_desc_sorted(s.last(), spec_sort_desc(prefix));
        lemma_insert_desc_multiset(s.last(), spec_sort_desc(prefix));
        assert(s =~= prefix.push(s.last()));
        assert(prefix.push(s.last()).to_multiset() =~= prefix.to_multiset().insert(s.last()));
        assert(spec_sort_desc(s).to_multiset() =~= s.to_multiset());
    }
}

proof fn lemma_insert_desc_at(g: Game, s: Seq<Game>, idx: int)
    requires
        0 <= idx <= s.len(),
        forall|j: int| 0 <= j < idx ==> s[j].rtime_last_played >= g.rtime_last_played,
        idx < s.len() ==> s[idx].rtime_last_played < g.rtime_last_played,
    ensures
        spec_insert_desc(g, s) == s.take(idx) + seq![g] + s.skip(idx),
    decreases idx,
{
    if idx == 0 {
        if s.len() == 0 {
            assert(spec_insert_desc(g, s) =~= s.take(0) + seq![g] + s.skip(0));
        } else {
            assert(g.rtime_last_played > s[0].rtime_last_played);
            assert(spec_insert_desc(g, s) =~= s.take(0) + seq![g] + s.skip(0));
        }
    } else {
        assert(s[0].rtime_last_played >= g.rtime_last_played);
        let rest = s.drop_first();
        assert(forall|j: int| 0 <= j < idx - 1 ==> rest[j].rtime_last_played
            >= g.rtime_last_played);
        lemma_insert_desc_at(g, rest, idx - 1);
        assert(seq![s[0]] + rest.take(idx - 1) =~= s.take(idx));
        assert(rest.skip(idx - 1) =~= s.skip(idx));
        assert(spec_insert_desc(g, s) =~= s.take(idx) + seq![g] + s.skip(idx));
    }
}

/// Sorts the games by last-played time, most recent first, stably.
#[verifier::loop_isolation(false)]
fn sort_games_desc(games: Vec<Game>) -> (r: Vec<Game>)
    ensures
        r@ == spec_sort_desc(games@),
{
    let ghost all = games@;
    let mut games = games;
    let mut sorted: Vec<Game> = Vec::new();
    let ghost k: int = 0;
    proof {
        assert(all.take(0) =~= Seq::<Game>::empty());
    }
    while games.len() > 0
        invariant
            0 <= k <= all.len(),
            games@ == all.skip(k),
            sorted@ == spec_sort_desc(all.take(k)),
        decreases games@.len(),
    {
        assert(all.skip(k)[0] == all[k]);
        let g = games.remove(0);
        assert(g == all[k]);
        assert(games@ =~= all.skip(k + 1));

        let mut idx: usize = 0;
        while idx < sorted.len() && sorted[idx].rtime_last_played >= g.rtime_last_played
            invariant
                idx <= sorted@.len(),
                forall|j: int| 0 <= j < idx ==> sorted@[j].rtime_last_played
                    >= g.rtime_last_played,
            decreases sorted@.len() - idx,
        {
            idx = idx + 1;
        }
        proof {
            lemma_insert_desc_at(g, sorted@, idx as int);
        }
        sorted.insert(idx, g);
        proof {
            assert(sorted@ =~= spec_insert_desc(g, spec_sort_desc(all.take(k))));
            assert(all.take(k + 1).drop_last() =~= all.take(k));
            assert(all.take(k + 1).last() == all[k]);
            k = k + 1;
        }
    }
    proof {
        assert(all.take(k) =~= all);
    }
    sorted
}

impl Plugin for DashboardPlugin {
    /// The `dashboard` sub-command, without arguments.
    fn command(&self) -> (r: CommandDescriptor)
        ensures
            r.name@ == "dashboard"@,
            r.summary@.len() > 0,
            r.long_help is None,
            r.args@.len() == 0,
    {
        proof {
            reveal_strlit(
                "Displays a dashboard with 10 last played games and their achievement progress",
            );
        }
        CommandDescriptor {
            name: "dashboard".to_owned(),
            summary:
                "Displays a dashboard with 10 last played games and their achievement progress"
                .to_owned(),
            long_help: None,
            args: Vec::new(),
        }
    }
}

impl DashboardPlugin {
    /// Turns the owned-games fetch outcome into the dashboard's game
    /// list: a failure is reported on the diagnostic sink and treated as
    /// an empty list; the games are sorted by last-played time, most
    /// recent first and stably, and cut to the first ten.
    pub fn prepare(&self, games_result: Result<Vec<Game>, String>, err: &mut Vec<String>) -> (r:
        Vec<Game>)
        ensures
            r@ == spec_recent_games(spec_fetched_games(games_result)),
            lines_view(final(err)@) == lines_view(old(err)@) + spec_steam_err_lines(games_result),
    {
        let games: Vec<Game> = match games_result {
            Ok(g) => g,
            Err(e) => {
                let mut line = "Error while trying to get Steam data: ".to_owned();
                line.append(e.as_str());
                proof {
                    lemma_lines_view_push(old(err)@, line);
                }
                err.push(line);
                Vec::new()
            },
        };
        assert(lines_view(err@) =~= lines_view(old(err)@) + spec_steam_err_lines(games_result));

        let mut sorted = sort_games_desc(games);
        if sorted.len() > 10 {
            sorted.truncate(10);
            assert(sorted@ =~= spec_recent_games(spec_fetched_games(games_result)));
        }
        sorted
    }

    /// Appends the banner to `out`: a half-terminal-width rule, the
    /// centered dashboard title, and another rule. The box must be at
    /// least as wide as the title.
    pub fn banner(&self, width: u16, out: &mut Vec<String>)
        requires
            width / 2 >= 31,
        ensures
            lines_view(final(out)@) == lines_view(old(out)@) + spec_banner_lines(width),
    {
        let box_width = (width / 2) as usize;
        let title = "Recently Played Games Dashboard";
        let title_len = title.unicode_len();
        proof {
            reveal_strlit("Recently Played Games Dashboard");
            assert(title_len == 31);
        }
        let padding = (box_width - title_len) / 2;

        let mut rule = String::new();
        append_repeat(&mut rule, '=', box_width);
        let rule_again = rule.clone();
        assert(rule_again@ == rule@);

        let mut title_line = String::new();
        append_repeat(&mut title_line, ' ', padding);
        title_line.append(title);
        append_repeat(&mut title_line, ' ', padding);

        proof {
            lemma_lines_view_push(out@, rule);
        }
        out.push(rule);
        proof {
            lemma_lines_view_push(out@, title_line);
        }
        out.push(title_line);
        proof {
            lemma_lines_view_push(out@, rule_again);
        }
        out.push(rule_again);
        assert(lines_view(out@) =~= lines_view(old(out)@) + spec_banner_lines(width));
    }

    /// Appends one dashboard game's section: on a successful fetch, the
    /// game's progress report; on a failed fetch, a diagnostic line and
    /// the report of an unnamed game without achievements (an empty name
    /// line and the no-achievements line).
    pub fn game_section(
        &self,
        fetch: Result<(String, Vec<Achievement>), String>,
        width: u16,
        out: &mut Vec<String>,
        err: &mut Vec<String>,
    )
        ensures
            fetch matches Ok(f) ==> (lines_view(final(out)@) == lines_view(old(out)@)
                + spec_progress_lines(f.0@, f.1@, width) && lines_view(final(err)@) == lines_view(
                old(err)@,
            )),
            fetch matches Err(e) ==> (lines_view(final(out)@) == lines_view(old(out)@)
                + spec_progress_lines(Seq::empty(), Seq::empty(), width) && lines_view(final(err)@)
                == lines_view(old(err)@).push("Error while trying to get achievements: "@ + e@)),
    {
        match fetch {
            Ok((game_name, achievements)) => {
                progress_report(game_name.as_str(), &achievements, width, out);
            },
            Err(e) => {
                let mut line = "Error while trying to get achievements: ".to_owned();
                line.append(e.as_str());
                proof {
                    lemma_lines_view_push(err@, line);
                }
                err.push(line);
                let empty_achievements: Vec<Achievement> = Vec::new();
                progress_report("", &empty_achievements, width, out);
                proof {
                    reveal_strlit("");
                    assert(""@ =~= Seq::<char>::empty());
                }
            },
        }
    }
}

} // verus!
