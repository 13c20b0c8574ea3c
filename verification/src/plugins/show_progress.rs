//! Plugin for showing the achievement progress of one game as a
//! percentage bar.
//!
//! The bar logic is shared with the dashboard plugin: a game-name line,
//! then either a fixed line for a game without achievements or a bar of
//! half the terminal width whose filled part is the completion ratio
//! rounded to the nearest cell (ties up), followed by the percentage
//! with one decimal digit (rounded the same way) and the completed and
//! total counts.

use vstd::prelude::*;

use vstd::arithmetic::div_mod::lemma_div_is_ordered;
use vstd::arithmetic::div_mod::lemma_fundamental_div_mod_converse_div;

use crate::plugins::ArgKind;
use crate::plugins::ArgSpec;
use crate::plugins::CommandDescriptor;
use crate::plugins::Plugin;
use crate::plugins::lemma_lines_view_push;
use crate::plugins::lines_view;
use crate::plugins::parse_game_id;
use crate::plugins::spec_parse_game_id;
use crate::steam_api::Achievement;
use crate::text::append_decimal_u64;
use crate::text::append_repeat;
use crate::text::spec_decimal;
use crate::text::spec_repeat;

verus! {

pub struct ShowProgressPlugin;

/// The number of unlocked achievements in the list.
pub open spec fn spec_completed(achs: Seq<Achievement>) -> int
    decreases achs.len(),
{
    if achs.len() == 0 {
        0
    } else {
        spec_completed(achs.drop_last()) + if achs.last().achieved > 0 {
            1int
        } else {
            0int
        }
    }
}

/// The number of filled bar cells: the completion ratio scaled to the
/// bar width and rounded to the nearest integer, ties rounding up.
pub open spec fn spec_filled(completed: int, total: int, bar_width: int) -> int {
    (2 * completed * bar_width + total) / (2 * total)
}

/// The completion percentage in tenths of a percent, rounded to the
/// nearest tenth, ties rounding up.
pub open spec fn spec_tenths(completed: int, total: int) -> int {
    (2000 * completed + total) / (2 * total)
}

/// The bar line: the filled and blank cells in brackets, then the
/// percentage with one decimal digit, then `(completed/total)`.
pub open spec fn spec_bar_line(completed: int, total: int, bar_width: int) -> Seq<char> {
    let filled = spec_filled(completed, total, bar_width);
    let tenths = spec_tenths(completed, total);
    "["@ + spec_repeat('\u{2588}', filled) + spec_repeat(' ', bar_width - filled) + "] "@
        + spec_decimal(tenths / 10) + "."@ + spec_decimal(tenths % 10) + "% ("@ + spec_decimal(
        completed,
    ) + "/"@ + spec_decimal(total) + ")"@
}

/// The progress report of one game: its name line, then either the fixed
/// no-achievements line or the bar line at half the terminal width.
pub open spec fn spec_progress_lines(
    game_name: Seq<char>,
    achs: Seq<Achievement>,
    width: u16,
) -> Seq<Seq<char>> {
    if achs.len() == 0 {
        seq![game_name, "No achievements found for this game"@]
    } else {
        seq![
            game_name,
            spec_bar_line(spec_completed(achs), achs.len() as int, (width / 2) as int),
        ]
    }
}

/// Counts the unlocked achievements.
#[verifier::loop_isolation(false)]
fn count_completed(achievements: &Vec<Achievement>) -> (r: usize)
    ensures
        r as int == spec_completed(achievements@),
        r <= achievements@.len(),
{
    let mut completed: usize = 0;
    let mut i: usize = 0;
    while i < achievements.len()
        invariant
            i <= achievements@.len(),
            completed <= i,
            completed as int == spec_completed(achievements@.take(i as int)),
        decreases achievements@.len() - i,
    {
        proof {
            assert(achievements@.take(i + 1 as int).drop_last() =~= achievements@.take(i as int));
            assert(achievements@.take(i + 1 as int).last() == achievements@[i as int]);
        }
        if achievements[i].achieved > 0 {
            completed = completed + 1;
        }
        i = i + 1;
    }
    proof {
        assert(achievements@.take(i as int) =~= achievements@);
    }
    completed
}

/// Appends the bar line for `completed` of `total` achievements at the
/// given bar width.
fn append_bar_line(line: &mut String, completed: usize, total: usize, bar_width: usize)
    requires
        0 < total,
        completed <= total,
        bar_width <= 65535,
    ensures
        final(line)@ == old(line)@ + spec_bar_line(completed as int, total as int, bar_width as int),
{
    let c = completed as u128;
    let t = total as u128;
    let w = bar_width as u128;

    proof {
        assert(2 * (c as int) * (w as int) + t as int <= 2 * (t as int) * (w as int) + t as int)
            by (nonlinear_arith)
            requires
                c as int <= t as int,
                0 <= w as int,
        ;
        lemma_div_is_ordered(
            2 * (c as int) * (w as int) + t as int,
            2 * (t as int) * (w as int) + t as int,
            2 * (t as int),
        );
        assert(2 * (t as int) * (w as int) + t as int == (w as int) * (2 * (t as int)) + t as int)
            by (nonlinear_arith);
        lemma_fundamental_div_mod_converse_div(
            2 * (t as int) * (w as int) + t as int,
            2 * (t as int),
            w as int,
            t as int,
        );
        assert(spec_filled(c as int, t as int, w as int) <= w as int);

        assert(2000 * (c as int) + t as int <= 2000 * (t as int) + t as int) by (nonlinear_arith)
            requires
                c as int <= t as int,
        ;
        lemma_div_is_ordered(
            2000 * (c as int) + t as int,
            2000 * (t as int) + t as int,
            2 * (t as int),
        );
        assert(2000 * (t as int) + t as int == 1000 * (2 * (t as int)) + t as int)
            by (nonlinear_arith);
        lemma_fundamental_div_mod_converse_div(
            2000 * (t as int) + t as int,
            2 * (t as int),
            1000,
            t as int,
        );
        assert(spec_tenths(c as int, t as int) <= 1000);

        assert(0 <= 2 * (c as int) * (w as int)) by (nonlinear_arith)
            requires
                0 <= c as int,
                0 <= w as int,
        ;
        assert(2 * (c as int) * (w as int) + t as int <= u128::MAX) by (nonlinear_arith)
            requires
                c as int <= 0xffff_ffff_ffff_ffffu128 as int,
                w as int <= 65535,
                t as int <= 0xffff_ffff_ffff_ffffu128 as int,
        ;
    }

    let filled128: u128 = (2 * c * w + t) / (2 * t);
    let filled: usize = filled128 as usize;
    let tenths128: u128 = (2000 * c + t) / (2 * t);
    let tenths: u64 = tenths128 as u64;

    line.append("[");
    append_repeat(line, '\u{2588}', filled);
    append_repeat(line, ' ', bar_width - filled);
    line.append("] ");
    append_decimal_u64(line, tenths / 10);
    line.append(".");
    append_decimal_u64(line, tenths % 10);
    line.append("% (");
    append_decimal_u64(line, completed as u64);
    line.append("/");
    append_decimal_u64(line, total as u64);
    line.append(")");
    assert(line@ =~= old(line)@ + spec_bar_line(completed as int, total as int, bar_width as int));
}

/// Appends one game's progress report to `out`: the game-name line, then
/// the no-achievements line or the bar line at half the terminal width.
pub fn progress_report(
    game_name: &str,
    achievements: &Vec<Achievement>,
    width: u16,
    out: &mut Vec<String>,
)
    ensures
        lines_view(final(out)@) == lines_view(old(out)@) + spec_progress_lines(
            game_name@,
            achievements@,
            width,
        ),
{
    let name_line = game_name.to_owned();
    proof {
        lemma_lines_view_push(out@, name_line);
    }
    out.push(name_line);

    if achievements.len() == 0 {
        let no_ach = "No achievements found for this game".to_owned();
        proof {
            lemma_lines_view_push(out@, no_ach);
        }
        out.push(no_ach);
        assert(lines_view(out@) =~= lines_view(old(out)@) + spec_progress_lines(
            game_name@,
            achievements@,
            width,
        ));
        return;
    }

    let total = achievements.len();
    let completed = count_completed(achievements);
    let bar_width = (width / 2) as usize;

    let mut line = String::new();
    append_bar_line(&mut line, completed, total, bar_width);
    proof {
        lemma_lines_view_push(out@, line);
    }
    out.push(line);
    assert(lines_view(out@) =~= lines_view(old(out)@) + spec_progress_lines(
        game_name@,
        achievements@,
        width,
    ));
}

impl Plugin for ShowProgressPlugin {
    /// The `progress` sub-command: one required positional game id.
    fn command(&self) -> (r: CommandDescriptor)
        ensures
            r.name@ == "progress"@,
            r.summary@.len() > 0,
            r.long_help is None,
            r.args@.len() == 1,
            r.args@[0].id@ == "game_id"@,
            r.args@[0].kind == ArgKind::Positional,
            r.args@[0].required,
            r.args@[0].depends_on is None,
    {
        let mut args: Vec<ArgSpec> = Vec::new();
        args.push(
            ArgSpec {
                id: "game_id".to_owned(),
                kind: ArgKind::Positional,
                required: true,
                depends_on: None,
            },
        );
        proof {
            reveal_strlit("Displays game achievements progress.");
        }
        CommandDescriptor {
            name: "progress".to_owned(),
            summary: "Displays game achievements progress.".to_owned(),
            long_help: None,
            args,
        }
    }
}

impl ShowProgressPlugin {
    /// Renders the progress report for the given game id argument.
    ///
    /// The caller parses the id first and fetches the achievements only
    /// when the id is valid, handing in the fetch outcome; an invalid id
    /// is reported on the diagnostic sink and nothing is fetched. A
    /// fetch failure is reported on the diagnostic sink and rendered
    /// with empty data, as the report of an unnamed game without
    /// achievements; a successful fetch yields the progress report.
    pub fn execute(
        &self,
        game_id_str: &str,
        fetch: Option<Result<(String, Vec<Achievement>), String>>,
        width: u16,
        out: &mut Vec<String>,
        err: &mut Vec<String>,
    )
        requires
            fetch is Some <==> spec_parse_game_id(game_id_str@) is Some,
        ensures
            fetch is None ==> (lines_view(final(out)@) == lines_view(old(out)@) && lines_view(
                final(err)@,
            ) == lines_view(old(err)@).push("Invalid game id: "@ + game_id_str@)),
            fetch is Some && fetch->0 is Ok ==> (lines_view(final(out)@) == lines_view(old(out)@)
                + spec_progress_lines((fetch->0->Ok_0.0)@, (fetch->0->Ok_0.1)@, width)
                && lines_view(final(err)@) == lines_view(old(err)@)),
            fetch is Some && fetch->0 is Err ==> (lines_view(final(out)@) == lines_view(old(out)@)
                + spec_progress_lines(Seq::empty(), Seq::empty(), width) && lines_view(final(err)@)
                == lines_view(old(err)@).push(
                "Error while trying to get achievements: "@ + (fetch->0->Err_0)@,
            )),
    {
        match parse_game_id(game_id_str) {
            Some(_) => {
                match fetch {
                    Some(Ok((game_name, achievements))) => {
                        progress_report(game_name.as_str(), &achievements, width, out);
                    },
                    Some(Err(e)) => {
                        let mut line = "Error while trying to get achievements: ".to_owned();
                        line.append(e.as_str());
                        proof {
                            lemma_lines_view_push(err@, line);
                        }
                        err.push(line);
                        let empty_achievements: Vec<Achievement> = Vec::new();
                        progress_report("", &empty_achievements, width, out);
                        proof {
                            reveal_strlit("");
                            assert(""@ =~= Seq::<char>::empty());
                        }
                    },
                    None => {
                        unreached()
                    },
                }
            },
            None => {
                let mut line = "Invalid game id: ".to_owned();
                line.append(game_id_str);
                proof {
                    lemma_lines_view_push(err@, line);
                }
                err.push(line);
            },
        }
    }
}

} // verus!
