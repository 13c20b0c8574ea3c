//! Plugin for listing all games owned by the user, with an optional
//! case-insensitive name filter and an optional output pattern.

use vstd::prelude::*;

use crate::plugins::ArgKind;
use crate::plugins::ArgSpec;
use crate::plugins::CommandDescriptor;
use crate::plugins::Plugin;
use crate::plugins::lemma_lines_view_push;
use crate::plugins::lines_view;
use crate::plugins::opt_view;
use crate::steam_api::Game;
use crate::text::contains_case_insensitive;
use crate::text::lower_of;
use crate::text::spec_contains;
use crate::ui::DisplayableGame;
use crate::ui::spec_render_game;

verus! {

pub struct ListGamesPlugin;

/// Whether the filter keeps the game: no filter keeps every game, and a
/// filter keeps the games whose lowercase name contains the lowercase
/// filter text.
pub open spec fn spec_game_kept(g: Game, filter: Option<Seq<char>>) -> bool {
    match filter {
        None => true,
        Some(f) => spec_contains(lower_of(g.name@), lower_of(f)),
    }
}

/// The header line above the game list.
pub open spec fn spec_list_header(filter: Option<Seq<char>>) -> Seq<char> {
    match filter {
        Some(f) => "Displaying games filtered by: "@ + f,
        None => "Displaying all games:"@,
    }
}

/// The output pattern: the user-supplied one, or the id-and-name default.
pub open spec fn spec_pattern_or_default(pattern: Option<Seq<char>>) -> Seq<char> {
    match pattern {
        Some(p) => p,
        None => "[i] n"@,
    }
}

/// The games a fetch outcome yields: the fetched list on success, and no
/// games at all on failure.
pub open spec fn spec_fetched_games(r: Result<Vec<Game>, String>) -> Seq<Game> {
    match r {
        Ok(games) => games@,
        Err(_) => Seq::empty(),
    }
}

/// The diagnostic lines of the fetch outcome: none on success, and one
/// line naming the failure on error.
pub open spec fn spec_steam_err_lines(r: Result<Vec<Game>, String>) -> Seq<Seq<char>> {
    match r {
        Ok(_) => Seq::empty(),
        Err(e) => seq!["Error while trying to get Steam data: "@ + e@],
    }
}

/// The game lines: one rendered line per kept game, in fetch order.
pub open spec fn spec_game_lines(
    games: Seq<Game>,
    filter: Option<Seq<char>>,
    pattern: Seq<char>,
) -> Seq<Seq<char>>
    decreases games.len(),
{
    if games.len() == 0 {
        Seq::empty()
    } else {
        spec_game_lines(games.drop_last(), filter, pattern) + if spec_game_kept(
            games.last(),
            filter,
        ) {
            seq![spec_render_game(pattern, games.last())]
        } else {
            Seq::empty()
        }
    }
}

impl Plugin for ListGamesPlugin {
    /// The `list` sub-command: an optional `filter` option and an
    /// optional `pattern` option that requires the filter.
    fn command(&self) -> (r: CommandDescriptor)
        ensures
            r.name@ == "list"@,
            r.summary@.len() > 0,
            r.long_help is None,
            r.args@.len() == 2,
            r.args@[0].id@ == "filter"@,
            r.args@[0].kind == ArgKind::Valued,
            !r.args@[0].required,
            r.args@[0].depends_on is None,
            r.args@[1].id@ == "pattern"@,
            r.args@[1].kind == ArgKind::Valued,
            !r.args@[1].required,
            r.args@[1].depends_on matches Some(d) && d@ == "filter"@,
    {
        let mut args: Vec<ArgSpec> = Vec::new();
        args.push(
            ArgSpec {
                id: "filter".to_owned(),
                kind: ArgKind::Valued,
                required: false,
                depends_on: None,
            },
        );
        args.push(
            ArgSpec {
                id: "pattern".to_owned(),
                kind: ArgKind::Valued,
                required: false,
                depends_on: Some("filter".to_owned()),
            },
        );
        proof {
            reveal_strlit("Displays a list of all games on account set in environment variables");
        }
        CommandDescriptor {
            name: "list".to_owned(),
            summary: "Displays a list of all games on account set in environment variables"
                .to_owned(),
            long_help: None,
            args,
        }
    }
}

impl ListGamesPlugin {
    /// Renders the game list from the outcome of the owned-games fetch:
    /// a failure is reported on the diagnostic sink and treated as an
    /// empty list; the output is a header naming the filter (or the
    /// all-games header) followed by one line per kept game, rendered
    /// with the supplied pattern or the default one.
    #[verifier::loop_isolation(false)]
    pub fn execute(
        &self,
        games_result: Result<Vec<Game>, String>,
        filter: Option<String>,
        pattern: Option<String>,
        out: &mut Vec<String>,
        err: &mut Vec<String>,
    )
        ensures
            lines_view(final(out)@) == lines_view(old(out)@).push(
                spec_list_header(opt_view(filter)),
            ) + spec_game_lines(
                spec_fetched_games(games_result),
                opt_view(filter),
                spec_pattern_or_default(opt_view(pattern)),
            ),
            lines_view(final(err)@) == lines_view(old(err)@) + spec_steam_err_lines(games_result),
    {
        let ghost fv = opt_view(filter);
        let ghost pat = spec_pattern_or_default(opt_view(pattern));

        let mut games: Vec<Game> = match games_result {
            Ok(g) => g,
            Err(e) => {
                let mut line = "Error while trying to get Steam data: ".to_owned();
                line.append(e.as_str());
                proof {
                    lemma_lines_view_push(old(err)@, line);
                }
                err.push(line);
                Vec::new()
            },
        };
        assert(games@ == spec_fetched_games(games_result));
        assert(lines_view(err@) =~= lines_view(old(err)@) + spec_steam_err_lines(games_result));

        match &filter {
            Some(f) => {
                let mut line = "Displaying games filtered by: ".to_owned();
                line.append(f.as_str());
                proof {
                    lemma_lines_view_push(out@, line);
                }
                out.push(line);
            },
            None => {
                let line = "Displaying all games:".to_owned();
                proof {
                    lemma_lines_view_push(out@, line);
                }
                out.push(line);
            },
        }
        assert(lines_view(out@) =~= lines_view(old(out)@).push(spec_list_header(fv)));

        let pattern_str: &str = match &pattern {
            Some(p) => p.as_str(),
            None => "[i] n",
        };
        assert(pattern_str@ == pat);

        let ghost all = games@;
        let ghost out_base = lines_view(old(out)@).push(spec_list_header(fv));
        let ghost k: int = 0;
        while games.len() > 0
            invariant
                0 <= k <= all.len(),
                games@ == all.skip(k),
                lines_view(out@) == out_base + spec_game_lines(all.take(k), fv, pat),
                lines_view(err@) == lines_view(old(err)@) + spec_steam_err_lines(games_result),
            decreases games@.len(),
        {
            assert(all.skip(k)[0] == all[k]);
            let g = games.remove(0);
            assert(g == all[k]);
            assert(games@ =~= all.skip(k + 1));

            let keep = match &filter {
                Some(f) => contains_case_insensitive(g.name.as_str(), f.as_str()),
                None => true,
            };
            assert(keep == spec_game_kept(g, fv));

            proof {
                assert(all.take(k + 1).drop_last() =~= all.take(k));
                assert(all.take(k + 1).last() == all[k]);
            }
            if keep {
                let displayable_game = DisplayableGame { game: g };
                let formatted_game = displayable_game.format(pattern_str);
                proof {
                    lemma_lines_view_push(out@, formatted_game);
                }
                out.push(formatted_game);
                assert(lines_view(out@) =~= out_base + spec_game_lines(all.take(k + 1), fv, pat));
            } else {
                assert(spec_game_lines(all.take(k + 1), fv, pat) =~= spec_game_lines(
                    all.take(k),
                    fv,
                    pat,
                ));
            }
            proof {
                k = k + 1;
            }
        }
        proof {
            assert(all.take(k) =~= all);
        }
    }
}

} // verus!
