//! Plugin for listing the achievements of one game, with an optional
//! locked-only filter and optional global unlock percentages.
//!
//! An unlocked achievement is rendered with its name, status and unlock
//! time; a locked one with its name alone. When global percentages were
//! requested, each line gets the rate of its achievement key appended
//! (the zero rate when the key has no global data).

use vstd::prelude::*;

use crate::constants::MAX_UTC_SECS;
use crate::plugins::ArgKind;
use crate::plugins::ArgSpec;
use crate::plugins::CommandDescriptor;
use crate::plugins::Plugin;
use crate::plugins::lemma_lines_view_push;
use crate::plugins::lines_view;
use crate::plugins::parse_game_id;
use crate::plugins::spec_parse_game_id;
use crate::steam_api::Achievement;
use crate::steam_api::GlobalRate;
use crate::ui::DisplayableAchievement;
use crate::ui::spec_render_ach;

verus! {

pub struct ListAchievementsPlugin;

/// The rate text for an achievement key: the percentage text of the last
/// entry with that key, or the zero rate when no entry has it. (The last
/// entry wins because the rates are loaded into a map keyed by the
/// achievement key, one insert per entry, in order.)
pub open spec fn spec_rate_lookup(rates: Seq<GlobalRate>, key: Seq<char>) -> Seq<char>
    decreases rates.len(),
{
    if rates.len() == 0 {
        "0"@
    } else if rates.last().name@ == key {
        rates.last().percent_text@
    } else {
        spec_rate_lookup(rates.drop_last(), key)
    }
}

/// The output line of one achievement: name, status and unlock time for
/// an unlocked one, the bare name for a locked one, and the global rate
/// of its key appended when global rates were requested.
pub open spec fn spec_ach_title(a: Achievement, global: Option<Seq<GlobalRate>>) -> Seq<char> {
    let base = if a.achieved > 0 {
        spec_render_ach("n - s (t)"@, a)
    } else {
        spec_render_ach("n"@, a)
    };
    match global {
        None => base,
        Some(rates) => base + " "@ + spec_rate_lookup(rates, a.apiname@) + "%"@,
    }
}

/// The achievement lines, in fetch order: every achievement gets one
/// line, except that the remaining-only filter drops the unlocked ones.
pub open spec fn spec_ach_lines(
    achs: Seq<Achievement>,
    global: Option<Seq<GlobalRate>>,
    remaining: bool,
) -> Seq<Seq<char>>
    decreases achs.len(),
{
    if achs.len() == 0 {
        Seq::empty()
    } else {
        spec_ach_lines(achs.drop_last(), global, remaining) + if remaining && achs.last().achieved
            > 0 {
            Seq::empty()
        } else {
            seq![spec_ach_title(achs.last(), global)]
        }
    }
}

/// The achievements an achievements-fetch outcome yields: the fetched
/// list on success, and none at all on failure.
pub open spec fn spec_fetched_achs(r: Result<(String, Vec<Achievement>), String>) -> Seq<
    Achievement,
> {
    match r {
        Ok(f) => f.1@,
        Err(_) => Seq::empty(),
    }
}

/// The diagnostic lines of the achievements-fetch outcome.
pub open spec fn spec_ach_err_lines(r: Result<(String, Vec<Achievement>), String>) -> Seq<
    Seq<char>,
> {
    match r {
        Ok(_) => Seq::empty(),
        Err(e) => seq!["Error while trying to get achievements: "@ + e@],
    }
}

/// The global rates in effect: none when they were not requested, the
/// fetched rates on success, and no entries at all when the fetch failed
/// (every key then falls back to the zero rate).
pub open spec fn spec_effective_global(g: Option<Result<Vec<GlobalRate>, String>>) -> Option<
    Seq<GlobalRate>,
> {
    match g {
        None => None,
        Some(Ok(rates)) => Some(rates@),
        Some(Err(_)) => Some(Seq::empty()),
    }
}

/// The diagnostic lines of the global-rates fetch outcome.
pub open spec fn spec_global_err_lines(g: Option<Result<Vec<GlobalRate>, String>>) -> Seq<
    Seq<char>,
> {
    match g {
        Some(Err(e)) => seq!["Error while trying to get global achievements: "@ + e@],
        _ => Seq::empty(),
    }
}

/// Finds the rate text for `key`: the last matching entry, or the zero
/// rate when none matches.
#[verifier::loop_isolation(false)]
fn lookup_rate<'a>(rates: &'a Vec<GlobalRate>, key: &String) -> (r: &'a str)
    ensures
        r@ == spec_rate_lookup(rates@, key@),
{
    let mut j: usize = rates.len();
    proof {
        assert(rates@.take(j as int) =~= rates@);
    }
    while j > 0
        invariant
            j <= rates@.len(),
            spec_rate_lookup(rates@, key@) == spec_rate_lookup(rates@.take(j as int), key@),
        decreases j,
    {
        j = j - 1;
        proof {
            assert(rates@.take(j + 1 as int).drop_last() =~= rates@.take(j as int));
            assert(rates@.take(j + 1 as int).last() == rates@[j as int]);
        }
        if rates[j].name == *key {
            return rates[j].percent_text.as_str();
        }
    }
    proof {
        assert(rates@.take(0) =~= Seq::<GlobalRate>::empty());
    }
    "0"
}

impl Plugin for ListAchievementsPlugin {
    /// The `achievements` sub-command: one required positional game id
    /// and the `global` and `remaining` flags.
    fn command(&self) -> (r: CommandDescriptor)
        ensures
            r.name@ == "achievements"@,
            r.summary@.len() > 0,
            r.long_help is None,
            r.args@.len() == 3,
            r.args@[0].id@ == "game_id"@,
            r.args@[0].kind == ArgKind::Positional,
            r.args@[0].required,
            r.args@[0].depends_on is None,
            r.args@[1].id@ == "global"@,
            r.args@[1].kind == ArgKind::Flag,
            !r.args@[1].required,
            r.args@[1].depends_on is None,
            r.args@[2].id@ == "remaining"@,
            r.args@[2].kind == ArgKind::Flag,
            !r.args@[2].required,
            r.args@[2].depends_on is None,
    {
        let mut args: Vec<ArgSpec> = Vec::new();
        args.push(
            ArgSpec {
                id: "game_id".to_owned(),
                kind: ArgKind::Positional,
                required: true,
                depends_on: None,
            },
        );
        args.push(
            ArgSpec {
                id: "global".to_owned(),
                kind: ArgKind::Flag,
                required: false,
                depends_on: None,
            },
        );
        args.push(
            ArgSpec {
                id: "remaining".to_owned(),
                kind: ArgKind::Flag,
                required: false,
                depends_on: None,
            },
        );
        proof {
            reveal_strlit(
                "Displays achievements for a specific game. Game id should be provided as an argument",
            );
        }
        CommandDescriptor {
            name: "achievements".to_owned(),
            summary:
                "Displays achievements for a specific game. Game id should be provided as an argument"
                .to_owned(),
            long_help: None,
            args,
        }
    }
}

impl ListAchievementsPlugin {
    /// Renders the achievement list for the given game id argument.
    ///
    /// The caller parses the id first and performs the fetches only when
    /// the id is valid (and the global-rates fetch only when it was
    /// requested), handing in the outcomes; an invalid id is reported on
    /// the diagnostic sink and nothing is fetched. Each failed fetch is
    /// reported on the diagnostic sink and treated as empty data.
    #[verifier::loop_isolation(false)]
    pub fn execute(
        &self,
        game_id_str: &str,
        fetch: Option<Result<(String, Vec<Achievement>), String>>,
        global_fetch: Option<Result<Vec<GlobalRate>, String>>,
        remaining: bool,
        out: &mut Vec<String>,
        err: &mut Vec<String>,
    )
        requires
            fetch is Some <==> spec_parse_game_id(game_id_str@) is Some,
            global_fetch is Some ==> fetch is Some,
            fetch is Some && fetch->0 is Ok ==> forall|i: int|
                0 <= i < (fetch->0->Ok_0.1)@.len() && (fetch->0->Ok_0.1)@[i].achieved > 0
                    ==> (fetch->0->Ok_0.1)@[i].unlocktime <= MAX_UTC_SECS,
        ensures
            fetch is None ==> (lines_view(final(out)@) == lines_view(old(out)@) && lines_view(
                final(err)@,
            ) == lines_view(old(err)@).push("Invalid game id: "@ + game_id_str@)),
            fetch is Some ==> (lines_view(final(out)@) == lines_view(old(out)@) + spec_ach_lines(
                spec_fetched_achs(fetch->0),
                spec_effective_global(global_fetch),
                remaining,
            ) && lines_view(final(err)@) == lines_view(old(err)@) + spec_ach_err_lines(fetch->0)
                + spec_global_err_lines(global_fetch)),
    {
        if parse_game_id(game_id_str).is_none() {
            let mut line = "Invalid game id: ".to_owned();
            line.append(game_id_str);
            proof {
                lemma_lines_view_push(err@, line);
            }
            err.push(line);
            return;
        }

        let mut achievements: Vec<Achievement> = match fetch {
            Some(Ok(f)) => f.1,
            Some(Err(e)) => {
                let mut line = "Error while trying to get achievements: ".to_owned();
                line.append(e.as_str());
                proof {
                    lemma_lines_view_push(err@, line);
                }
                err.push(line);
                Vec::new()
            },
            None => unreached(),
        };
        let global_rates: Option<Vec<GlobalRate>> = match global_fetch {
            None => None,
            Some(Ok(rates)) => Some(rates),
            Some(Err(ge)) => {
                let mut line = "Error while trying to get global achievements: ".to_owned();
                line.append(ge.as_str());
                proof {
                    lemma_lines_view_push(err@, line);
                }
                err.push(line);
                Some(Vec::new())
            },
        };
        assert(lines_view(err@) =~= lines_view(old(err)@) + spec_ach_err_lines(fetch->0)
            + spec_global_err_lines(global_fetch));

        let ghost eff_global = spec_effective_global(global_fetch);
        let ghost all = achievements@;
        let ghost k: int = 0;
        proof {
            reveal_strlit("n");
            assert(!"n"@.contains('t')) by {
                assert(forall|j: int| 0 <= j < "n"@.len() ==> "n"@[j] != 't');
            }
            reveal_strlit("n - s (t)");
        }
        while achievements.len() > 0
            invariant
                0 <= k <= all.len(),
                achievements@ == all.skip(k),
                lines_view(out@) == lines_view(old(out)@) + spec_ach_lines(
                    all.take(k),
                    eff_global,
                    remaining,
                ),
                lines_view(err@) == lines_view(old(err)@) + spec_ach_err_lines(fetch->0)
                    + spec_global_err_lines(global_fetch),
            decreases achievements@.len(),
        {
            assert(all.skip(k)[0] == all[k]);
            let achievement = achievements.remove(0);
            assert(achievement == all[k]);
            assert(achievements@ =~= all.skip(k + 1));

            proof {
                assert(all.take(k + 1).drop_last() =~= all.take(k));
                assert(all.take(k + 1).last() == all[k]);
            }

            if !(remaining && achievement.achieved > 0) {
                let displayable_achievement = DisplayableAchievement { achievement };

                let mut title: String;
                if displayable_achievement.achievement.achieved > 0 {
                    title = displayable_achievement.format("n - s (t)");
                } else {
                    title = displayable_achievement.format("n");
                }

                match &global_rates {
                    None => {},
                    Some(rates) => {
                        title.append(" ");
                        let rate = lookup_rate(rates, &displayable_achievement.achievement.apiname);
                        title.append(rate);
                        title.append("%");
                    },
                }
                assert(title@ == spec_ach_title(all[k], eff_global));

                proof {
                    lemma_lines_view_push(out@, title);
                }
                out.push(title);
                assert(lines_view(out@) =~= lines_view(old(out)@) + spec_ach_lines(
                    all.take(k + 1),
                    eff_global,
                    remaining,
                ));
            } else {
                assert(spec_ach_lines(all.take(k + 1), eff_global, remaining) =~= spec_ach_lines(
                    all.take(k),
                    eff_global,
                    remaining,
                ));
            }
            proof {
                k = k + 1;
            }
        }
        proof {
            assert(all.take(k) =~= all);
        }
    }
}

} // verus!
