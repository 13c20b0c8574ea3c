//! The decision core of the interactive game selector: how a key press
//! changes the name filter, and which games the filter keeps. The
//! terminal loop around it (raw mode, key events, redrawing) is the
//! caller's job.

use vstd::prelude::*;

use crate::steam_api::Game;
use crate::text::contains_case_insensitive;
use crate::text::lower_of;
use crate::text::pop_char;
use crate::text::push_char;
use crate::text::spec_contains;

verus! {

/// A key press, reduced to what the selector reacts to.
#[derive(Debug, Clone, Copy, PartialEq, Eq, Structural)]
pub enum KeyInput {
    /// A printable character was typed.
    Char(char),
    /// The last character is to be removed.
    Backspace,
    /// The selection is finished.
    Enter,
    /// The selection is abandoned.
    Escape,
    /// Any other key; ignored.
    Other,
}

/// Applies one key press to the name filter: a typed character is
/// appended, backspace removes the last character (of an empty filter it
/// removes nothing), enter and escape end the loop, and any other key
/// changes nothing. Returns whether the loop is over.
pub fn select_game_step(name_filter: &mut String, key: KeyInput) -> (done: bool)
    ensures
        key matches KeyInput::Char(c) ==> final(name_filter)@ == old(name_filter)@ + seq![c]
            && !done,
        key == KeyInput::Backspace && old(name_filter)@.len() > 0 ==> final(name_filter)@ == old(
            name_filter,
        )@.drop_last() && !done,
        key == KeyInput::Backspace && old(name_filter)@.len() == 0 ==> final(name_filter)@ == old(
            name_filter,
        )@ && !done,
        key == KeyInput::Enter || key == KeyInput::Escape ==> final(name_filter)@ == old(
            name_filter,
        )@ && done,
        key == KeyInput::Other ==> final(name_filter)@ == old(name_filter)@ && !done,
{
    match key {
        KeyInput::Char(c) => {
            push_char(name_filter, c);
            false
        },
        KeyInput::Backspace => {
            pop_char(name_filter);
            false
        },
        KeyInput::Enter => true,
        KeyInput::Escape => true,
        KeyInput::Other => false,
    }
}

/// The games whose lowercase name contains the lowercase filter text, in
/// their original order.
pub open spec fn spec_filter_games(games: Seq<Game>, filter: Seq<char>) -> Seq<Game>
    decreases games.len(),
{
    if games.len() == 0 {
        Seq::empty()
    } else {
        spec_filter_games(games.drop_last(), filter) + if spec_contains(
            lower_of(games.last().name@),
            lower_of(filter),
        ) {
            seq![games.last()]
        } else {
            Seq::empty()
        }
    }
}

/// Keeps the games whose name contains the filter text, both compared in
/// lowercase, preserving order.
#[verifier::loop_isolation(false)]
pub fn filter_games(games: Vec<Game>, name_filter: &str) -> (r: Vec<Game>)
    ensures
        r@ == spec_filter_games(games@, name_filter@),
{
    let ghost all = games@;
    let mut games = games;
    let mut kept: Vec<Game> = Vec::new();
    let ghost k: int = 0;
    proof {
        assert(all.take(0) =~= Seq::<Game>::empty());
    }
    while games.len() > 0
        invariant
            0 <= k <= all.len(),
            games@ == all.skip(k),
            kept@ == spec_filter_games(all.take(k), name_filter@),
        decreases games@.len(),
    {
        assert(all.skip(k)[0] == all[k]);
        let g = games.remove(0);
        assert(g == all[k]);
        assert(games@ =~= all.skip(k + 1));
        proof {
            assert(all.take(k + 1).drop_last() =~= all.take(k));
            assert(all.take(k + 1).last() == all[k]);
        }
        if contains_case_insensitive(g.name.as_str(), name_filter) {
            kept.push(g);
            assert(kept@ =~= spec_filter_games(all.take(k + 1), name_filter@));
        } else {
            assert(kept@ =~= spec_filter_games(all.take(k + 1), name_filter@));
        }
        proof {
            k = k + 1;
        }
    }
    proof {
        assert(all.take(k) =~= all);
    }
    kept
}

} // verus!
