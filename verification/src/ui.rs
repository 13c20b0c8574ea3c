//! The pattern renderer: turns a short token string and one data record
//! into an output string.
//!
//! The pattern is walked character by character, left to right, with no
//! escaping and no look-ahead. A recognized token character is replaced
//! by the corresponding field of the record; every other character is
//! copied to the output literally. The renderer is total: an unknown
//! token is not an error, it is literal output.

use vstd::prelude::*;

use crate::constants::MAX_UTC_SECS;
use crate::steam_api::Achievement;
use crate::steam_api::Game;
use crate::text::append_decimal_u64;
use crate::text::append_pad_left;
use crate::text::append_repeat;
use crate::text::push_char;
use crate::text::spec_decimal;
use crate::text::spec_pad_left;
use crate::text::spec_repeat;

verus! {

/// What formatting a Unix timestamp as `YYYY-MM-DD HH:MM:SS` in UTC
/// returns; the result depends on the timestamp value alone.
pub uninterp spec fn utc_datetime_of(epoch: u64) -> Seq<char>;

/// Relies on `chrono::TimeZone::timestamp_opt` for `Utc` and on chrono's
/// `%Y-%m-%d %H:%M:%S` formatting: for seconds up to chrono's last
/// representable calendar year the conversion succeeds, and the text has
/// a year of four to seven characters (zero-padded to four digits; a `+`
/// sign and more digits past year 9999) and two digits for each other
/// field, so 19 to 22 characters in all.
#[verifier::external_body]
fn format_epoch(epoch: u64) -> (r: String)
    requires
        epoch <= MAX_UTC_SECS,
    ensures
        r@ == utc_datetime_of(epoch),
        19 <= r@.len() <= 22,
{
    let ts: i64 = epoch.try_into().unwrap();
    let datetime = chrono::TimeZone::timestamp_opt(&chrono::Utc, ts, 0)
        .single()
        .expect("Invalid Unix timestamp");
    datetime.format("%Y-%m-%d %H:%M:%S").to_string()
}

/// A wrapper around the `Game` struct to provide display formatting.
pub struct DisplayableGame {
    pub game: Game,
}

/// The expansion of one pattern character for a game record: `n` is the
/// game name, `i` the game id in decimal, and anything else itself.
pub open spec fn spec_game_token(c: char, g: Game) -> Seq<char> {
    if c == 'n' {
        g.name@
    } else if c == 'i' {
        spec_decimal(g.appid as int)
    } else {
        seq![c]
    }
}

/// The rendering of the pattern `p` for the game record `g`: the
/// concatenation of the expansions of the pattern's characters.
pub open spec fn spec_render_game(p: Seq<char>, g: Game) -> Seq<char>
    decreases p.len(),
{
    if p.len() == 0 {
        Seq::empty()
    } else {
        spec_render_game(p.drop_last(), g) + spec_game_token(p.last(), g)
    }
}

impl DisplayableGame {
    /// Formats the game record according to `pattern`, replacing each
    /// recognized token character by the matching field and copying every
    /// other character literally.
    #[verifier::loop_isolation(false)]
    pub fn format(&self, pattern: &str) -> (r: String)
        ensures
            r@ == spec_render_game(pattern@, self.game),
    {
        let mut result = String::new();
        let n = pattern.unicode_len();
        let mut i: usize = 0;
        while i < n
            invariant
                i <= n,
                result@ == spec_render_game(pattern@.take(i as int), self.game),
            decreases n - i,
        {
            let c = pattern.get_char(i);
            if c == 'n' {
                result.append(self.game.name.as_str());
            } else if c == 'i' {
                append_decimal_u64(&mut result, self.game.appid as u64);
            } else {
                push_char(&mut result, c);
            }
            proof {
                let p = pattern@;
                assert(p.take(i + 1 as int).drop_last() =~= p.take(i as int));
                assert(p.take(i + 1 as int).last() == p[i as int]);
            }
            i = i + 1;
        }
        proof {
            assert(pattern@.take(n as int) =~= pattern@);
        }
        result
    }
}

/// A wrapper around the `Achievement` struct to provide display formatting.
pub struct DisplayableAchievement {
    pub achievement: Achievement,
}

/// The expansion of one pattern character for an achievement record:
/// `i` is the stable key, `n` the display name, `d` the description,
/// `s` the unlock status as `Y` or `N`, `t` the unlock time as a UTC
/// date and time, and anything else itself.
pub open spec fn spec_ach_token(c: char, a: Achievement) -> Seq<char> {
    if c == 'i' {
        a.apiname@
    } else if c == 'n' {
        a.name@
    } else if c == 'd' {
        a.description@
    } else if c == 's' {
        if a.achieved > 0 {
            seq!['Y']
        } else {
            seq!['N']
        }
    } else if c == 't' {
        utc_datetime_of(a.unlocktime)
    } else {
        seq![c]
    }
}

/// The rendering of the pattern `p` for the achievement record `a`.
pub open spec fn spec_render_ach(p: Seq<char>, a: Achievement) -> Seq<char>
    decreases p.len(),
{
    if p.len() == 0 {
        Seq::empty()
    } else {
        spec_render_ach(p.drop_last(), a) + spec_ach_token(p.last(), a)
    }
}

impl DisplayableAchievement {
    /// Formats the achievement record according to `pattern`, replacing
    /// each recognized token character by the matching field and copying
    /// every other character literally.
    ///
    /// A pattern with the `t` token formats the unlock timestamp even
    /// when the achievement is locked (the Unix epoch date, then), so the
    /// timestamp must lie within the formatter's calendar range.
    #[verifier::loop_isolation(false)]
    pub fn format(&self, pattern: &str) -> (r: String)
        requires
            pattern@.contains('t') ==> self.achievement.unlocktime <= MAX_UTC_SECS,
        ensures
            r@ == spec_render_ach(pattern@, self.achievement),
    {
        let mut result = String::new();
        let n = pattern.unicode_len();
        let mut i: usize = 0;
        while i < n
            invariant
                i <= n,
                result@ == spec_render_ach(pattern@.take(i as int), self.achievement),
            decreases n - i,
        {
            let c = pattern.get_char(i);
            if c == 'i' {
                result.append(self.achievement.apiname.as_str());
            } else if c == 'n' {
                result.append(self.achievement.name.as_str());
            } else if c == 'd' {
                result.append(self.achievement.description.as_str());
            } else if c == 's' {
                if self.achievement.achieved > 0 {
                    push_char(&mut result, 'Y');
                } else {
                    push_char(&mut result, 'N');
                }
            } else if c == 't' {
                assert(pattern@.contains('t'));
                let time = format_epoch(self.achievement.unlocktime);
                result.append(time.as_str());
            } else {
                push_char(&mut result, c);
            }
            proof {
                let p = pattern@;
                assert(p.take(i + 1 as int).drop_last() =~= p.take(i as int));
                assert(p.take(i + 1 as int).last() == p[i as int]);
            }
            i = i + 1;
        }
        proof {
            assert(pattern@.take(n as int) =~= pattern@);
        }
        result
    }

    /// The unlock time of the achievement formatted as `YYYY-MM-DD
    /// HH:MM:SS` in UTC.
    pub fn formatted_unlocktime(&self) -> (r: String)
        requires
            self.achievement.unlocktime <= MAX_UTC_SECS,
        ensures
            r@ == utc_datetime_of(self.achievement.unlocktime),
            19 <= r@.len() <= 22,
    {
        format_epoch(self.achievement.unlocktime)
    }

    /// Renders a card-like representation of the achievement: a box of
    /// the key, the unlock status (`Y` for any positive achieved flag),
    /// and the unlock date, sized to the longest of the key and the
    /// date.
    pub fn render_card(&self) -> (r: String)
        requires
            self.achievement.unlocktime <= MAX_UTC_SECS,
            self.achievement.apiname@.len() <= usize::MAX - 8,
        ensures
            r@ == spec_card(self.achievement),
    {
        let mut card = String::new();
        let unlock_date = self.formatted_unlocktime();

        let apiname_length = self.achievement.apiname.as_str().unicode_len();
        let unlock_length = unlock_date.as_str().unicode_len();

        let longest_length = if apiname_length > unlock_length {
            apiname_length
        } else {
            unlock_length
        };

        let horizontal_line_width = longest_length + 8;
        card.append("\u{250c}");
        append_repeat(&mut card, '\u{2500}', horizontal_line_width);
        card.append("\u{2510}\n");

        card.append("\u{2502} Name: ");
        append_pad_left(&mut card, self.achievement.apiname.as_str(), longest_length);
        card.append(" \u{2502}\n");

        let achieved_width = longest_length - 4;
        card.append("\u{2502} Achieved: ");
        if self.achievement.achieved > 0 {
            append_pad_left(&mut card, "Y", achieved_width);
        } else {
            append_pad_left(&mut card, "N", achieved_width);
        }
        card.append(" \u{2502}\n");

        card.append("\u{2502} Date: ");
        append_pad_left(&mut card, unlock_date.as_str(), longest_length);
        card.append(" \u{2502}\n");

        card.append("\u{2514}");
        append_repeat(&mut card, '\u{2500}', horizontal_line_width);
        card.append("\u{2518}\n");

        assert(card@ =~= spec_card(self.achievement));
        card
    }
}

/// The card rendering of an achievement record: a box drawn around the
/// key, the unlock status and the unlock date, each right-aligned to the
/// longest of the key and the date.
pub open spec fn spec_card(a: Achievement) -> Seq<char> {
    let unlock = utc_datetime_of(a.unlocktime);
    let longest = if a.apiname@.len() > unlock.len() {
        a.apiname@.len() as int
    } else {
        unlock.len() as int
    };
    let status = if a.achieved > 0 {
        "Y"@
    } else {
        "N"@
    };
    "\u{250c}"@ + spec_repeat('\u{2500}', longest + 8) + "\u{2510}\n"@ + "\u{2502} Name: "@
        + spec_pad_left(a.apiname@, longest) + " \u{2502}\n"@ + "\u{2502} Achieved: "@
        + spec_pad_left(status, longest - 4) + " \u{2502}\n"@ + "\u{2502} Date: "@
        + spec_pad_left(unlock, longest) + " \u{2502}\n"@ + "\u{2514}"@ + spec_repeat(
        '\u{2500}',
        longest + 8,
    ) + "\u{2518}\n"@
}

/// A pattern without recognized token characters renders as itself, for
/// any game record.
pub proof fn lemma_render_literal_game(p: Seq<char>, g: Game)
    requires
        forall|k: int| 0 <= k < p.len() ==> p[k] != 'n' && p[k] != 'i',
    ensures
        spec_render_game(p, g) == p,
    decreases p.len(),
{
    if p.len() == 0 {
        assert(spec_render_game(p, g) =~= p);
    } else {
        lemma_render_literal_game(p.drop_last(), g);
        assert(spec_render_game(p, g) =~= p.drop_last() + seq![p.last()]);
        assert(p.drop_last() + seq![p.last()] =~= p);
    }
}

/// A pattern without recognized token characters renders as itself, for
/// any achievement record.
pub proof fn lemma_render_literal_ach(p: Seq<char>, a: Achievement)
    requires
        forall|k: int|
            0 <= k < p.len() ==> p[k] != 'i' && p[k] != 'n' && p[k] != 'd' && p[k] != 's' && p[k]
                != 't',
    ensures
        spec_render_ach(p, a) == p,
    decreases p.len(),
{
    if p.len() == 0 {
        assert(spec_render_ach(p, a) =~= p);
    } else {
        lemma_render_literal_ach(p.drop_last(), a);
        assert(spec_render_ach(p, a) =~= p.drop_last() + seq![p.last()]);
        assert(p.drop_last() + seq![p.last()] =~= p);
    }
}

/// The single-token patterns of a game record render as the record's
/// fields: `i` as the decimal id and `n` as the name.
pub proof fn lemma_render_game_tokens(g: Game)
    ensures
        spec_render_game("i"@, g) == spec_decimal(g.appid as int),
        spec_render_game("n"@, g) == g.name@,
{
    reveal_strlit("i");
    reveal_strlit("n");
    assert("i"@.drop_last() =~= Seq::<char>::empty());
    assert("n"@.drop_last() =~= Seq::<char>::empty());
    assert(spec_render_game(Seq::<char>::empty(), g) == Seq::<char>::empty());
    assert(spec_render_game("i"@, g) =~= spec_decimal(g.appid as int));
    assert(spec_render_game("n"@, g) =~= g.name@);
}

/// The status token `s` renders as `N` for a locked achievement and as
/// `Y` for an unlocked one.
pub proof fn lemma_render_status_token(a: Achievement)
    ensures
        a.achieved == 0 ==> spec_render_ach("s"@, a) == seq!['N'],
        a.achieved > 0 ==> spec_render_ach("s"@, a) == seq!['Y'],
{
    reveal_strlit("s");
    assert("s"@.drop_last() =~= Seq::<char>::empty());
    assert(spec_render_ach(Seq::<char>::empty(), a) == Seq::<char>::empty());
    if a.achieved == 0 {
        assert(spec_render_ach("s"@, a) =~= seq!['N']);
    } else {
        assert(spec_render_ach("s"@, a) =~= seq!['Y']);
    }
}

/// The empty pattern renders as the empty string, for any record.
pub proof fn lemma_render_empty(g: Game, a: Achievement)
    ensures
        spec_render_game(""@, g) == Seq::<char>::empty(),
        spec_render_ach(""@, a) == Seq::<char>::empty(),
{
    reveal_strlit("");
}

/// Rendering is a pure function of the pattern and the game record:
/// identical inputs render identically, however often the renderer runs.
pub proof fn lemma_render_game_deterministic(p1: Seq<char>, g1: Game, p2: Seq<char>, g2: Game)
    requires
        p1 == p2,
        g1 == g2,
    ensures
        spec_render_game(p1, g1) == spec_render_game(p2, g2),
{
}

/// Rendering is a pure function of the pattern and the achievement
/// record: identical inputs render identically.
pub proof fn lemma_render_ach_deterministic(
    p1: Seq<char>,
    a1: Achievement,
    p2: Seq<char>,
    a2: Achievement,
)
    requires
        p1 == p2,
        a1 == a2,
    ensures
        spec_render_ach(p1, a1) == spec_render_ach(p2, a2),
{
}

} // verus!
