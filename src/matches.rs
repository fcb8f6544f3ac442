use vstd::prelude::*;

use std::collections::HashMap;

use crate::localization::Localization;
use crate::text::{append_decimal, decimal};

verus! {

broadcast use vstd::std_specs::hash::group_hash_axioms;

/// One entry of the hero catalog.
pub struct Hero {
    pub id: i64,
    pub localized_name: String,
}

/// One finished match of the watched player.
#[derive(PartialEq, Eq, Structural, Clone, Copy, Debug)]
pub struct MatchData {
    pub match_id: i64,
    pub player_slot: i64,
    pub radiant_win: bool,
    pub hero_id: i64,
    pub duration: i64,
    pub kills: i64,
    pub deaths: i64,
    pub assists: i64,
}

/// Whether the player won: slots below five play for the radiant side.
pub open spec fn won(player_slot: int, radiant_win: bool) -> bool {
    radiant_win == (player_slot < 5)
}

/// Whole minutes of a duration in seconds, truncated toward zero.
pub open spec fn whole_minutes(seconds: int) -> int {
    if seconds >= 0 {
        seconds / 60
    } else {
        -((-seconds) / 60)
    }
}

/// Whether the player won the match.
pub fn is_win(m: &MatchData) -> (r: bool)
    ensures
        r == won(m.player_slot as int, m.radiant_win),
{
    m.radiant_win == (m.player_slot < 5)
}

/// Whole minutes of a duration in seconds, truncated toward zero.
pub fn duration_minutes(seconds: i64) -> (r: i64)
    ensures
        r == whole_minutes(seconds as int),
{
    if seconds >= 0 {
        seconds / 60
    } else {
        let magnitude: u64 = ((-(seconds + 1)) as u64) + 1;
        -((magnitude / 60) as i64)
    }
}

/// The catalog that a list of heroes builds: a later entry replaces an earlier
/// one with the same id.
pub open spec fn catalog_of(entries: Seq<Hero>) -> Map<i64, String>
    decreases entries.len(),
{
    if entries.len() == 0 {
        Map::empty()
    } else {
        let last = entries.last();
        catalog_of(entries.drop_last()).insert(last.id, last.localized_name)
    }
}

/// Display names of heroes by id.
pub struct HeroCatalog {
    pub heroes: HashMap<i64, String>,
}

impl HeroCatalog {
    /// The name of hero `id`, if the catalog holds it.
    pub open spec fn name_of(&self, id: i64) -> Option<Seq<char>> {
        if self.heroes@.contains_key(id) {
            Some(self.heroes@[id]@)
        } else {
            None
        }
    }

    /// Builds the catalog from a list of heroes.
    pub fn from_entries(entries: &Vec<Hero>) -> (r: HeroCatalog)
        ensures
            r.heroes@ == catalog_of(entries@),
    {
        let mut heroes: HashMap<i64, String> = HashMap::new();
        let mut i: usize = 0;
        while i < entries.len()
            invariant
                i <= entries@.len(),
                heroes@ == catalog_of(entries@.subrange(0, i as int)),
            decreases entries@.len() - i,
        {
            let e = &entries[i];
            heroes.insert(e.id, e.localized_name.clone());
            proof {
                let next = entries@.subrange(0, i + 1);
                assert(next.drop_last() =~= entries@.subrange(0, i as int));
                assert(next.last() == entries@[i as int]);
            }
            i = i + 1;
        }
        assert(entries@.subrange(0, entries@.len() as int) =~= entries@);
        HeroCatalog { heroes }
    }

    /// Looks up the name of hero `id`.
    pub fn lookup(&self, id: i64) -> (r: Option<&String>)
        ensures
            match r {
                Some(n) => self.name_of(id) == Some(n@),
                None => self.name_of(id) == None::<Seq<char>>,
            },
    {
        self.heroes.get(&id)
    }
}

/// The announcement of a match: outcome, hero (left out when the catalog
/// lacks it), score and duration in whole minutes.
pub open spec fn match_text(loc: Localization, m: MatchData, hero: Option<Seq<char>>) -> Seq<char> {
    loc.target_name@ + seq![' '] + (if won(m.player_slot as int, m.radiant_win) {
        loc.won@
    } else {
        loc.lost@
    }) + seq!['.', ' '] + (match hero {
        Some(h) => loc.played_on@ + seq![' '] + h + seq![' '],
        None => Seq::empty(),
    }) + loc.with_score@ + seq![' '] + decimal(m.kills as int) + seq![',', ' '] + decimal(
        m.deaths as int,
    ) + seq![',', ' '] + decimal(m.assists as int) + seq!['.', ' '] + loc.match_duration@ + seq![
        ' ',
    ] + decimal(whole_minutes(m.duration as int)) + seq![' '] + loc.minutes@ + seq!['.']
}

/// Composes the announcement of a match.
pub fn compose_match_text(loc: &Localization, m: &MatchData, heroes: &HeroCatalog) -> (r: String)
    ensures
        r@ == match_text(*loc, *m, heroes.name_of(m.hero_id)),
{
    proof {
        reveal_strlit(" ");
        reveal_strlit(". ");
        reveal_strlit(", ");
        reveal_strlit(".");
    }
    let mut s = loc.target_name.clone();
    s.append(" ");
    if is_win(m) {
        s.append(loc.won.as_str());
    } else {
        s.append(loc.lost.as_str());
    }
    s.append(". ");
    match heroes.lookup(m.hero_id) {
        Some(h) => {
            s.append(loc.played_on.as_str());
            s.append(" ");
            s.append(h.as_str());
            s.append(" ");
        },
        None => {},
    }
    s.append(loc.with_score.as_str());
    s.append(" ");
    append_decimal(&mut s, m.kills);
    s.append(", ");
    append_decimal(&mut s, m.deaths);
    s.append(", ");
    append_decimal(&mut s, m.assists);
    s.append(". ");
    s.append(loc.match_duration.as_str());
    s.append(" ");
    append_decimal(&mut s, duration_minutes(m.duration));
    s.append(" ");
    s.append(loc.minutes.as_str());
    s.append(".");
    assert(s@ =~= match_text(*loc, *m, heroes.name_of(m.hero_id)));
    s
}

/// The cursor after a poll: the id of the newest match, once there is one.
pub open spec fn cursor_after(cursor: Option<i64>, matches: Seq<MatchData>) -> Option<i64> {
    if matches.len() == 0 {
        cursor
    } else {
        Some(matches[0].match_id)
    }
}

/// Whether a poll announces its newest match: the cursor is seeded and holds
/// another id. The first poll only seeds the cursor.
pub open spec fn announces(cursor: Option<i64>, matches: Seq<MatchData>) -> bool {
    matches.len() > 0 && cursor.is_some() && cursor.unwrap() != matches[0].match_id
}

/// The decisions of the match-polling loop: the cursor of the last match
/// seen (`None` until the first poll seeds it) and the hero catalog, fetched
/// once when first needed.
pub struct MatchPoller {
    pub cursor: Option<i64>,
    pub heroes: Option<HeroCatalog>,
}

impl MatchPoller {
    /// A poller with an unseeded cursor and no catalog.
    pub fn new() -> (r: MatchPoller)
        ensures
            r.cursor == None::<i64>,
            r.heroes.is_none(),
    {
        MatchPoller { cursor: None, heroes: None }
    }

    /// Whether the hero catalog must be fetched before matches are handled.
    pub fn needs_heroes(&self) -> (r: bool)
        ensures
            r == self.heroes.is_none(),
    {
        self.heroes.is_none()
    }

    /// Stores a fetched hero catalog, unless one is held already: the
    /// catalog is fetched once and kept for the process lifetime.
    pub fn set_heroes(&mut self, entries: &Vec<Hero>)
        ensures
            final(self).cursor == old(self).cursor,
            old(self).heroes.is_some() ==> final(self).heroes == old(self).heroes,
            old(self).heroes.is_none() ==> final(self).heroes.is_some()
                && final(self).heroes.unwrap().heroes@ == catalog_of(entries@),
    {
        if self.heroes.is_none() {
            self.heroes = Some(HeroCatalog::from_entries(entries));
        }
    }

    /// Handles a fetched list of recent matches, newest first. Without a
    /// catalog the tick is skipped and the cursor stays. Otherwise the cursor
    /// moves to the newest match, and its announcement is returned when the
    /// cursor was seeded with another id.
    pub fn on_matches(&mut self, matches: &Vec<MatchData>, loc: &Localization) -> (r: Option<
        String,
    >)
        ensures
            old(self).heroes.is_none() ==> r.is_none() && final(self).cursor == old(self).cursor,
            final(self).heroes == old(self).heroes,
            old(self).heroes.is_some() ==> {
                &&& final(self).cursor == cursor_after(old(self).cursor, matches@)
                &&& r.is_some() == announces(old(self).cursor, matches@)
                &&& r.is_some() ==> r.unwrap()@ == match_text(
                    *loc,
                    matches@[0],
                    old(self).heroes.unwrap().name_of(matches@[0].hero_id),
                )
            },
    {
        let heroes = match &self.heroes {
            Some(h) => h,
            None => return None,
        };
        if matches.len() == 0 {
            return None;
        }
        let newest = &matches[0];
        match self.cursor {
            None => {
                self.cursor = Some(newest.match_id);
                None
            },
            Some(seen) => {
                if seen == newest.match_id {
                    None
                } else {
                    let text = compose_match_text(loc, newest, heroes);
                    self.cursor = Some(newest.match_id);
                    Some(text)
                }
            },
        }
    }
}

/// The match that seeds an unseeded cursor is never announced: neither by the
/// poll that seeds it nor by a later poll whose newest match is still that one.
pub proof fn seeding_match_never_announced(first: Seq<MatchData>, later: Seq<MatchData>)
    requires
        first.len() > 0,
        later.len() > 0 ==> later[0].match_id == first[0].match_id,
    ensures
        !announces(None, first),
        cursor_after(None, first) == Some(first[0].match_id),
        !announces(cursor_after(None, first), later),
        cursor_after(cursor_after(None, first), later) == cursor_after(None, first),
{
}

} // verus!
