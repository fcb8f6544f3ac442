use vstd::prelude::*;

use crate::localization::Localization;
use crate::player_state::{copy_text, opt_view, ChangeKind, PlayerState};
use crate::status::{persona_status, status_from_persona_state, OnlineStatus};
use crate::supervisor::WatcherSupervisor;

verus! {

/// What the Steam loop remembers between its reads: whether an offline read
/// awaits confirmation by the next one, and whether that unconfirmed offline
/// read was already announced (it came with a new game).
#[derive(PartialEq, Eq, Structural, Clone, Copy, Debug)]
pub struct SteamPoller {
    pub offline_pending: bool,
    pub offline_announced: bool,
}

impl SteamPoller {
    /// A poller with nothing pending.
    pub fn new() -> (r: SteamPoller)
        ensures
            !r.offline_pending,
            !r.offline_announced,
    {
        SteamPoller { offline_pending: false, offline_announced: false }
    }
}

/// The tracked status after a Steam read. A read that is not offline is
/// taken as it is. Offline is a low-confidence read from this source: it
/// replaces a status that is not offline only when the read before it was
/// offline too.
pub open spec fn steam_status_after(cur: OnlineStatus, p: SteamPoller, new: OnlineStatus) -> OnlineStatus {
    if new != OnlineStatus::Offline {
        new
    } else if cur != OnlineStatus::Offline && p.offline_pending {
        OnlineStatus::Offline
    } else {
        cur
    }
}

/// Whether a Steam read changes the tracked game. A read without a game is
/// ambiguous and changes nothing.
pub open spec fn steam_game_changed(cur: Option<Seq<char>>, new: Option<Seq<char>>) -> bool {
    new.is_some() && new != cur
}

/// The tracked game after a Steam read.
pub open spec fn steam_game_after(cur: Option<Seq<char>>, new: Option<Seq<char>>) -> Option<
    Seq<char>,
> {
    if new.is_some() {
        new
    } else {
        cur
    }
}

/// The poller after a Steam read: an offline read that meets a status that
/// is not offline, and confirms no earlier one, becomes pending; it counts as
/// announced when it came with a new game.
pub open spec fn steam_poller_after(
    cur: OnlineStatus,
    p: SteamPoller,
    new: OnlineStatus,
    game_changed: bool,
) -> SteamPoller {
    let pending = new == OnlineStatus::Offline && cur != OnlineStatus::Offline
        && !p.offline_pending;
    SteamPoller { offline_pending: pending, offline_announced: pending && game_changed }
}

/// Whether a Steam read leads to a notification: the tracked game changes,
/// or the tracked status changes, except when it confirms an offline read
/// that was already announced.
pub open spec fn steam_sends(
    cur: OnlineStatus,
    p: SteamPoller,
    game: Option<Seq<char>>,
    new_status: OnlineStatus,
    new_game: Option<Seq<char>>,
) -> bool {
    (steam_status_after(cur, p, new_status) != cur && !(new_status == OnlineStatus::Offline
        && p.offline_announced)) || steam_game_changed(game, new_game)
}

/// The Steam notification: "<name> <status> <plays> <game> <on Steam>" when
/// the game changed, "<name> <status> <on Steam>" otherwise.
pub open spec fn steam_text(
    loc: Localization,
    status: OnlineStatus,
    game: Option<Seq<char>>,
    game_changed: bool,
) -> Seq<char> {
    if game_changed {
        loc.target_name@ + seq![' '] + loc.label(status) + seq![' '] + loc.plays@ + seq![' ']
            + game.unwrap() + seq![' '] + loc.on_steam@
    } else {
        loc.target_name@ + seq![' '] + loc.label(status) + seq![' '] + loc.on_steam@
    }
}

/// What a Steam summary reports: the status of its persona-state code and the
/// game it names, if any.
pub fn steam_reading(persona_state: i64, game: Option<String>) -> (r: PlayerState)
    ensures
        r.status == persona_status(persona_state as int),
        r.game == game,
{
    PlayerState { status: status_from_persona_state(persona_state), game }
}

/// One player entry of a Steam summary.
pub struct SteamPlayer {
    pub personastate: i64,
    pub gameextrainfo: Option<String>,
}

/// The read that a Steam summary gives: that of its first player, or none
/// when it lists no player.
pub fn first_reading(players: &Vec<SteamPlayer>) -> (r: Option<PlayerState>)
    ensures
        r.is_some() == (players@.len() > 0),
        r.is_some() ==> r.unwrap().status == persona_status(players@[0].personastate as int)
            && r.unwrap().game == players@[0].gameextrainfo,
{
    if players.len() == 0 {
        return None;
    }
    let p = &players[0];
    Some(steam_reading(p.personastate, copy_text(&p.gameextrainfo)))
}

/// Reconciles one Steam read with the tracked state, in one critical section.
/// Returns the text to send, naming the status read, when the rules above
/// call for one; the new values are committed either way.
pub fn steam_tick(
    poller: &mut SteamPoller,
    state: &mut PlayerState,
    reading: &PlayerState,
    loc: &Localization,
) -> (r: Option<String>)
    ensures
        final(state).status == steam_status_after(old(state).status, *old(poller), reading.status),
        *final(poller) == steam_poller_after(
            old(state).status,
            *old(poller),
            reading.status,
            steam_game_changed(opt_view(old(state).game), opt_view(reading.game)),
        ),
        opt_view(final(state).game) == steam_game_after(
            opt_view(old(state).game),
            opt_view(reading.game),
        ),
        r.is_some() == steam_sends(
            old(state).status,
            *old(poller),
            opt_view(old(state).game),
            reading.status,
            opt_view(reading.game),
        ),
        r.is_some() ==> r.unwrap()@ == steam_text(
            *loc,
            reading.status,
            opt_view(reading.game),
            steam_game_changed(opt_view(old(state).game), opt_view(reading.game)),
        ),
{
    let cur = state.status;
    let pending = poller.offline_pending;
    let announced = poller.offline_announced;
    let read_offline = reading.status == OnlineStatus::Offline;
    let new_status = if !read_offline {
        reading.status
    } else if cur != OnlineStatus::Offline && pending {
        OnlineStatus::Offline
    } else {
        cur
    };
    let new_game = match &reading.game {
        Some(g) => Some(g.clone()),
        None => copy_text(&state.game),
    };
    let kind = state.compare_and_update(new_status, new_game);
    let game_changed = kind.is_game_change();
    let now_pending = read_offline && cur != OnlineStatus::Offline && !pending;
    poller.offline_pending = now_pending;
    poller.offline_announced = now_pending && game_changed;
    let status_announced = new_status != cur && !(read_offline && announced);
    if !status_announced && !game_changed {
        return None;
    }
    proof {
        reveal_strlit(" ");
    }
    let mut s = loc.target_name.clone();
    s.append(" ");
    s.append(loc.status_label(reading.status).as_str());
    s.append(" ");
    if game_changed {
        match &reading.game {
            Some(g) => {
                s.append(loc.plays.as_str());
                s.append(" ");
                s.append(g.as_str());
                s.append(" ");
            },
            None => {},
        }
    }
    s.append(loc.on_steam.as_str());
    assert(s@ =~= steam_text(
        *loc,
        reading.status,
        opt_view(reading.game),
        steam_game_changed(opt_view(old(state).game), opt_view(reading.game)),
    ));
    Some(s)
}

/// Commits a Steam read fetched by a loop of generation `generation`. A read
/// from a loop that the supervisor has retired is discarded: the state and
/// the poller stay as they were and nothing is sent.
pub fn steam_commit(
    supervisor: &WatcherSupervisor,
    generation: u64,
    poller: &mut SteamPoller,
    state: &mut PlayerState,
    reading: &PlayerState,
    loc: &Localization,
) -> (r: Option<String>)
    ensures
        !supervisor.admits(generation) ==> r.is_none() && *final(state) == *old(state)
            && *final(poller) == *old(poller),
        supervisor.admits(generation) ==> {
            &&& final(state).status == steam_status_after(
                old(state).status,
                *old(poller),
                reading.status,
            )
            &&& *final(poller) == steam_poller_after(
                old(state).status,
                *old(poller),
                reading.status,
                steam_game_changed(opt_view(old(state).game), opt_view(reading.game)),
            )
            &&& opt_view(final(state).game) == steam_game_after(
                opt_view(old(state).game),
                opt_view(reading.game),
            )
            &&& r.is_some() == steam_sends(
                old(state).status,
                *old(poller),
                opt_view(old(state).game),
                reading.status,
                opt_view(reading.game),
            )
            &&& r.is_some() ==> r.unwrap()@ == steam_text(
                *loc,
                reading.status,
                opt_view(reading.game),
                steam_game_changed(opt_view(old(state).game), opt_view(reading.game)),
            )
        },
{
    if !supervisor.is_current(generation) {
        return None;
    }
    steam_tick(poller, state, reading, loc)
}

/// Reconciling the same read twice in a row sends at most once: two racing
/// ticks that report one status and game do not both announce.
pub proof fn steam_repeat_sends_at_most_once(
    cur: OnlineStatus,
    p: SteamPoller,
    game: Option<Seq<char>>,
    new_status: OnlineStatus,
    new_game: Option<Seq<char>>,
)
    ensures
        !(steam_sends(cur, p, game, new_status, new_game) && steam_sends(
            steam_status_after(cur, p, new_status),
            steam_poller_after(cur, p, new_status, steam_game_changed(game, new_game)),
            steam_game_after(game, new_game),
            new_status,
            new_game,
        )),
{
}

/// An offline read replaces a status that is not offline once the next read
/// is offline too.
pub proof fn steam_offline_confirmed_by_next_read(cur: OnlineStatus, p: SteamPoller, changed: bool)
    ensures
        steam_status_after(
            steam_status_after(cur, p, OnlineStatus::Offline),
            steam_poller_after(cur, p, OnlineStatus::Offline, changed),
            OnlineStatus::Offline,
        ) == OnlineStatus::Offline,
{
}

} // verus!
