use vstd::prelude::*;

use crate::localization::Localization;
use crate::player_state::{copy_text, opt_view, Claim, LastNotification, PlayerState};
use crate::status::{Device, OnlineStatus};

verus! {

/// The kind of a pushed activity.
#[derive(PartialEq, Eq, Structural, Clone, Copy, Debug)]
pub enum ActivityKind {
    Playing,
    Streaming,
    Listening,
    Watching,
    Custom,
    Competing,
    Other,
}

/// One activity of a pushed presence.
pub struct Activity {
    pub kind: ActivityKind,
    pub name: String,
    pub details: Option<String>,
    pub large_text: Option<String>,
    pub small_text: Option<String>,
}

/// The per-device statuses of a pushed presence.
#[derive(PartialEq, Eq, Structural, Clone, Copy, Debug)]
pub struct ClientStatus {
    pub desktop: Option<OnlineStatus>,
    pub mobile: Option<OnlineStatus>,
    pub web: Option<OnlineStatus>,
}

/// A presence notification pushed by the gateway.
pub struct PresenceEvent {
    pub guild_id: Option<u64>,
    pub user_id: u64,
    pub status: OnlineStatus,
    pub client_status: Option<ClientStatus>,
    pub activities: Vec<Activity>,
}

/// The guild and user whose presence is watched.
#[derive(PartialEq, Eq, Structural, Clone, Copy, Debug)]
pub struct WatchTarget {
    pub guild_id: u64,
    pub user_id: u64,
}

impl WatchTarget {
    /// Whether a chat message was written by the watched user, who then gets
    /// a reaction.
    pub fn is_author(&self, author_id: u64) -> (r: bool)
        ensures
            r == (author_id == self.user_id),
    {
        author_id == self.user_id
    }
}

/// Whether an event concerns the watched user in the watched guild.
pub open spec fn is_target(e: PresenceEvent, t: WatchTarget) -> bool {
    e.guild_id == Some(t.guild_id) && e.user_id == t.user_id
}

/// The device whose status is shown: phone, then browser, then computer; the
/// first one present wins.
pub open spec fn device_choice(cs: Option<ClientStatus>) -> Option<(Device, OnlineStatus)> {
    match cs {
        Some(c) => if c.mobile.is_some() {
            Some((Device::Phone, c.mobile.unwrap()))
        } else if c.web.is_some() {
            Some((Device::Browser, c.web.unwrap()))
        } else if c.desktop.is_some() {
            Some((Device::Computer, c.desktop.unwrap()))
        } else {
            None
        },
        None => None,
    }
}

/// The name an activity is announced under: the detail text of a custom
/// status, the activity's name otherwise.
pub open spec fn activity_name(a: Activity) -> Option<Seq<char>> {
    if a.kind == ActivityKind::Custom {
        opt_view(a.details)
    } else {
        Some(a.name@)
    }
}

/// The secondary line of an activity: none for a custom status.
pub open spec fn activity_detail(a: Activity) -> Option<Seq<char>> {
    if a.kind == ActivityKind::Custom {
        None
    } else {
        opt_view(a.details)
    }
}

/// The game an event reports: the name of its first activity, if any.
pub open spec fn candidate_game(e: PresenceEvent) -> Option<Seq<char>> {
    if e.activities@.len() == 0 {
        None
    } else {
        activity_name(e.activities@[0])
    }
}

/// A line break and the text, or nothing when the text is absent or empty.
pub open spec fn field_line(f: Option<Seq<char>>) -> Seq<char> {
    match f {
        Some(t) => if t.len() > 0 {
            seq!['\n'] + t
        } else {
            Seq::empty()
        },
        None => Seq::empty(),
    }
}

/// The status words of an event, with the device words when a device reported.
pub open spec fn status_part(loc: Localization, e: PresenceEvent) -> Seq<char> {
    match device_choice(e.client_status) {
        Some((d, s)) => loc.label(s) + loc.device_word(d),
        None => loc.label(e.status),
    }
}

/// " <plays> <game>", or nothing when there is no game to name.
pub open spec fn game_clause(loc: Localization, g: Option<Seq<char>>) -> Seq<char> {
    match g {
        Some(t) => if t.len() > 0 {
            seq![' '] + loc.plays@ + seq![' '] + t
        } else {
            Seq::empty()
        },
        None => Seq::empty(),
    }
}

/// The detail, large-caption and small-caption lines of an event's first activity.
pub open spec fn detail_lines(e: PresenceEvent) -> Seq<char> {
    if e.activities@.len() == 0 {
        Seq::empty()
    } else {
        let a = e.activities@[0];
        field_line(activity_detail(a)) + field_line(opt_view(a.large_text)) + field_line(
            opt_view(a.small_text),
        )
    }
}

/// The notification text for an event.
pub open spec fn presence_text(loc: Localization, e: PresenceEvent) -> Seq<char> {
    loc.target_name@ + seq![' '] + status_part(loc, e) + game_clause(loc, candidate_game(e))
        + detail_lines(e)
}

/// The tracked game after an event.
pub open spec fn game_after(game: Option<Seq<char>>, e: PresenceEvent, t: WatchTarget) -> Option<
    Seq<char>,
> {
    if is_target(e, t) {
        candidate_game(e)
    } else {
        game
    }
}

/// Whether an event may lead to a notification: it concerns the target and
/// reports a game other than the tracked one.
pub open spec fn may_send(game: Option<Seq<char>>, e: PresenceEvent, t: WatchTarget) -> bool {
    is_target(e, t) && candidate_game(e) != game
}

/// Picks the device whose status is shown.
pub fn pick_device(cs: &Option<ClientStatus>) -> (r: Option<(Device, OnlineStatus)>)
    ensures
        r == device_choice(*cs),
{
    match cs {
        Some(c) => {
            if let Some(s) = c.mobile {
                Some((Device::Phone, s))
            } else if let Some(s) = c.web {
                Some((Device::Browser, s))
            } else if let Some(s) = c.desktop {
                Some((Device::Computer, s))
            } else {
                None
            }
        },
        None => None,
    }
}

/// The name an activity is announced under.
pub fn announced_name(a: &Activity) -> (r: Option<String>)
    ensures
        opt_view(r) == activity_name(*a),
{
    if a.kind == ActivityKind::Custom {
        copy_text(&a.details)
    } else {
        Some(a.name.clone())
    }
}

fn append_line(s: &mut String, f: &Option<String>)
    ensures
        final(s)@ == old(s)@ + field_line(opt_view(*f)),
{
    proof {
        reveal_strlit("\n");
    }
    match f {
        Some(t) => {
            if !t.as_str().is_empty() {
                s.append("\n");
                s.append(t.as_str());
            }
            assert(final(s)@ =~= old(s)@ + field_line(opt_view(*f)));
        },
        None => {
            assert(final(s)@ =~= old(s)@ + field_line(opt_view(*f)));
        },
    }
}

/// Composes the notification text for an event.
pub fn compose_presence_text(loc: &Localization, event: &PresenceEvent) -> (r: String)
    ensures
        r@ == presence_text(*loc, *event),
{
    proof {
        reveal_strlit(" ");
    }
    let mut s = loc.target_name.clone();
    s.append(" ");
    match pick_device(&event.client_status) {
        Some((d, st)) => {
            s.append(loc.status_label(st).as_str());
            s.append(loc.device_label(d).as_str());
        },
        None => {
            s.append(loc.status_label(event.status).as_str());
        },
    }
    assert(s@ =~= loc.target_name@ + seq![' '] + status_part(*loc, *event));
    let ghost head = s@;
    if event.activities.len() > 0 {
        let a = &event.activities[0];
        let name = announced_name(a);
        match &name {
            Some(g) => {
                if !g.as_str().is_empty() {
                    s.append(" ");
                    s.append(loc.plays.as_str());
                    s.append(" ");
                    s.append(g.as_str());
                }
            },
            None => {},
        }
        assert(s@ =~= head + game_clause(*loc, candidate_game(*event)));
        let ghost with_game = s@;
        if a.kind != ActivityKind::Custom {
            append_line(&mut s, &a.details);
        }
        assert(s@ =~= with_game + field_line(activity_detail(*a)));
        append_line(&mut s, &a.large_text);
        append_line(&mut s, &a.small_text);
        assert(s@ =~= presence_text(*loc, *event));
    } else {
        assert(s@ =~= presence_text(*loc, *event));
    }
    s
}

/// Handles one pushed presence event.
///
/// Events for another guild or user are ignored. For the watched user the
/// status and game are recorded; when the game is the one already tracked
/// nothing is announced. Otherwise the composed text is returned for sending,
/// unless it equals the last text sent; a returned text has become the last
/// text sent, and the claim carries the last text before it, for the caller
/// to put back with `LastNotification::release` when the send fails.
pub fn handle_presence(
    state: &mut PlayerState,
    last: &mut LastNotification,
    event: &PresenceEvent,
    target: &WatchTarget,
    loc: &Localization,
) -> (r: Option<Claim>)
    ensures
        !is_target(*event, *target) ==> *final(state) == *old(state),
        is_target(*event, *target) ==> final(state).status == event.status,
        opt_view(final(state).game) == game_after(opt_view(old(state).game), *event, *target),
        r.is_some() == (may_send(opt_view(old(state).game), *event, *target) && opt_view(
            old(last).text,
        ) != Some(presence_text(*loc, *event))),
        r.is_some() ==> {
            &&& r.unwrap().text@ == presence_text(*loc, *event)
            &&& final(last).text == Some(r.unwrap().text)
            &&& r.unwrap().previous == old(last).text
        },
        r.is_none() ==> *final(last) == *old(last),
{
    let for_target = match event.guild_id {
        Some(g) => g == target.guild_id && event.user_id == target.user_id,
        None => false,
    };
    if !for_target {
        return None;
    }
    let candidate = if event.activities.len() == 0 {
        None
    } else {
        announced_name(&event.activities[0])
    };
    let kind = state.compare_and_update(event.status, candidate);
    if !kind.is_game_change() {
        return None;
    }
    let text = compose_presence_text(loc, event);
    let previous = copy_text(&last.text);
    if last.claim(&text) {
        Some(Claim { text, previous })
    } else {
        None
    }
}

/// How many events of a sequence may lead to a notification, starting from
/// the tracked game `game`.
pub open spec fn sends_in(game: Option<Seq<char>>, events: Seq<PresenceEvent>, t: WatchTarget) -> nat
    decreases events.len(),
{
    if events.len() == 0 {
        0
    } else {
        (if may_send(game, events[0], t) {
            1nat
        } else {
            0nat
        }) + sends_in(game_after(game, events[0], t), events.drop_first(), t)
    }
}

proof fn lemma_no_sends_once_tracked(
    g: Option<Seq<char>>,
    events: Seq<PresenceEvent>,
    t: WatchTarget,
)
    requires
        forall|i: int| 0 <= i < events.len() ==> candidate_game(#[trigger] events[i]) == g,
    ensures
        sends_in(g, events, t) == 0,
    decreases events.len(),
{
    if events.len() > 0 {
        assert(candidate_game(events[0]) == g);
        assert forall|i: int| 0 <= i < events.drop_first().len() implies candidate_game(
            #[trigger] events.drop_first()[i],
        ) == g by {
            assert(events.drop_first()[i] == events[i + 1]);
        }
        lemma_no_sends_once_tracked(g, events.drop_first(), t);
    }
}

/// Repeated events that report the same game lead to at most one
/// notification, whatever game was tracked before them.
pub proof fn presence_repetition_sends_at_most_once(
    game: Option<Seq<char>>,
    g: Option<Seq<char>>,
    events: Seq<PresenceEvent>,
    t: WatchTarget,
)
    requires
        forall|i: int| 0 <= i < events.len() ==> candidate_game(#[trigger] events[i]) == g,
    ensures
        sends_in(game, events, t) <= 1,
        events.len() > 0 && is_target(events[0], t) ==> sends_in(
            game_after(game, events[0], t),
            events.drop_first(),
            t,
        ) == 0,
    decreases events.len(),
{
    if events.len() > 0 {
        assert(candidate_game(events[0]) == g);
        assert forall|i: int| 0 <= i < events.drop_first().len() implies candidate_game(
            #[trigger] events.drop_first()[i],
        ) == g by {
            assert(events.drop_first()[i] == events[i + 1]);
        }
        if is_target(events[0], t) {
            lemma_no_sends_once_tracked(g, events.drop_first(), t);
        } else {
            presence_repetition_sends_at_most_once(game, g, events.drop_first(), t);
        }
    }
}

} // verus!
