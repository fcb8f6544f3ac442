use vstd::prelude::*;

use crate::status::OnlineStatus;

verus! {

/// The text of an optional string, as a sequence of characters.
pub open spec fn opt_view(s: Option<String>) -> Option<Seq<char>> {
    match s {
        Some(t) => Some(t@),
        None => None,
    }
}

/// Whether two optional strings hold the same text.
pub fn same_text(a: &Option<String>, b: &Option<String>) -> (r: bool)
    ensures
        r == (opt_view(*a) == opt_view(*b)),
{
    match (a, b) {
        (Some(x), Some(y)) => *x == *y,
        (None, None) => true,
        _ => false,
    }
}

/// Copies an optional string.
pub fn copy_text(a: &Option<String>) -> (r: Option<String>)
    ensures
        r == *a,
{
    match a {
        Some(x) => Some(x.clone()),
        None => None,
    }
}

/// What a comparison of the tracked state with a new observation found.
#[derive(PartialEq, Eq, Structural, Clone, Copy, Debug)]
pub enum ChangeKind {
    NoChange,
    StatusChanged,
    GameChanged,
    Both,
}

/// The change kind for a status change and a game change.
pub open spec fn change_kind(status_changed: bool, game_changed: bool) -> ChangeKind {
    if status_changed && game_changed {
        ChangeKind::Both
    } else if status_changed {
        ChangeKind::StatusChanged
    } else if game_changed {
        ChangeKind::GameChanged
    } else {
        ChangeKind::NoChange
    }
}

impl ChangeKind {
    /// Whether the game differs.
    pub open spec fn game_changed(self) -> bool {
        self == ChangeKind::GameChanged || self == ChangeKind::Both
    }

    /// Whether the game differs.
    pub fn is_game_change(self) -> (r: bool)
        ensures
            r == self.game_changed(),
    {
        match self {
            ChangeKind::GameChanged | ChangeKind::Both => true,
            _ => false,
        }
    }
}

/// The last known status and active game of the watched player.
///
/// Callers share one value behind a lock: each method is one critical section,
/// so both fields move together.
pub struct PlayerState {
    pub status: OnlineStatus,
    pub game: Option<String>,
}

impl PlayerState {
    /// The state at process start: offline, no game.
    pub fn new() -> (r: PlayerState)
        ensures
            r.status == OnlineStatus::Offline,
            r.game == None::<String>,
    {
        PlayerState { status: OnlineStatus::Offline, game: None }
    }

    /// A snapshot of the state.
    pub fn read(&self) -> (r: PlayerState)
        ensures
            r == *self,
    {
        PlayerState { status: self.status, game: copy_text(&self.game) }
    }

    /// Compares the tracked state with a new observation and records it, in one step.
    pub fn compare_and_update(&mut self, new_status: OnlineStatus, new_game: Option<String>) -> (r:
        ChangeKind)
        ensures
            r == change_kind(
                old(self).status != new_status,
                opt_view(old(self).game) != opt_view(new_game),
            ),
            final(self).status == new_status,
            final(self).game == new_game,
    {
        let status_changed = self.status != new_status;
        let game_changed = !same_text(&self.game, &new_game);
        self.status = new_status;
        self.game = new_game;
        if status_changed && game_changed {
            ChangeKind::Both
        } else if status_changed {
            ChangeKind::StatusChanged
        } else if game_changed {
            ChangeKind::GameChanged
        } else {
            ChangeKind::NoChange
        }
    }
}

/// The text of the most recently sent notification.
pub struct LastNotification {
    pub text: Option<String>,
}

impl LastNotification {
    /// Nothing sent yet.
    pub fn new() -> (r: LastNotification)
        ensures
            r.text == None::<String>,
    {
        LastNotification { text: None }
    }

    /// Decides whether `text` may be sent: it may unless it equals the last
    /// text sent. When it may, it becomes the last text in the same step, so
    /// that a racing caller with the same text is refused.
    pub fn claim(&mut self, text: &String) -> (r: bool)
        ensures
            r == (opt_view(old(self).text) != Some(text@)),
            r ==> final(self).text == Some(*text),
            !r ==> *final(self) == *old(self),
    {
        let fresh = match &self.text {
            Some(t) => *t != *text,
            None => true,
        };
        if fresh {
            self.text = Some(text.clone());
        }
        fresh
    }

    /// Undoes a claim whose send failed: when `sent` is still the last text,
    /// the text before it, `previous`, is put back. A later claim is left alone.
    pub fn release(&mut self, sent: &String, previous: Option<String>)
        ensures
            opt_view(old(self).text) == Some(sent@) ==> final(self).text == previous,
            opt_view(old(self).text) != Some(sent@) ==> *final(self) == *old(self),
    {
        let still_last = match &self.text {
            Some(t) => *t == *sent,
            None => false,
        };
        if still_last {
            self.text = previous;
        }
    }
}

/// A text that may be sent, with the last text sent before it was claimed,
/// which a failed send puts back.
pub struct Claim {
    pub text: String,
    pub previous: Option<String>,
}

} // verus!
