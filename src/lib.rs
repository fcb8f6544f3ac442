//! Presence tracking and notification decisions for a single watched player.
//!
//! The library holds the state-synchronisation and de-duplication logic:
//! the shared player state, the watcher-task supervisor, the decisions of the
//! Steam and match pollers, and the handling of pushed presence events. The
//! network, timers and the chat gateway live outside it and hand it plain values.

pub mod localization;
pub mod matches;
pub mod player_state;
pub mod presence;
pub mod status;
pub mod steam;
pub mod supervisor;
pub mod text;

pub use localization::Localization;
pub use matches::{duration_minutes, is_win, Hero, HeroCatalog, MatchData, MatchPoller};
pub use player_state::{ChangeKind, Claim, LastNotification, PlayerState};
pub use presence::{
    compose_presence_text, handle_presence, Activity, ActivityKind, ClientStatus, PresenceEvent,
    WatchTarget,
};
pub use status::{status_from_persona_state, Device, OnlineStatus};
pub use steam::{first_reading, steam_commit, steam_reading, steam_tick, SteamPlayer, SteamPoller};
pub use supervisor::{RestartOrder, SupervisorPhase, WatcherSupervisor};
pub use text::{append_decimal, to_decimal};
