use vstd::prelude::*;

verus! {

/// Canonical online status of the watched player.
#[derive(PartialEq, Eq, Structural, Clone, Copy, Debug)]
pub enum OnlineStatus {
    Offline,
    Online,
    Idle,
    DoNotDisturb,
    Invisible,
    Unknown,
}

/// The kind of device that a per-device status was reported from.
#[derive(PartialEq, Eq, Structural, Clone, Copy, Debug)]
pub enum Device {
    Phone,
    Browser,
    Computer,
}

/// The status that a Steam persona-state code stands for: a fixed table in
/// which every code outside it counts as offline.
pub open spec fn persona_status(code: int) -> OnlineStatus {
    if code == 1 {
        OnlineStatus::Online
    } else if code == 2 {
        OnlineStatus::DoNotDisturb
    } else if code == 3 {
        OnlineStatus::Idle
    } else {
        OnlineStatus::Offline
    }
}

/// Maps a Steam persona-state code to a status.
pub fn status_from_persona_state(code: i64) -> (r: OnlineStatus)
    ensures
        r == persona_status(code as int),
{
    match code {
        1 => OnlineStatus::Online,
        2 => OnlineStatus::DoNotDisturb,
        3 => OnlineStatus::Idle,
        _ => OnlineStatus::Offline,
    }
}

} // verus!
