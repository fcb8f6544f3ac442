use vstd::prelude::*;

use crate::status::{Device, OnlineStatus};

verus! {

/// The message templates of the notifications, loaded once and read-only.
pub struct Localization {
    pub bot_activity: String,
    pub plays: String,
    pub won: String,
    pub lost: String,
    pub played_on: String,
    pub with_score: String,
    pub match_duration: String,
    pub minutes: String,
    pub target_name: String,
    pub offline: String,
    pub idle: String,
    pub invisible: String,
    pub online: String,
    pub donotdisturb: String,
    pub unknown: String,
    pub using_phone: String,
    pub using_browser: String,
    pub using_computer: String,
    pub on_steam: String,
}

impl Localization {
    /// The word used for a status.
    pub open spec fn label(&self, s: OnlineStatus) -> Seq<char> {
        match s {
            OnlineStatus::Offline => self.offline@,
            OnlineStatus::Idle => self.idle@,
            OnlineStatus::Invisible => self.invisible@,
            OnlineStatus::Online => self.online@,
            OnlineStatus::DoNotDisturb => self.donotdisturb@,
            OnlineStatus::Unknown => self.unknown@,
        }
    }

    /// The words that name a device.
    pub open spec fn device_word(&self, d: Device) -> Seq<char> {
        match d {
            Device::Phone => self.using_phone@,
            Device::Browser => self.using_browser@,
            Device::Computer => self.using_computer@,
        }
    }

    /// Returns the words that name a device.
    pub fn device_label(&self, d: Device) -> (r: &String)
        ensures
            r@ == self.device_word(d),
    {
        match d {
            Device::Phone => &self.using_phone,
            Device::Browser => &self.using_browser,
            Device::Computer => &self.using_computer,
        }
    }

    /// Returns the word used for a status.
    pub fn status_label(&self, s: OnlineStatus) -> (r: &String)
        ensures
            r@ == self.label(s),
    {
        match s {
            OnlineStatus::Offline => &self.offline,
            OnlineStatus::Idle => &self.idle,
            OnlineStatus::Invisible => &self.invisible,
            OnlineStatus::Online => &self.online,
            OnlineStatus::DoNotDisturb => &self.donotdisturb,
            OnlineStatus::Unknown => &self.unknown,
        }
    }
}

} // verus!
