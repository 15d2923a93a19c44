//! The user's settings, as far as the agent's logic reads them, and how an
//! update is applied.

use crate::text::{opt_clone, opt_view};
use vstd::prelude::*;

verus! {

/// The shortest poll interval that the settings keep, in seconds.
pub const POLL_INTERVAL_MIN_SECS: u64 = 15;

/// The longest poll interval that the settings keep, in seconds.
pub const POLL_INTERVAL_MAX_SECS: u64 = 300;

/// The settings.
#[derive(Debug)]
pub struct Settings {
    pub poll_interval_secs: u64,
    pub sound_enabled: bool,
    pub sound_path: Option<String>,
    pub auto_launch: bool,
    pub gmail_query: String,
    pub oauth_client_id: String,
    pub oauth_client_secret: Option<String>,
}

/// The mathematical content of `Settings`.
pub struct SettingsView {
    pub poll_interval_secs: u64,
    pub sound_enabled: bool,
    pub sound_path: Option<Seq<char>>,
    pub auto_launch: bool,
    pub gmail_query: Seq<char>,
    pub oauth_client_id: Seq<char>,
    pub oauth_client_secret: Option<Seq<char>>,
}

impl View for Settings {
    type V = SettingsView;

    open spec fn view(&self) -> SettingsView {
        SettingsView {
            poll_interval_secs: self.poll_interval_secs,
            sound_enabled: self.sound_enabled,
            sound_path: opt_view(self.sound_path),
            auto_launch: self.auto_launch,
            gmail_query: self.gmail_query@,
            oauth_client_id: self.oauth_client_id@,
            oauth_client_secret: opt_view(self.oauth_client_secret),
        }
    }
}

impl Clone for Settings {
    fn clone(&self) -> (r: Self)
        ensures
            r@ == self@,
    {
        Settings {
            poll_interval_secs: self.poll_interval_secs,
            sound_enabled: self.sound_enabled,
            sound_path: opt_clone(&self.sound_path),
            auto_launch: self.auto_launch,
            gmail_query: self.gmail_query.clone(),
            oauth_client_id: self.oauth_client_id.clone(),
            oauth_client_secret: opt_clone(&self.oauth_client_secret),
        }
    }
}

/// The settings of a fresh installation.
pub open spec fn spec_default_settings() -> SettingsView {
    SettingsView {
        poll_interval_secs: 60,
        sound_enabled: true,
        sound_path: None,
        auto_launch: true,
        gmail_query: "is:unread category:primary"@,
        oauth_client_id: Seq::empty(),
        oauth_client_secret: None,
    }
}

impl Default for Settings {
    fn default() -> (settings: Settings)
        ensures
            settings@ == spec_default_settings(),
    {
        Settings {
            poll_interval_secs: 60,
            sound_enabled: true,
            sound_path: None,
            auto_launch: true,
            gmail_query: "is:unread category:primary".to_owned(),
            oauth_client_id: String::new(),
            oauth_client_secret: None,
        }
    }
}

/// A change of settings: each field that is present replaces the setting of
/// its name.
#[derive(Debug)]
pub struct SettingsUpdate {
    pub poll_interval_secs: Option<u64>,
    pub sound_enabled: Option<bool>,
    pub sound_path: Option<Option<String>>,
    pub auto_launch: Option<bool>,
    pub gmail_query: Option<String>,
    pub oauth_client_id: Option<String>,
    pub oauth_client_secret: Option<Option<String>>,
}

/// A poll interval brought into the range that the settings keep.
pub open spec fn spec_clamp_poll_interval(secs: u64) -> u64 {
    if secs < POLL_INTERVAL_MIN_SECS {
        POLL_INTERVAL_MIN_SECS
    } else if secs > POLL_INTERVAL_MAX_SECS {
        POLL_INTERVAL_MAX_SECS
    } else {
        secs
    }
}

/// Computes `spec_clamp_poll_interval`.
pub fn clamp_poll_interval(secs: u64) -> (r: u64)
    ensures
        r == spec_clamp_poll_interval(secs),
{
    if secs < POLL_INTERVAL_MIN_SECS {
        POLL_INTERVAL_MIN_SECS
    } else if secs > POLL_INTERVAL_MAX_SECS {
        POLL_INTERVAL_MAX_SECS
    } else {
        secs
    }
}

/// The settings after an update.
pub open spec fn spec_update(settings: SettingsView, update: SettingsUpdate) -> SettingsView {
    SettingsView {
        poll_interval_secs: match update.poll_interval_secs {
            Some(secs) => spec_clamp_poll_interval(secs),
            None => settings.poll_interval_secs,
        },
        sound_enabled: match update.sound_enabled {
            Some(on) => on,
            None => settings.sound_enabled,
        },
        sound_path: match update.sound_path {
            Some(path) => opt_view(path),
            None => settings.sound_path,
        },
        auto_launch: match update.auto_launch {
            Some(on) => on,
            None => settings.auto_launch,
        },
        gmail_query: match update.gmail_query {
            Some(query) => query@,
            None => settings.gmail_query,
        },
        oauth_client_id: match update.oauth_client_id {
            Some(id) => id@,
            None => settings.oauth_client_id,
        },
        oauth_client_secret: match update.oauth_client_secret {
            Some(secret) => opt_view(secret),
            None => settings.oauth_client_secret,
        },
    }
}

impl Settings {
    /// Applies an update. The poll interval is kept between
    /// `POLL_INTERVAL_MIN_SECS` and `POLL_INTERVAL_MAX_SECS`.
    pub fn update(&mut self, update: SettingsUpdate)
        ensures
            final(self)@ == spec_update(old(self)@, update),
    {
        if let Some(secs) = update.poll_interval_secs {
            self.poll_interval_secs = clamp_poll_interval(secs);
        }
        if let Some(on) = update.sound_enabled {
            self.sound_enabled = on;
        }
        if let Some(path) = update.sound_path {
            self.sound_path = path;
        }
        if let Some(on) = update.auto_launch {
            self.auto_launch = on;
        }
        if let Some(query) = update.gmail_query {
            self.gmail_query = query;
        }
        if let Some(id) = update.oauth_client_id {
            self.oauth_client_id = id;
        }
        if let Some(secret) = update.oauth_client_secret {
            self.oauth_client_secret = secret;
        }
    }
}

} // verus!
