use vstd::prelude::*;
use crate::config::LocalConfig;

verus! {

/// The small per-user state persisted between invocations; reading and
/// writing its file happens at the outer layer.
pub struct LocalData {
    pub using_channel: Option<String>,
}

/// Tracks which named, isolated data partition ("channel") the background
/// server operates within.
pub struct ChannelManager {
    pub channel_path: String,
    pub channel: String,
}

impl ChannelManager {
    /// The stored selection is handed in already read; an absent selection
    /// falls back to the default channel.
    pub fn new(config: &LocalConfig, stored: LocalData) -> (r: ChannelManager)
        ensures
            r.channel_path@ == config.work_path.appdata_path@ + "/channel"@,
            r.channel@ == match stored.using_channel {
                Some(c) => c@,
                None => "default"@,
            },
    {
        let channel: String = match stored.using_channel {
            Some(c) => c,
            None => "default".to_owned(),
        };
        ChannelManager { channel_path: config.work_path.appdata_path.clone().concat("/channel"), channel }
    }

    /// Produces the record to persist so that later invocations use the
    /// given channel.
    pub fn use_channel(&self, channel: &str) -> (r: LocalData)
        ensures
            match r.using_channel {
                Some(c) => c@ == channel@,
                None => false,
            },
    {
        LocalData { using_channel: Some(channel.to_owned()) }
    }

    pub fn current_channel(&self) -> (r: &str)
        ensures
            r@ == self.channel@,
    {
        self.channel.as_str()
    }
}

} // verus!
