//! Safewords: flags that switch enforcement off, everywhere, in a community
//! or in a channel, and leave every gag where it is.

use std::collections::HashSet;
use vstd::prelude::*;
use crate::collections::clone_ids;
use crate::member_id::{ChannelId, GuildId};

verus! {

/// Where a safeword applies.
#[derive(Debug, Clone, Copy, PartialEq, Eq, Structural)]
pub enum SafewordLocation {
    /// Everywhere.
    Global,
    /// In the community that the command is given in.
    Server,
    /// In the channel that the command is given in.
    Channel,
}

/// Why a safeword could not be set or unset.
#[derive(Debug, Clone, Copy, PartialEq, Eq, Structural)]
pub enum SafewordError {
    /// A safeword for a community was asked for outside any community.
    NotInServer,
}

/// The safewords of a subject, as mathematical sets.
pub ghost struct SafewordsView {
    /// Whether enforcement is off everywhere.
    pub global: bool,
    /// The communities in which it is off.
    pub servers: Set<GuildId>,
    /// The channels in which it is off.
    pub channels: Set<ChannelId>,
}

impl SafewordsView {
    /// No safeword is on.
    pub open spec fn spec_default() -> SafewordsView {
        SafewordsView { global: false, servers: Set::empty(), channels: Set::empty() }
    }

    /// Whether enforcement is off for a message in `channel`, which lies in
    /// `server` if that is `Some`: the global flag, or the community's, or the
    /// channel's.
    pub open spec fn is_safewording(self, channel: ChannelId, server: Option<GuildId>) -> bool {
        ||| self.global
        ||| (server matches Some(guild) && self.servers.contains(guild))
        ||| self.channels.contains(channel)
    }

    /// Whether the flag at `location` is on. For a community without a
    /// community this is `None`.
    pub open spec fn flag(
        self,
        location: SafewordLocation,
        channel: ChannelId,
        server: Option<GuildId>,
    ) -> Option<bool> {
        match location {
            SafewordLocation::Global => Some(self.global),
            SafewordLocation::Server => match server {
                Some(guild) => Some(self.servers.contains(guild)),
                None => None,
            },
            SafewordLocation::Channel => Some(self.channels.contains(channel)),
        }
    }

    /// The safewords with the flag at `location` set to `on`; unchanged for a
    /// community without a community.
    pub open spec fn with_flag(
        self,
        location: SafewordLocation,
        on: bool,
        channel: ChannelId,
        server: Option<GuildId>,
    ) -> SafewordsView {
        match location {
            SafewordLocation::Global => SafewordsView { global: on, ..self },
            SafewordLocation::Server => match server {
                Some(guild) => SafewordsView {
                    servers: if on {
                        self.servers.insert(guild)
                    } else {
                        self.servers.remove(guild)
                    },
                    ..self
                },
                None => self,
            },
            SafewordLocation::Channel => SafewordsView {
                channels: if on {
                    self.channels.insert(channel)
                } else {
                    self.channels.remove(channel)
                },
                ..self
            },
        }
    }

    /// What setting the flag at `location` to `on` answers: whether the flag
    /// changed, or that there is no community to set it for.
    pub open spec fn set_result(
        self,
        location: SafewordLocation,
        on: bool,
        channel: ChannelId,
        server: Option<GuildId>,
    ) -> Result<bool, SafewordError> {
        match self.flag(location, channel, server) {
            Some(was) => Ok(was != on),
            None => Err(SafewordError::NotInServer),
        }
    }

    /// The list that [`Safewords::get_relevant_safewords`] gives.
    pub open spec fn relevant(self, channel: ChannelId, server: Option<GuildId>) -> Seq<
        SafewordLocation,
    > {
        let global = if self.global {
            seq![SafewordLocation::Global]
        } else {
            seq![]
        };
        let community = if server matches Some(guild) && self.servers.contains(guild) {
            seq![SafewordLocation::Global]
        } else {
            seq![]
        };
        let here = if self.channels.contains(channel) {
            seq![SafewordLocation::Channel]
        } else {
            seq![]
        };
        global + community + here
    }
}

/// The safewords of a subject.
#[derive(Debug, PartialEq, Eq)]
pub struct Safewords {
    /// Whether enforcement is off everywhere.
    pub global: bool,
    /// The communities in which it is off.
    pub servers: HashSet<GuildId>,
    /// The channels in which it is off.
    pub channels: HashSet<ChannelId>,
}

impl View for Safewords {
    type V = SafewordsView;

    open spec fn view(&self) -> SafewordsView {
        SafewordsView { global: self.global, servers: self.servers@, channels: self.channels@ }
    }
}

impl Default for Safewords {
    /// No safeword is on.
    fn default() -> (r: Self)
        ensures
            r@ == SafewordsView::spec_default(),
    {
        Safewords { global: false, servers: HashSet::new(), channels: HashSet::new() }
    }
}

impl Clone for Safewords {
    fn clone(&self) -> (r: Self)
        ensures
            r@ == self@,
    {
        Safewords {
            global: self.global,
            servers: clone_ids(&self.servers),
            channels: clone_ids(&self.channels),
        }
    }
}

impl Safewords {
    /// Switches a safeword on. Returns whether it was off before.
    ///
    /// For [`SafewordLocation::Server`] without a community the answer is
    /// [`SafewordError::NotInServer`] and nothing changes.
    pub fn add_safeword(
        &mut self,
        location: SafewordLocation,
        channel: ChannelId,
        server: Option<GuildId>,
    ) -> (r: Result<bool, SafewordError>)
        ensures
            r == old(self)@.set_result(location, true, channel, server),
            final(self)@ == old(self)@.with_flag(location, true, channel, server),
    {
        match location {
            SafewordLocation::Global => {
                let ret = !self.global;
                self.global = true;
                Ok(ret)
            },
            SafewordLocation::Server => match server {
                Some(guild) => Ok(self.servers.insert(guild)),
                None => Err(SafewordError::NotInServer),
            },
            SafewordLocation::Channel => Ok(self.channels.insert(channel)),
        }
    }

    /// Switches a safeword off. Returns whether it was on before.
    ///
    /// For [`SafewordLocation::Server`] without a community the answer is
    /// [`SafewordError::NotInServer`] and nothing changes.
    pub fn remove_safeword(
        &mut self,
        location: SafewordLocation,
        channel: ChannelId,
        server: Option<GuildId>,
    ) -> (r: Result<bool, SafewordError>)
        ensures
            r == old(self)@.set_result(location, false, channel, server),
            final(self)@ == old(self)@.with_flag(location, false, channel, server),
    {
        match location {
            SafewordLocation::Global => {
                let ret = self.global;
                self.global = false;
                Ok(ret)
            },
            SafewordLocation::Server => match server {
                Some(guild) => Ok(self.servers.remove(&guild)),
                None => Err(SafewordError::NotInServer),
            },
            SafewordLocation::Channel => Ok(self.channels.remove(&channel)),
        }
    }

    /// The safewords that are on and concern a message in `channel`, which
    /// lies in `server` if that is `Some`: `Global` for the global one,
    /// `Global` once more for the one of the community, `Channel` for the one
    /// of the channel, in this order.
    pub fn get_relevant_safewords(&self, channel: ChannelId, server: Option<GuildId>) -> (r: Vec<
        SafewordLocation,
    >)
        ensures
            r@ == self@.relevant(channel, server),
            r@.len() > 0 <==> self@.is_safewording(channel, server),
    {
        let mut ret: Vec<SafewordLocation> = Vec::new();
        if self.global {
            ret.push(SafewordLocation::Global);
        }
        let in_server = match server {
            Some(guild) => self.servers.contains(&guild),
            None => false,
        };
        if in_server {
            ret.push(SafewordLocation::Global);
        }
        if self.channels.contains(&channel) {
            ret.push(SafewordLocation::Channel);
        }
        assert(ret@ =~= self@.relevant(channel, server));
        ret
    }

    /// Whether enforcement is off for a message in `channel`, which lies in
    /// `server` if that is `Some`.
    pub fn is_safewording(&self, channel: ChannelId, server: Option<GuildId>) -> (r: bool)
        ensures
            r == self@.is_safewording(channel, server),
    {
        let in_server = match server {
            Some(guild) => self.servers.contains(&guild),
            None => false,
        };
        self.global || in_server || self.channels.contains(&channel)
    }

    /// Whether no safeword is on.
    pub fn is_default(&self) -> (r: bool)
        ensures
            r == (self@ == SafewordsView::spec_default()),
    {
        let r = !self.global && self.servers.is_empty() && self.channels.is_empty();
        proof {
            if r {
                assert(self.servers@ =~= Set::<GuildId>::empty());
                assert(self.channels@ =~= Set::<ChannelId>::empty());
            }
        }
        r
    }
}

} // verus!
