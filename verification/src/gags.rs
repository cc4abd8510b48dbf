//! Gags, and the defaults that a subject sets for gags applied to them.

use std::collections::HashMap;
use vstd::prelude::*;
use crate::member_id::{
    by_member, lemma_by_member_empty, lemma_by_member_insert, ChannelId, GuildId, MemberId,
    Timestamp, UserId,
};
use crate::modes::GagModeName;

verus! {

/// How a gag works.
#[derive(Debug, Clone, Copy, PartialEq, Eq, Structural)]
pub struct GagConfig {
    /// A tied gag cannot be lifted by the subject, and anyone else needs
    /// consent to untie as well.
    pub tie: bool,
    /// The mode of the gag.
    pub mode: GagModeName,
}

impl GagConfig {
    /// Untied, in the default mode.
    pub open spec fn spec_default() -> GagConfig {
        GagConfig { tie: false, mode: GagModeName::Gag }
    }
}

impl Default for GagConfig {
    /// Untied, in the default mode.
    fn default() -> (r: Self)
        ensures
            r == GagConfig::spec_default(),
    {
        GagConfig { tie: false, mode: GagModeName::Gag }
    }
}

/// A gag: the record that a subject is gagged in one channel.
#[derive(Debug, Clone, Copy, PartialEq, Eq, Structural)]
pub struct Gag {
    /// The last point in time at which the gag applies; `None` for a gag
    /// that never runs out.
    pub until: Option<Timestamp>,
    /// How the gag works.
    pub config: GagConfig,
}

impl Gag {
    /// Whether the gag has run out at `time`: it has an end, and `time` is
    /// after it. At the end itself the gag still applies.
    pub open spec fn expired_at(self, time: Timestamp) -> bool {
        self.until matches Some(until) && time > until
    }

    /// Whether the gag has run out at `time`.
    pub fn is_expired_at(&self, time: Timestamp) -> (r: bool)
        ensures
            r == self.expired_at(time),
    {
        match self.until {
            Some(until) => time > until,
            None => false,
        }
    }
}

/// The number by which a [`Timestamp`] grows in a second: it counts
/// microseconds.
pub const TIMESTAMP_UNITS_PER_SECOND: i64 = 1_000_000;

/// The whole second that `time` lies in, as a count of seconds: for a time
/// before the zero of time this is the second that ends after it.
pub open spec fn whole_seconds(time: Timestamp) -> int {
    time as int / 1_000_000
}

/// The end of a gag that is applied at `now` for `minutes` minutes: the
/// whole second that `now` lies in, and that many minutes. `None` if that is
/// more or less than a [`Timestamp`] holds.
pub open spec fn spec_expiry_after(now: Timestamp, minutes: u32) -> Option<Timestamp> {
    let until = (whole_seconds(now) + minutes as int * 60) * 1_000_000;
    if i64::MIN <= until <= i64::MAX {
        Some(until as i64)
    } else {
        None
    }
}

/// The end of a gag that is applied at `now` for `minutes` minutes.
pub fn expiry_after(now: Timestamp, minutes: u32) -> (r: Option<Timestamp>)
    ensures
        r == spec_expiry_after(now, minutes),
{
    let seconds: i128 = if now >= 0 {
        (now / TIMESTAMP_UNITS_PER_SECOND) as i128
    } else {
        let back: i128 = -(now as i128);
        -((back + 999_999) / 1_000_000)
    };
    assert(seconds == whole_seconds(now));
    let wide: i128 = (seconds + (minutes as i128) * 60) * 1_000_000;
    if wide >= i64::MIN as i128 && wide <= i64::MAX as i128 {
        Some(wide as i64)
    } else {
        None
    }
}

/// A gag to apply, with the channel to apply it in.
#[derive(Debug, Clone, Copy, PartialEq, Eq, Structural)]
pub struct NewGag {
    /// The channel.
    pub channel: ChannelId,
    /// The gag.
    pub gag: Gag,
}

impl From<NewGag> for Gag {
    fn from(value: NewGag) -> (r: Gag) {
        value.gag
    }
}

impl vstd::std_specs::convert::FromSpecImpl<NewGag> for Gag {
    open spec fn obeys_from_spec() -> bool {
        true
    }

    open spec fn from_spec(value: NewGag) -> Gag {
        value.gag
    }
}

/// The channel to lift a gag in.
#[derive(Debug, Clone, Copy, PartialEq, Eq, Structural)]
pub struct NewUngag {
    /// The channel.
    pub channel: ChannelId,
}

/// The channel to tie a gag in.
#[derive(Debug, Clone, Copy, PartialEq, Eq, Structural)]
pub struct NewTie {
    /// The channel.
    pub channel: ChannelId,
}

/// The channel to untie a gag in.
#[derive(Debug, Clone, Copy, PartialEq, Eq, Structural)]
pub struct NewUntie {
    /// The channel.
    pub channel: ChannelId,
}

/// A new mode for the gag in a channel.
#[derive(Debug, Clone, Copy, PartialEq, Eq, Structural)]
pub struct ChangeGag {
    /// The channel.
    pub channel: ChannelId,
    /// The mode to change to.
    pub mode: GagModeName,
}

/// An override of a [`GagConfig`].
#[derive(Debug, Clone, Copy, PartialEq, Eq, Structural)]
pub struct GagConfigDiff {
    /// If `Some`, overwrites [`GagConfig::tie`].
    pub tie: Option<bool>,
    /// If `Some`, overwrites [`GagConfig::mode`].
    pub mode: Option<GagModeName>,
}

impl GagConfigDiff {
    /// The override that changes nothing.
    pub open spec fn spec_default() -> GagConfigDiff {
        GagConfigDiff { tie: None, mode: None }
    }

    /// `to` after the override.
    pub open spec fn applied(self, to: GagConfig) -> GagConfig {
        GagConfig {
            tie: match self.tie {
                Some(tie) => tie,
                None => to.tie,
            },
            mode: match self.mode {
                Some(mode) => mode,
                None => to.mode,
            },
        }
    }

    /// Applies the override to `to`.
    pub fn apply(&self, to: &mut GagConfig)
        ensures
            *final(to) == self.applied(*old(to)),
    {
        if let Some(tie) = self.tie {
            to.tie = tie;
        }
        if let Some(mode) = self.mode {
            to.mode = mode;
        }
    }

    /// Whether the override changes nothing.
    pub fn is_default(&self) -> (r: bool)
        ensures
            r == (*self == GagConfigDiff::spec_default()),
    {
        self.tie.is_none() && self.mode.is_none()
    }
}

impl Default for GagConfigDiff {
    /// The override that changes nothing.
    fn default() -> (r: Self)
        ensures
            r == GagConfigDiff::spec_default(),
    {
        GagConfigDiff { tie: None, mode: None }
    }
}

/// The defaults that a subject has set for gags, as mathematical maps.
pub ghost struct GagDefaultsView {
    /// The layer for everyone.
    pub global: GagConfigDiff,
    /// The layer for the members of a community.
    pub per_guild: Map<GuildId, GagConfigDiff>,
    /// The layer for a user, wherever they act.
    pub per_user: Map<UserId, GagConfigDiff>,
    /// The layer for a user in one community.
    pub per_member: Map<MemberId, GagConfigDiff>,
}

/// `to` after a layer that may be absent.
pub open spec fn config_layered(layer: Option<GagConfigDiff>, to: GagConfig) -> GagConfig {
    match layer {
        Some(diff) => diff.applied(to),
        None => to,
    }
}

impl GagDefaultsView {
    /// No layer says anything.
    pub open spec fn spec_default() -> GagDefaultsView {
        GagDefaultsView {
            global: GagConfigDiff::spec_default(),
            per_guild: Map::empty(),
            per_user: Map::empty(),
            per_member: Map::empty(),
        }
    }

    /// How a gag by `gagger` works when the gagger says nothing more: the
    /// layers for everyone, for the community, for the user and for the
    /// member, applied in this order to the default.
    pub open spec fn default_for(self, gagger: MemberId) -> GagConfig {
        config_layered(
            self.per_member.get(gagger),
            config_layered(
                self.per_user.get(gagger.user),
                config_layered(
                    self.per_guild.get(gagger.guild),
                    self.global.applied(GagConfig::spec_default()),
                ),
            ),
        )
    }
}

/// The defaults that a subject has set for gags applied to them.
#[derive(Debug, PartialEq, Eq)]
pub struct GagDefaults {
    /// The layer for everyone.
    pub global: GagConfigDiff,
    /// The layer for the members of a community; overrides `global`.
    pub per_guild: HashMap<GuildId, GagConfigDiff>,
    /// The layer for a user; overrides `per_guild`.
    pub per_user: HashMap<UserId, GagConfigDiff>,
    /// The layer for a user in one community, filed under
    /// [`MemberId::key`]; overrides `per_user`.
    pub per_member: HashMap<u128, GagConfigDiff>,
}

impl View for GagDefaults {
    type V = GagDefaultsView;

    open spec fn view(&self) -> GagDefaultsView {
        GagDefaultsView {
            global: self.global,
            per_guild: self.per_guild@,
            per_user: self.per_user@,
            per_member: by_member(self.per_member@),
        }
    }
}

impl Default for GagDefaults {
    /// No layer says anything.
    fn default() -> (r: Self)
        ensures
            r@ == GagDefaultsView::spec_default(),
    {
        let r = GagDefaults {
            global: GagConfigDiff::default(),
            per_guild: HashMap::new(),
            per_user: HashMap::new(),
            per_member: HashMap::new(),
        };
        proof {
            lemma_by_member_empty(r.per_member@);
        }
        r
    }
}

impl Clone for GagDefaults {
    fn clone(&self) -> (r: Self)
        ensures
            r@ == self@,
    {
        GagDefaults {
            global: self.global,
            per_guild: self.per_guild.clone(),
            per_user: self.per_user.clone(),
            per_member: self.per_member.clone(),
        }
    }
}

impl GagDefaults {
    /// How a gag by `gagger` works when the gagger says nothing more.
    pub fn default_for(&self, gagger: MemberId) -> (r: GagConfig)
        ensures
            r == self@.default_for(gagger),
    {
        let mut ret = GagConfig::default();
        self.global.apply(&mut ret);
        if let Some(diff) = self.per_guild.get(&gagger.guild) {
            diff.apply(&mut ret);
        }
        if let Some(diff) = self.per_user.get(&gagger.user) {
            diff.apply(&mut ret);
        }
        if let Some(diff) = self.per_member.get(&gagger.key()) {
            diff.apply(&mut ret);
        }
        ret
    }

    /// Sets the layer for everyone.
    pub fn set_global(&mut self, diff: GagConfigDiff)
        ensures
            final(self)@ == (GagDefaultsView { global: diff, ..old(self)@ }),
    {
        self.global = diff;
    }

    /// Sets the layer for the members of `guild`.
    pub fn set_for_guild(&mut self, guild: GuildId, diff: GagConfigDiff)
        ensures
            final(self)@ == (GagDefaultsView {
                per_guild: old(self)@.per_guild.insert(guild, diff),
                ..old(self)@
            }),
    {
        self.per_guild.insert(guild, diff);
    }

    /// Sets the layer for `user`.
    pub fn set_for_user(&mut self, user: UserId, diff: GagConfigDiff)
        ensures
            final(self)@ == (GagDefaultsView {
                per_user: old(self)@.per_user.insert(user, diff),
                ..old(self)@
            }),
    {
        self.per_user.insert(user, diff);
    }

    /// Sets the layer for `member`.
    pub fn set_for_member(&mut self, member: MemberId, diff: GagConfigDiff)
        ensures
            final(self)@ == (GagDefaultsView {
                per_member: old(self)@.per_member.insert(member, diff),
                ..old(self)@
            }),
    {
        proof {
            lemma_by_member_insert(self.per_member@, member, diff);
        }
        self.per_member.insert(member.key(), diff);
    }

    /// Whether no layer says anything.
    pub fn is_default(&self) -> (r: bool)
        ensures
            r == (self@ == GagDefaultsView::spec_default()),
    {
        proof {
            lemma_by_member_empty(self.per_member@);
        }
        let r = self.global.is_default() && self.per_guild.is_empty() && self.per_user.is_empty()
            && self.per_member.is_empty();
        proof {
            if r {
                assert(self.per_guild@ =~= Map::<GuildId, GagConfigDiff>::empty());
                assert(self.per_user@ =~= Map::<UserId, GagConfigDiff>::empty());
                assert(self.per_member@ =~= Map::<u128, GagConfigDiff>::empty());
            }
        }
        r
    }
}

} // verus!
