//! One subject: the consent they have given, the gags on them, their
//! safewords and their settings, and the transitions between the states of a
//! gag.
//!
//! In a channel a subject is not gagged, gagged, or gagged and tied. A gag
//! gags, a tie ties, an untie unties, an ungag lifts the gag whether tied or
//! not, and a change of mode leaves the state as it is. Each transition asks
//! what the actor may do and answers with the reason when it refuses; a
//! refusal changes nothing.
//!
//! Each of the five parts that are kept about a subject is there or not. A
//! part that is not there counts as its default; it comes to be there by the
//! first write to it or by an import, and a sweep takes it away again once it
//! says no more than its default.

use std::collections::HashMap;
use vstd::prelude::*;
use crate::action::MessageAction;
use crate::collections::keys_of;
use crate::errors::{ChangeGagError, GagError, TieError, UngagError, UntieError};
use crate::gags::{Gag, GagConfig, GagConfigDiff, GagDefaults, GagDefaultsView};
use crate::member_id::{ChannelId, GuildId, MemberId, Timestamp, UserId};
use crate::modes::GagModeName;
use crate::portable::{PortableGaggee, PortableGaggeeView};
use crate::safeword::{SafewordError, SafewordLocation, Safewords, SafewordsView};
use crate::trust::{GaggeeTrust, GaggeeTrustView, Trust, TrustDiff};

verus! {

/// The length, in bytes, above which a message is left alone, for a subject
/// who has set none: 256.
pub open spec fn spec_default_max_msg_length() -> usize {
    256
}

/// The length, in bytes, above which a message is left alone, for a subject
/// who has set none: 256.
pub fn default_max_msg_length() -> (r: usize)
    ensures
        r == spec_default_max_msg_length(),
        r == 256,
{
    256
}

/// The gags of `gags` that have not run out at `now`.
pub open spec fn unexpired(gags: Map<ChannelId, Gag>, now: Timestamp) -> Map<ChannelId, Gag> {
    Map::new(
        |channel: ChannelId| gags.contains_key(channel) && !gags[channel].expired_at(now),
        |channel: ChannelId| gags[channel],
    )
}

/// A subject as mathematical values: who they are, and each part that is
/// kept about them, if it is there.
pub ghost struct GaggeeView {
    /// Who the subject is.
    pub id: UserId,
    /// The consent that the subject has given.
    pub trust: Option<GaggeeTrustView>,
    /// The gags on the subject: for each channel at most one.
    pub gags: Option<Map<ChannelId, Gag>>,
    /// The length, in bytes, above which a message is left alone.
    pub max_msg_length: Option<usize>,
    /// The safewords of the subject.
    pub safewords: Option<SafewordsView>,
    /// The defaults for gags applied to the subject.
    pub gag_defaults: Option<GagDefaultsView>,
}

impl GaggeeView {
    /// A subject about whom nothing is kept.
    pub open spec fn default_for(id: UserId) -> GaggeeView {
        GaggeeView {
            id,
            trust: None,
            gags: None,
            max_msg_length: None,
            safewords: None,
            gag_defaults: None,
        }
    }

    /// The consent that counts: the one that is kept, or none given.
    pub open spec fn trust_config(self) -> GaggeeTrustView {
        match self.trust {
            Some(trust) => trust,
            None => GaggeeTrustView::spec_default(),
        }
    }

    /// The gags that count: those that are kept, or none.
    pub open spec fn gag_map(self) -> Map<ChannelId, Gag> {
        match self.gags {
            Some(gags) => gags,
            None => Map::empty(),
        }
    }

    /// The limit that counts: the one that is kept, or the default.
    pub open spec fn limit(self) -> usize {
        match self.max_msg_length {
            Some(limit) => limit,
            None => spec_default_max_msg_length(),
        }
    }

    /// The safewords that count: those that are kept, or none on.
    pub open spec fn safeword_flags(self) -> SafewordsView {
        match self.safewords {
            Some(safewords) => safewords,
            None => SafewordsView::spec_default(),
        }
    }

    /// The defaults for gags that count: those that are kept, or none set.
    pub open spec fn defaults(self) -> GagDefaultsView {
        match self.gag_defaults {
            Some(gag_defaults) => gag_defaults,
            None => GagDefaultsView::spec_default(),
        }
    }

    /// What `member` may do to the subject.
    pub open spec fn trust_for(self, member: MemberId) -> Trust {
        self.trust_config().resolve(self.id, member)
    }

    /// The subject with `gags` as the gags that are kept.
    pub open spec fn with_gags(self, gags: Map<ChannelId, Gag>) -> GaggeeView {
        GaggeeView { gags: Some(gags), ..self }
    }

    /// The subject with `trust` as the consent that is kept.
    pub open spec fn with_trust(self, trust: GaggeeTrustView) -> GaggeeView {
        GaggeeView { trust: Some(trust), ..self }
    }

    /// The subject with `gag_defaults` as the defaults for gags that are
    /// kept.
    pub open spec fn with_defaults(self, gag_defaults: GagDefaultsView) -> GaggeeView {
        GaggeeView { gag_defaults: Some(gag_defaults), ..self }
    }

    /// The subject with `limit` as the limit that is kept.
    pub open spec fn with_limit(self, limit: usize) -> GaggeeView {
        GaggeeView { max_msg_length: Some(limit), ..self }
    }

    /// The subject after they have set what everyone may do to `trust`.
    pub open spec fn with_trust_global(self, trust: Trust) -> GaggeeView {
        self.with_trust(GaggeeTrustView { global: trust, ..self.trust_config() })
    }

    /// The subject after they have set their trust in the members of `guild`
    /// to `diff`.
    pub open spec fn with_trust_for_guild(self, guild: GuildId, diff: TrustDiff) -> GaggeeView {
        self.with_trust(
            GaggeeTrustView {
                per_guild: self.trust_config().per_guild.insert(guild, diff),
                ..self.trust_config()
            },
        )
    }

    /// The subject after they have set their trust in `user` to `diff`.
    pub open spec fn with_trust_for_user(self, user: UserId, diff: TrustDiff) -> GaggeeView {
        self.with_trust(
            GaggeeTrustView {
                per_user: self.trust_config().per_user.insert(user, diff),
                ..self.trust_config()
            },
        )
    }

    /// The subject after they have set their trust in `member` to `diff`.
    pub open spec fn with_trust_for_member(self, member: MemberId, diff: TrustDiff) -> GaggeeView {
        self.with_trust(
            GaggeeTrustView {
                per_member: self.trust_config().per_member.insert(member, diff),
                ..self.trust_config()
            },
        )
    }

    /// The subject after they have set their defaults for gags by anyone to
    /// `diff`.
    pub open spec fn with_gag_default_global(self, diff: GagConfigDiff) -> GaggeeView {
        self.with_defaults(GagDefaultsView { global: diff, ..self.defaults() })
    }

    /// The subject after they have set their defaults for gags by the
    /// members of `guild` to `diff`.
    pub open spec fn with_gag_default_for_guild(
        self,
        guild: GuildId,
        diff: GagConfigDiff,
    ) -> GaggeeView {
        self.with_defaults(
            GagDefaultsView {
                per_guild: self.defaults().per_guild.insert(guild, diff),
                ..self.defaults()
            },
        )
    }

    /// The subject after they have set their defaults for gags by `gagger`
    /// to `diff`.
    pub open spec fn with_gag_default_for_user(
        self,
        gagger: UserId,
        diff: GagConfigDiff,
    ) -> GaggeeView {
        self.with_defaults(
            GagDefaultsView {
                per_user: self.defaults().per_user.insert(gagger, diff),
                ..self.defaults()
            },
        )
    }

    /// The subject after they have set their defaults for gags by `gagger`
    /// in the gagger's community to `diff`.
    pub open spec fn with_gag_default_for_member(
        self,
        gagger: MemberId,
        diff: GagConfigDiff,
    ) -> GaggeeView {
        self.with_defaults(
            GagDefaultsView {
                per_member: self.defaults().per_member.insert(gagger, diff),
                ..self.defaults()
            },
        )
    }

    /// The answer to `gagger` applying `gag` in `channel`. The tests are made
    /// in this order: consent to gag; consent to tie, if the gag is tied;
    /// consent to the mode; no gag in the channel yet.
    pub open spec fn gag_result(self, gagger: MemberId, channel: ChannelId, gag: Gag) -> Result<
        (),
        GagError,
    > {
        let trust = self.trust_for(gagger);
        if !trust.gag {
            Err(GagError::NoConsentForGag)
        } else if gag.config.tie && !trust.tie {
            Err(GagError::NoConsentForTie)
        } else if !trust.gag_modes@.contains(gag.config.mode) {
            Err(GagError::NoConsentForMode)
        } else if self.gag_map().contains_key(channel) {
            Err(GagError::AlreadyGagged)
        } else {
            Ok(())
        }
    }

    /// The subject after `gagger` has tried to apply `gag` in `channel`.
    pub open spec fn after_gag(self, gagger: MemberId, channel: ChannelId, gag: Gag) -> GaggeeView {
        if self.gag_result(gagger, channel, gag) is Ok {
            self.with_gags(self.gag_map().insert(channel, gag))
        } else {
            self
        }
    }

    /// The answer to `gagger` lifting the gag in `channel`. The tests are
    /// made in this order: consent to ungag; a gag in the channel; consent to
    /// the gag's mode; and, if the gag is tied, that the actor is not the
    /// subject and has consent to untie.
    pub open spec fn ungag_result(self, gagger: MemberId, channel: ChannelId) -> Result<
        (),
        UngagError,
    > {
        let trust = self.trust_for(gagger);
        let gags = self.gag_map();
        if !trust.ungag {
            Err(UngagError::NoConsentForUngag)
        } else if !gags.contains_key(channel) {
            Err(UngagError::WasntGagged)
        } else if !trust.gag_modes@.contains(gags[channel].config.mode) {
            Err(UngagError::NoConsentForMode(gags[channel].config.mode))
        } else if gags[channel].config.tie && self.id == gagger.user {
            Err(UngagError::CantUntieYourself)
        } else if gags[channel].config.tie && !trust.untie {
            Err(UngagError::NoConsentForUntie)
        } else {
            Ok(())
        }
    }

    /// The subject after `gagger` has tried to lift the gag in `channel`.
    pub open spec fn after_ungag(self, gagger: MemberId, channel: ChannelId) -> GaggeeView {
        if self.ungag_result(gagger, channel) is Ok {
            self.with_gags(self.gag_map().remove(channel))
        } else {
            self
        }
    }

    /// The answer to `gagger` tying the gag in `channel`. The tests are made
    /// in this order: consent to tie; a gag in the channel; consent to the
    /// gag's mode; the gag not tied yet.
    pub open spec fn tie_result(self, gagger: MemberId, channel: ChannelId) -> Result<
        (),
        TieError,
    > {
        let trust = self.trust_for(gagger);
        let gags = self.gag_map();
        if !trust.tie {
            Err(TieError::NoConsentForTie)
        } else if !gags.contains_key(channel) {
            Err(TieError::WasntGagged)
        } else if !trust.gag_modes@.contains(gags[channel].config.mode) {
            Err(TieError::NoConsentForMode(gags[channel].config.mode))
        } else if gags[channel].config.tie {
            Err(TieError::AlreadyTied)
        } else {
            Ok(())
        }
    }

    /// The gag in `channel` with its tie set to `tie`, the rest as it is.
    pub open spec fn with_tie(self, channel: ChannelId, tie: bool) -> GaggeeView {
        let gag = self.gag_map()[channel];
        self.with_gags(
            self.gag_map().insert(channel, Gag { config: GagConfig { tie, ..gag.config }, ..gag }),
        )
    }

    /// The subject after `gagger` has tried to tie the gag in `channel`.
    pub open spec fn after_tie(self, gagger: MemberId, channel: ChannelId) -> GaggeeView {
        if self.tie_result(gagger, channel) is Ok {
            self.with_tie(channel, true)
        } else {
            self
        }
    }

    /// The answer to `gagger` untying the gag in `channel`. The tests are
    /// made in this order: that the actor is not the subject; consent to
    /// untie; a gag in the channel; consent to the gag's mode; the gag tied.
    pub open spec fn untie_result(self, gagger: MemberId, channel: ChannelId) -> Result<
        (),
        UntieError,
    > {
        let trust = self.trust_for(gagger);
        let gags = self.gag_map();
        if self.id == gagger.user {
            Err(UntieError::CantUntieYourself)
        } else if !trust.untie {
            Err(UntieError::NoConsentForUntie)
        } else if !gags.contains_key(channel) {
            Err(UntieError::WasntGagged)
        } else if !trust.gag_modes@.contains(gags[channel].config.mode) {
            Err(UntieError::NoConsentForMode(gags[channel].config.mode))
        } else if !gags[channel].config.tie {
            Err(UntieError::WasntTied)
        } else {
            Ok(())
        }
    }

    /// The subject after `gagger` has tried to untie the gag in `channel`.
    pub open spec fn after_untie(self, gagger: MemberId, channel: ChannelId) -> GaggeeView {
        if self.untie_result(gagger, channel) is Ok {
            self.with_tie(channel, false)
        } else {
            self
        }
    }

    /// The answer to `gagger` changing the gag in `channel` to `mode`: the
    /// mode that the gag had. The tests are made in this order: consent to
    /// gag; consent to the new mode; a gag in the channel.
    pub open spec fn change_gag_result(
        self,
        gagger: MemberId,
        channel: ChannelId,
        mode: GagModeName,
    ) -> Result<GagModeName, ChangeGagError> {
        let trust = self.trust_for(gagger);
        if !trust.gag {
            Err(ChangeGagError::NoConsentForGag)
        } else if !trust.gag_modes@.contains(mode) {
            Err(ChangeGagError::NoConsentForMode(mode))
        } else if !self.gag_map().contains_key(channel) {
            Err(ChangeGagError::WasntGagged)
        } else {
            Ok(self.gag_map()[channel].config.mode)
        }
    }

    /// The subject after `gagger` has tried to change the gag in `channel`
    /// to `mode`: the tie and the end of the gag stay.
    pub open spec fn after_change_gag(
        self,
        gagger: MemberId,
        channel: ChannelId,
        mode: GagModeName,
    ) -> GaggeeView {
        if self.change_gag_result(gagger, channel, mode) is Ok {
            let gag = self.gag_map()[channel];
            self.with_gags(
                self.gag_map().insert(
                    channel,
                    Gag { config: GagConfig { mode, ..gag.config }, ..gag },
                ),
            )
        } else {
            self
        }
    }

    /// The subject after the safeword at `location` was to be set to `on`:
    /// the safewords are kept with the flag set; if there is no community to
    /// set it for, nothing changes.
    pub open spec fn after_set_safeword(
        self,
        location: SafewordLocation,
        on: bool,
        channel: ChannelId,
        server: Option<GuildId>,
    ) -> GaggeeView {
        if self.safeword_flags().set_result(location, on, channel, server) is Ok {
            GaggeeView {
                safewords: Some(self.safeword_flags().with_flag(location, on, channel, server)),
                ..self
            }
        } else {
            self
        }
    }

    /// The gag that applies to a message written in `channel` at
    /// `timestamp`: the one recorded for the channel, unless it has run out.
    pub open spec fn gag_at(self, channel: ChannelId, timestamp: Timestamp) -> Option<Gag> {
        if self.gag_map().contains_key(channel) && !self.gag_map()[channel].expired_at(timestamp) {
            Some(self.gag_map()[channel])
        } else {
            None
        }
    }

    /// What to do with a message of `len` bytes that the subject wrote in
    /// `channel`, which lies in `server` if that is `Some`, at `timestamp`.
    ///
    /// Nothing if no gag applies or a safeword is on. Else a warning with the
    /// limit if the message is longer than the subject's limit, and else the
    /// rewriting in the gag's mode.
    pub open spec fn action(
        self,
        channel: ChannelId,
        server: Option<GuildId>,
        len: usize,
        timestamp: Timestamp,
    ) -> Option<MessageAction> {
        match self.gag_at(channel, timestamp) {
            None => None,
            Some(gag) => if self.safeword_flags().is_safewording(channel, server) {
                None
            } else if len <= self.limit() {
                Some(MessageAction::Gag(gag.config.mode))
            } else {
                Some(MessageAction::WarnTooLong(self.limit()))
            },
        }
    }

    /// The subject after a sweep at `now`: without the gags that have run
    /// out, and without each part that then says no more than its default.
    pub open spec fn swept(self, now: Timestamp) -> GaggeeView {
        GaggeeView {
            id: self.id,
            trust: if self.trust == Some(GaggeeTrustView::spec_default()) {
                None
            } else {
                self.trust
            },
            gags: match self.gags {
                Some(gags) => if unexpired(gags, now) == Map::<ChannelId, Gag>::empty() {
                    None
                } else {
                    Some(unexpired(gags, now))
                },
                None => None,
            },
            max_msg_length: if self.max_msg_length == Some(spec_default_max_msg_length()) {
                None
            } else {
                self.max_msg_length
            },
            safewords: if self.safewords == Some(SafewordsView::spec_default()) {
                None
            } else {
                self.safewords
            },
            gag_defaults: if self.gag_defaults == Some(GagDefaultsView::spec_default()) {
                None
            } else {
                self.gag_defaults
            },
        }
    }

    /// Whether nothing is kept about the subject: no part is there.
    pub open spec fn is_default(self) -> bool {
        self == GaggeeView::default_for(self.id)
    }

    /// What the subject takes along: each part as it is kept.
    pub open spec fn exported(self) -> PortableGaggeeView {
        PortableGaggeeView {
            trusts: self.trust,
            gags: self.gags,
            max_msg_length: self.max_msg_length,
            safewords: self.safewords,
            gag_defaults: self.gag_defaults,
        }
    }

    /// The subject `id` made of what was taken along: each part as it was
    /// taken.
    pub open spec fn imported(id: UserId, data: PortableGaggeeView) -> GaggeeView {
        GaggeeView {
            id,
            trust: data.trusts,
            gags: data.gags,
            max_msg_length: data.max_msg_length,
            safewords: data.safewords,
            gag_defaults: data.gag_defaults,
        }
    }
}

/// Everything that is kept about one subject. A part that is `None` counts
/// as its default.
#[derive(Debug, PartialEq, Eq)]
pub struct Gaggee {
    /// Who the subject is.
    pub id: UserId,
    /// The consent that the subject has given.
    pub trust: Option<GaggeeTrust>,
    /// The gags on the subject, by channel.
    pub gags: Option<HashMap<ChannelId, Gag>>,
    /// The length, in bytes, above which a message is left alone.
    pub max_msg_length: Option<usize>,
    /// The safewords of the subject.
    pub safewords: Option<Safewords>,
    /// The defaults for gags applied to the subject.
    pub gag_defaults: Option<GagDefaults>,
}

impl View for Gaggee {
    type V = GaggeeView;

    open spec fn view(&self) -> GaggeeView {
        GaggeeView {
            id: self.id,
            trust: match self.trust {
                Some(trust) => Some(trust@),
                None => None,
            },
            gags: match self.gags {
                Some(gags) => Some(gags@),
                None => None,
            },
            max_msg_length: self.max_msg_length,
            safewords: match self.safewords {
                Some(safewords) => Some(safewords@),
                None => None,
            },
            gag_defaults: match self.gag_defaults {
                Some(gag_defaults) => Some(gag_defaults@),
                None => None,
            },
        }
    }
}

impl Clone for Gaggee {
    fn clone(&self) -> (r: Self)
        ensures
            r@ == self@,
    {
        Gaggee {
            id: self.id,
            trust: match &self.trust {
                Some(trust) => Some(trust.clone()),
                None => None,
            },
            gags: match &self.gags {
                Some(gags) => Some(gags.clone()),
                None => None,
            },
            max_msg_length: self.max_msg_length,
            safewords: match &self.safewords {
                Some(safewords) => Some(safewords.clone()),
                None => None,
            },
            gag_defaults: match &self.gag_defaults {
                Some(gag_defaults) => Some(gag_defaults.clone()),
                None => None,
            },
        }
    }
}

impl Gaggee {
    /// The subject `id`, about whom nothing is kept yet.
    pub fn default_for(id: UserId) -> (r: Self)
        ensures
            r@ == GaggeeView::default_for(id),
    {
        Gaggee {
            id,
            trust: None,
            gags: None,
            max_msg_length: None,
            safewords: None,
            gag_defaults: None,
        }
    }

    /// What `member` may do to the subject. For the subject themself this is
    /// always [`Trust::for_self`], whatever they have stored.
    pub fn trust_for(&self, member: MemberId) -> (r: Trust)
        ensures
            r == self@.trust_for(member),
    {
        match &self.trust {
            Some(trust) => trust.trust_for(self.id, member),
            None => if self.id == member.user {
                Trust::for_self()
            } else {
                Trust::default()
            },
        }
    }

    /// Takes the consent out, or none given if none is kept.
    fn take_trust(&mut self) -> (r: GaggeeTrust)
        ensures
            r@ == old(self)@.trust_config(),
            final(self)@ == (GaggeeView { trust: None, ..old(self)@ }),
    {
        let mut part: Option<GaggeeTrust> = None;
        std::mem::swap(&mut self.trust, &mut part);
        match part {
            Some(trust) => trust,
            None => GaggeeTrust::default(),
        }
    }

    /// Takes the gags out, or none if none are kept.
    fn take_gags(&mut self) -> (r: HashMap<ChannelId, Gag>)
        ensures
            r@ == old(self)@.gag_map(),
            final(self)@ == (GaggeeView { gags: None, ..old(self)@ }),
    {
        let mut part: Option<HashMap<ChannelId, Gag>> = None;
        std::mem::swap(&mut self.gags, &mut part);
        match part {
            Some(gags) => gags,
            None => HashMap::new(),
        }
    }

    /// Takes the defaults for gags out, or none set if none are kept.
    fn take_defaults(&mut self) -> (r: GagDefaults)
        ensures
            r@ == old(self)@.defaults(),
            final(self)@ == (GaggeeView { gag_defaults: None, ..old(self)@ }),
    {
        let mut part: Option<GagDefaults> = None;
        std::mem::swap(&mut self.gag_defaults, &mut part);
        match part {
            Some(gag_defaults) => gag_defaults,
            None => GagDefaults::default(),
        }
    }

    /// The gag that is recorded for `channel`, if any.
    pub fn gag_in(&self, channel: ChannelId) -> (r: Option<Gag>)
        ensures
            r == self@.gag_map().get(channel),
    {
        match &self.gags {
            Some(gags) => match gags.get(&channel) {
                Some(gag) => Some(*gag),
                None => None,
            },
            None => None,
        }
    }

    /// Records `gag` for `channel`, in place of what was recorded there.
    fn put_gag(&mut self, channel: ChannelId, gag: Gag)
        ensures
            final(self)@ == old(self)@.with_gags(old(self)@.gag_map().insert(channel, gag)),
    {
        let mut gags = self.take_gags();
        gags.insert(channel, gag);
        self.gags = Some(gags);
    }

    /// Sets what everyone may do to the subject.
    pub fn set_trust_global(&mut self, trust: Trust)
        ensures
            final(self)@ == old(self)@.with_trust_global(trust),
    {
        let mut config = self.take_trust();
        config.set_global(trust);
        self.trust = Some(config);
    }

    /// Sets the subject's trust in `user`; returns whether one was set
    /// before.
    pub fn set_trust_for_user(&mut self, user: UserId, diff: TrustDiff) -> (r: bool)
        ensures
            final(self)@ == old(self)@.with_trust_for_user(user, diff),
            r == old(self)@.trust_config().per_user.contains_key(user),
    {
        let mut config = self.take_trust();
        let r = config.set_for_user(user, diff);
        self.trust = Some(config);
        r
    }

    /// Sets the subject's trust in the members of `guild`; returns whether
    /// one was set before.
    pub fn set_trust_for_guild(&mut self, guild: GuildId, diff: TrustDiff) -> (r: bool)
        ensures
            final(self)@ == old(self)@.with_trust_for_guild(guild, diff),
            r == old(self)@.trust_config().per_guild.contains_key(guild),
    {
        let mut config = self.take_trust();
        let r = config.set_for_guild(guild, diff);
        self.trust = Some(config);
        r
    }

    /// Sets the subject's trust in `member`; returns whether one was set
    /// before.
    pub fn set_trust_for_member(&mut self, member: MemberId, diff: TrustDiff) -> (r: bool)
        ensures
            final(self)@ == old(self)@.with_trust_for_member(member, diff),
            r == old(self)@.trust_config().per_member.contains_key(member),
    {
        let mut config = self.take_trust();
        let r = config.set_for_member(member, diff);
        self.trust = Some(config);
        r
    }

    /// Gags the subject in `channel`, if `gagger` may.
    pub fn gag(&mut self, gagger: MemberId, channel: ChannelId, gag: Gag) -> (r: Result<
        (),
        GagError,
    >)
        ensures
            r == old(self)@.gag_result(gagger, channel, gag),
            final(self)@ == old(self)@.after_gag(gagger, channel, gag),
    {
        let trust = self.trust_for(gagger);
        if !trust.gag {
            return Err(GagError::NoConsentForGag);
        }
        if gag.config.tie && !trust.tie {
            return Err(GagError::NoConsentForTie);
        }
        if !trust.gag_modes.contains(gag.config.mode) {
            return Err(GagError::NoConsentForMode);
        }
        if self.gag_in(channel).is_some() {
            return Err(GagError::AlreadyGagged);
        }
        self.put_gag(channel, gag);
        Ok(())
    }

    /// Lifts the gag on the subject in `channel`, if `gagger` may.
    pub fn ungag(&mut self, gagger: MemberId, channel: ChannelId) -> (r: Result<(), UngagError>)
        ensures
            r == old(self)@.ungag_result(gagger, channel),
            final(self)@ == old(self)@.after_ungag(gagger, channel),
    {
        let trust = self.trust_for(gagger);
        if !trust.ungag {
            return Err(UngagError::NoConsentForUngag);
        }
        let gag = match self.gag_in(channel) {
            Some(gag) => gag,
            None => {
                return Err(UngagError::WasntGagged);
            },
        };
        if !trust.gag_modes.contains(gag.config.mode) {
            return Err(UngagError::NoConsentForMode(gag.config.mode));
        }
        if gag.config.tie {
            if self.id == gagger.user {
                return Err(UngagError::CantUntieYourself);
            }
            if !trust.untie {
                return Err(UngagError::NoConsentForUntie);
            }
        }
        let mut gags = self.take_gags();
        gags.remove(&channel);
        self.gags = Some(gags);
        Ok(())
    }

    /// Ties the gag on the subject in `channel`, if `gagger` may.
    pub fn tie(&mut self, gagger: MemberId, channel: ChannelId) -> (r: Result<(), TieError>)
        ensures
            r == old(self)@.tie_result(gagger, channel),
            final(self)@ == old(self)@.after_tie(gagger, channel),
    {
        let trust = self.trust_for(gagger);
        if !trust.tie {
            return Err(TieError::NoConsentForTie);
        }
        let mut gag = match self.gag_in(channel) {
            Some(gag) => gag,
            None => {
                return Err(TieError::WasntGagged);
            },
        };
        if !trust.gag_modes.contains(gag.config.mode) {
            return Err(TieError::NoConsentForMode(gag.config.mode));
        }
        if gag.config.tie {
            return Err(TieError::AlreadyTied);
        }
        gag.config.tie = true;
        self.put_gag(channel, gag);
        Ok(())
    }

    /// Unties the gag on the subject in `channel`, if `gagger` may. The gag
    /// stays.
    pub fn untie(&mut self, gagger: MemberId, channel: ChannelId) -> (r: Result<(), UntieError>)
        ensures
            r == old(self)@.untie_result(gagger, channel),
            final(self)@ == old(self)@.after_untie(gagger, channel),
    {
        let trust = self.trust_for(gagger);
        if self.id == gagger.user {
            return Err(UntieError::CantUntieYourself);
        }
        if !trust.untie {
            return Err(UntieError::NoConsentForUntie);
        }
        let mut gag = match self.gag_in(channel) {
            Some(gag) => gag,
            None => {
                return Err(UntieError::WasntGagged);
            },
        };
        if !trust.gag_modes.contains(gag.config.mode) {
            return Err(UntieError::NoConsentForMode(gag.config.mode));
        }
        if !gag.config.tie {
            return Err(UntieError::WasntTied);
        }
        gag.config.tie = false;
        self.put_gag(channel, gag);
        Ok(())
    }

    /// Changes the mode of the gag on the subject in `channel`, if `gagger`
    /// may, and returns the mode that it had.
    pub fn change_gag(&mut self, gagger: MemberId, channel: ChannelId, mode: GagModeName) -> (r:
        Result<GagModeName, ChangeGagError>)
        ensures
            r == old(self)@.change_gag_result(gagger, channel, mode),
            final(self)@ == old(self)@.after_change_gag(gagger, channel, mode),
    {
        let trust = self.trust_for(gagger);
        if !trust.gag {
            return Err(ChangeGagError::NoConsentForGag);
        }
        if !trust.gag_modes.contains(mode) {
            return Err(ChangeGagError::NoConsentForMode(mode));
        }
        let mut gag = match self.gag_in(channel) {
            Some(gag) => gag,
            None => {
                return Err(ChangeGagError::WasntGagged);
            },
        };
        let old_mode = gag.config.mode;
        gag.config.mode = mode;
        self.put_gag(channel, gag);
        Ok(old_mode)
    }

    /// The gag that applies to a message written in `channel` at
    /// `timestamp`, if any.
    pub fn gag_at(&self, channel: ChannelId, timestamp: Timestamp) -> (r: Option<Gag>)
        ensures
            r == self@.gag_at(channel, timestamp),
    {
        match self.gag_in(channel) {
            Some(gag) => if gag.is_expired_at(timestamp) {
                None
            } else {
                Some(gag)
            },
            None => None,
        }
    }

    /// The limit that counts: the one that is kept, or the default.
    pub fn limit(&self) -> (r: usize)
        ensures
            r == self@.limit(),
    {
        match self.max_msg_length {
            Some(limit) => limit,
            None => default_max_msg_length(),
        }
    }

    /// Whether a safeword of the subject switches enforcement off in
    /// `channel`, which lies in `server` if that is `Some`.
    pub fn is_safewording(&self, channel: ChannelId, server: Option<GuildId>) -> (r: bool)
        ensures
            r == self@.safeword_flags().is_safewording(channel, server),
    {
        match &self.safewords {
            Some(safewords) => safewords.is_safewording(channel, server),
            None => false,
        }
    }

    /// The safewords of the subject that are on and concern `channel`, as
    /// [`Safewords::get_relevant_safewords`] lists them.
    pub fn get_relevant_safewords(&self, channel: ChannelId, server: Option<GuildId>) -> (r: Vec<
        SafewordLocation,
    >)
        ensures
            r@ == self@.safeword_flags().relevant(channel, server),
    {
        match &self.safewords {
            Some(safewords) => safewords.get_relevant_safewords(channel, server),
            None => {
                let none: Vec<SafewordLocation> = Vec::new();
                assert(none@ =~= SafewordsView::spec_default().relevant(channel, server));
                none
            },
        }
    }

    /// What to do with a message of `len` bytes that the subject wrote in
    /// `channel`, which lies in `server` if that is `Some`, at `timestamp`.
    /// Changes nothing.
    pub fn get_action(
        &self,
        channel: ChannelId,
        server: Option<GuildId>,
        len: usize,
        timestamp: Timestamp,
    ) -> (r: Option<MessageAction>)
        ensures
            r == self@.action(channel, server, len, timestamp),
    {
        match self.gag_at(channel, timestamp) {
            None => None,
            Some(gag) => if self.is_safewording(channel, server) {
                None
            } else if len <= self.limit() {
                Some(MessageAction::Gag(gag.config.mode))
            } else {
                Some(MessageAction::WarnTooLong(self.limit()))
            },
        }
    }

    /// Sets the safeword at `location` to `on`. Returns whether that changed
    /// it.
    ///
    /// For [`SafewordLocation::Server`] without a community the answer is
    /// [`SafewordError::NotInServer`] and nothing changes. No gag is touched.
    pub fn set_safeword(
        &mut self,
        location: SafewordLocation,
        on: bool,
        channel: ChannelId,
        server: Option<GuildId>,
    ) -> (r: Result<bool, SafewordError>)
        ensures
            r == old(self)@.safeword_flags().set_result(location, on, channel, server),
            final(self)@ == old(self)@.after_set_safeword(location, on, channel, server),
    {
        let mut part: Option<Safewords> = None;
        std::mem::swap(&mut self.safewords, &mut part);
        let (mut safewords, kept) = match part {
            Some(safewords) => (safewords, true),
            None => (Safewords::default(), false),
        };
        let r = if on {
            safewords.add_safeword(location, channel, server)
        } else {
            safewords.remove_safeword(location, channel, server)
        };
        if kept || r.is_ok() {
            self.safewords = Some(safewords);
        }
        r
    }

    /// Sets the length, in bytes, above which a message is left alone.
    pub fn set_max_msg_length(&mut self, length: usize)
        ensures
            final(self)@ == old(self)@.with_limit(length),
    {
        self.max_msg_length = Some(length);
    }

    /// How a gag by `gagger` works: the subject's defaults for the gagger,
    /// overridden by what the gagger asks for.
    pub fn gag_config_for(
        &self,
        gagger: MemberId,
        tie: Option<bool>,
        mode: Option<GagModeName>,
    ) -> (r: GagConfig)
        ensures
            r == (GagConfigDiff { tie, mode }).applied(self@.defaults().default_for(gagger)),
    {
        let mut config = match &self.gag_defaults {
            Some(gag_defaults) => gag_defaults.default_for(gagger),
            None => GagConfig::default(),
        };
        (GagConfigDiff { tie, mode }).apply(&mut config);
        config
    }

    /// Sets the defaults for gags by anyone.
    pub fn set_gag_default_global(&mut self, diff: GagConfigDiff)
        ensures
            final(self)@ == old(self)@.with_gag_default_global(diff),
    {
        let mut defaults = self.take_defaults();
        defaults.set_global(diff);
        self.gag_defaults = Some(defaults);
    }

    /// Sets the defaults for gags by the members of `guild`.
    pub fn set_gag_default_for_guild(&mut self, guild: GuildId, diff: GagConfigDiff)
        ensures
            final(self)@ == old(self)@.with_gag_default_for_guild(guild, diff),
    {
        let mut defaults = self.take_defaults();
        defaults.set_for_guild(guild, diff);
        self.gag_defaults = Some(defaults);
    }

    /// Sets the defaults for gags by `gagger`.
    pub fn set_gag_default_for_user(&mut self, gagger: UserId, diff: GagConfigDiff)
        ensures
            final(self)@ == old(self)@.with_gag_default_for_user(gagger, diff),
    {
        let mut defaults = self.take_defaults();
        defaults.set_for_user(gagger, diff);
        self.gag_defaults = Some(defaults);
    }

    /// Sets the defaults for gags by `gagger` in the gagger's community.
    pub fn set_gag_default_for_member(&mut self, gagger: MemberId, diff: GagConfigDiff)
        ensures
            final(self)@ == old(self)@.with_gag_default_for_member(gagger, diff),
    {
        let mut defaults = self.take_defaults();
        defaults.set_for_member(gagger, diff);
        self.gag_defaults = Some(defaults);
    }

    /// Sweeps the subject: removes the gags that have run out at `now`, and
    /// each part that then says no more than its default.
    pub fn cleanup(&mut self, now: Timestamp)
        ensures
            final(self)@ == old(self)@.swept(now),
    {
        let mut gags = self.take_gags();
        let ghost before = gags@;
        let channels = keys_of(&gags);
        let n = channels.len();
        let mut i: usize = 0;
        while i < n
            invariant
                i <= n,
                n == channels@.len(),
                forall|c: ChannelId| channels@.contains(c) <==> before.contains_key(c),
                forall|c: ChannelId| #[trigger]
                    gags@.contains_key(c) ==> before.contains_key(c) && gags@[c] == before[c],
                forall|c: ChannelId|
                    before.contains_key(c) ==> (#[trigger] gags@.contains_key(c) <==> !(
                    before[c].expired_at(now) && exists|j: int|
                        0 <= j < i && channels@[j] == c)),
            decreases n - i,
        {
            let channel = channels[i];
            let expired = match gags.get(&channel) {
                Some(gag) => gag.is_expired_at(now),
                None => false,
            };
            if expired {
                gags.remove(&channel);
            }
            proof {
                assert forall|c: ChannelId| before.contains_key(c) implies (
                #[trigger] gags@.contains_key(c) <==> !(before[c].expired_at(now) && exists|j: int|
                    0 <= j < i + 1 && channels@[j] == c)) by {
                    if c == channel {
                        assert(channels@[i as int] == c);
                    } else {
                        if exists|j: int| 0 <= j < i + 1 && channels@[j] == c {
                            let j = choose|j: int| 0 <= j < i + 1 && channels@[j] == c;
                            assert(0 <= j < i && channels@[j] == c);
                        }
                    }
                }
            }
            i = i + 1;
        }
        proof {
            assert forall|c: ChannelId| before.contains_key(c) implies (gags@.contains_key(c)
                <==> !before[c].expired_at(now)) by {
                assert(channels@.contains(c));
                let j = choose|j: int| 0 <= j < channels@.len() && channels@[j] == c;
                assert(0 <= j < i && channels@[j] == c);
            }
            assert(gags@ =~= unexpired(before, now));
        }
        let none_left = gags.is_empty();
        proof {
            if none_left {
                assert(gags@ =~= Map::<ChannelId, Gag>::empty());
            }
        }
        if !none_left {
            self.gags = Some(gags);
        }
        let trust_says_nothing = match &self.trust {
            Some(trust) => trust.is_default(),
            None => false,
        };
        if trust_says_nothing {
            self.trust = None;
        }
        if self.max_msg_length == Some(default_max_msg_length()) {
            self.max_msg_length = None;
        }
        let safewords_say_nothing = match &self.safewords {
            Some(safewords) => safewords.is_default(),
            None => false,
        };
        if safewords_say_nothing {
            self.safewords = None;
        }
        let defaults_say_nothing = match &self.gag_defaults {
            Some(gag_defaults) => gag_defaults.is_default(),
            None => false,
        };
        if defaults_say_nothing {
            self.gag_defaults = None;
        }
    }

    /// Whether nothing is kept about the subject: no part is there.
    pub fn is_default(&self) -> (r: bool)
        ensures
            r == self@.is_default(),
    {
        self.trust.is_none() && self.gags.is_none() && self.max_msg_length.is_none()
            && self.safewords.is_none() && self.gag_defaults.is_none()
    }

    /// What the subject takes along to another instance: a copy of each part
    /// that is kept.
    pub fn export(&self) -> (r: PortableGaggee)
        ensures
            r@ == self@.exported(),
    {
        PortableGaggee {
            trusts: match &self.trust {
                Some(trust) => Some(trust.clone()),
                None => None,
            },
            gags: match &self.gags {
                Some(gags) => Some(gags.clone()),
                None => None,
            },
            max_msg_length: self.max_msg_length,
            safewords: match &self.safewords {
                Some(safewords) => Some(safewords.clone()),
                None => None,
            },
            gag_defaults: match &self.gag_defaults {
                Some(gag_defaults) => Some(gag_defaults.clone()),
                None => None,
            },
        }
    }

    /// Replaces everything that is kept about the subject by `data`: each
    /// part that is there is kept as it is, each that is absent is kept no
    /// more.
    pub fn import(&mut self, data: PortableGaggee)
        ensures
            final(self)@ == GaggeeView::imported(old(self)@.id, data@),
            final(self)@.exported() == data@,
    {
        let PortableGaggee { trusts, gags, max_msg_length, safewords, gag_defaults } = data;
        self.trust = trusts;
        self.gags = gags;
        self.max_msg_length = max_msg_length;
        self.safewords = safewords;
        self.gag_defaults = gag_defaults;
    }
}

/// Sweeping a subject about whom nothing is kept leaves nothing kept.
pub proof fn lemma_swept_default(id: UserId, now: Timestamp)
    ensures
        GaggeeView::default_for(id).swept(now) == GaggeeView::default_for(id),
{
}

/// Sweeping twice at one time is sweeping once.
pub proof fn lemma_swept_twice(subject: GaggeeView, now: Timestamp)
    ensures
        subject.swept(now).swept(now) == subject.swept(now),
{
    let once = unexpired(subject.gag_map(), now);
    assert(unexpired(once, now) =~= once);
    assert(unexpired(Map::<ChannelId, Gag>::empty(), now) =~= Map::<ChannelId, Gag>::empty());
}

} // verus!
