//! The whole state: one record per subject, each behind its identifier.
//!
//! A subject about whom nothing is kept has no record, and a record of which
//! no part is left is dropped at once: a record is there exactly when some
//! part is kept.

use std::collections::HashMap;
use vstd::prelude::*;
use crate::action::{InboundMessage, MessageAction};
use crate::collections::keys_of;
use crate::errors::{ChangeGagError, GagError, TieError, UngagError, UntieError};
use crate::gaggee::{lemma_swept_default, lemma_swept_twice, Gaggee, GaggeeView};
use crate::gags::{ChangeGag, Gag, GagConfig, GagConfigDiff, NewGag, NewTie, NewUngag, NewUntie};
use crate::member_id::{ChannelId, GuildId, MemberId, Timestamp, UserId};
use crate::modes::GagModeName;
use crate::portable::PortableGaggee;
use crate::safeword::{SafewordError, SafewordLocation, SafewordsView};
use crate::trust::{SetTrustError, Trust, TrustDiff};

verus! {

/// The state of the bot.
#[derive(Debug)]
pub struct State {
    gaggees: HashMap<UserId, Gaggee>,
}

impl State {
    /// Every record is filed under its subject, and in each some part is
    /// kept.
    #[verifier::type_invariant]
    spec fn inv(self) -> bool {
        forall|id: UserId| #[trigger]
            self.gaggees@.contains_key(id) ==> self.gaggees@[id].id == id
                && !self.gaggees@[id]@.is_default()
    }

    /// Whether a record is held for `id`.
    pub closed spec fn holds_record(self, id: UserId) -> bool {
        self.gaggees@.contains_key(id)
    }

    /// What is kept about `id`: the record if one is held, and "nothing is
    /// kept" if none is.
    pub closed spec fn subject(self, id: UserId) -> GaggeeView {
        if self.gaggees@.contains_key(id) {
            GaggeeView { id, ..self.gaggees@[id]@ }
        } else {
            GaggeeView::default_for(id)
        }
    }

    /// The subject that the state answers for under `id` is `id`.
    pub proof fn lemma_subject_id(self, id: UserId)
        ensures
            self.subject(id).id == id,
    {
    }

    /// The state in which nothing is kept about anyone.
    pub fn new() -> (r: Self)
        ensures
            forall|id: UserId| #[trigger] r.subject(id) == GaggeeView::default_for(id),
            forall|id: UserId| !#[trigger] r.holds_record(id),
    {
        State { gaggees: HashMap::new() }
    }

    /// Takes the record of `id` out of the state.
    fn take(&mut self, id: UserId) -> (r: Gaggee)
        ensures
            r@ == old(self).subject(id),
            final(self).gaggees@ == old(self).gaggees@.remove(id),
    {
        proof {
            use_type_invariant(&*self);
        }
        // The map is moved out while it is changed: what stands in `self`
        // holds the invariant at every step.
        let mut records: HashMap<UserId, Gaggee> = HashMap::new();
        std::mem::swap(&mut self.gaggees, &mut records);
        let found = records.remove(&id);
        std::mem::swap(&mut self.gaggees, &mut records);
        match found {
            Some(gaggee) => gaggee,
            None => Gaggee::default_for(id),
        }
    }

    /// Files `gaggee`, unless no part of it is kept.
    fn put(&mut self, gaggee: Gaggee)
        requires
            !old(self).gaggees@.contains_key(gaggee.id),
        ensures
            final(self).subject(gaggee.id) == gaggee@,
            forall|id: UserId|
                #![trigger final(self).subject(id)]
                id != gaggee.id ==> final(self).subject(id) == old(self).subject(id),
            forall|id: UserId|
                #![trigger final(self).holds_record(id)]
                id != gaggee.id ==> final(self).holds_record(id) == old(self).holds_record(id),
            final(self).holds_record(gaggee.id) <==> !gaggee@.is_default(),
    {
        proof {
            use_type_invariant(&*self);
        }
        if !gaggee.is_default() {
            let mut records: HashMap<UserId, Gaggee> = HashMap::new();
            std::mem::swap(&mut self.gaggees, &mut records);
            records.insert(gaggee.id, gaggee);
            std::mem::swap(&mut self.gaggees, &mut records);
        }
    }

    /// What `gagger` may do to `gaggee`.
    pub fn trust_for(&self, gaggee: UserId, gagger: MemberId) -> (r: Trust)
        ensures
            r == self.subject(gaggee).trust_for(gagger),
            self.subject(gaggee).id == gaggee,
    {
        proof {
            use_type_invariant(self);
        }
        match self.gaggees.get(&gaggee) {
            Some(record) => record.trust_for(gagger),
            None => Gaggee::default_for(gaggee).trust_for(gagger),
        }
    }

    /// Gags `gaggee` in the channel of `new_gag`, if `gagger` may.
    pub fn gag(&mut self, gaggee: UserId, gagger: MemberId, new_gag: NewGag) -> (r: Result<
        (),
        GagError,
    >)
        ensures
            r == old(self).subject(gaggee).gag_result(gagger, new_gag.channel, new_gag.gag),
            old(self).subject(gaggee).id == gaggee,
            final(self).subject(gaggee) == old(self).subject(gaggee).after_gag(
                gagger,
                new_gag.channel,
                new_gag.gag,
            ),
            forall|id: UserId|
                #![trigger final(self).subject(id)]
                id != gaggee ==> final(self).subject(id) == old(self).subject(id),
    {
        let mut record = self.take(gaggee);
        let r = record.gag(gagger, new_gag.channel, new_gag.gag);
        self.put(record);
        r
    }

    /// Lifts the gag on `gaggee` in the channel of `new_ungag`, if `gagger`
    /// may.
    pub fn ungag(&mut self, gaggee: UserId, gagger: MemberId, new_ungag: NewUngag) -> (r: Result<
        (),
        UngagError,
    >)
        ensures
            r == old(self).subject(gaggee).ungag_result(gagger, new_ungag.channel),
            old(self).subject(gaggee).id == gaggee,
            final(self).subject(gaggee) == old(self).subject(gaggee).after_ungag(
                gagger,
                new_ungag.channel,
            ),
            forall|id: UserId|
                #![trigger final(self).subject(id)]
                id != gaggee ==> final(self).subject(id) == old(self).subject(id),
    {
        let mut record = self.take(gaggee);
        let r = record.ungag(gagger, new_ungag.channel);
        self.put(record);
        r
    }

    /// Ties the gag on `gaggee` in the channel of `new_tie`, if `gagger` may.
    pub fn tie(&mut self, gaggee: UserId, gagger: MemberId, new_tie: NewTie) -> (r: Result<
        (),
        TieError,
    >)
        ensures
            r == old(self).subject(gaggee).tie_result(gagger, new_tie.channel),
            old(self).subject(gaggee).id == gaggee,
            final(self).subject(gaggee) == old(self).subject(gaggee).after_tie(
                gagger,
                new_tie.channel,
            ),
            forall|id: UserId|
                #![trigger final(self).subject(id)]
                id != gaggee ==> final(self).subject(id) == old(self).subject(id),
    {
        let mut record = self.take(gaggee);
        let r = record.tie(gagger, new_tie.channel);
        self.put(record);
        r
    }

    /// Unties the gag on `gaggee` in the channel of `new_untie`, if `gagger`
    /// may. The gag stays.
    pub fn untie(&mut self, gaggee: UserId, gagger: MemberId, new_untie: NewUntie) -> (r: Result<
        (),
        UntieError,
    >)
        ensures
            r == old(self).subject(gaggee).untie_result(gagger, new_untie.channel),
            old(self).subject(gaggee).id == gaggee,
            final(self).subject(gaggee) == old(self).subject(gaggee).after_untie(
                gagger,
                new_untie.channel,
            ),
            forall|id: UserId|
                #![trigger final(self).subject(id)]
                id != gaggee ==> final(self).subject(id) == old(self).subject(id),
    {
        let mut record = self.take(gaggee);
        let r = record.untie(gagger, new_untie.channel);
        self.put(record);
        r
    }

    /// Changes the mode of the gag on `gaggee` as `change_gag` says, if
    /// `gagger` may, and returns the mode that the gag had.
    pub fn change_gag(&mut self, gaggee: UserId, gagger: MemberId, change_gag: ChangeGag) -> (r:
        Result<GagModeName, ChangeGagError>)
        ensures
            r == old(self).subject(gaggee).change_gag_result(
                gagger,
                change_gag.channel,
                change_gag.mode,
            ),
            old(self).subject(gaggee).id == gaggee,
            final(self).subject(gaggee) == old(self).subject(gaggee).after_change_gag(
                gagger,
                change_gag.channel,
                change_gag.mode,
            ),
            forall|id: UserId|
                #![trigger final(self).subject(id)]
                id != gaggee ==> final(self).subject(id) == old(self).subject(id),
    {
        let mut record = self.take(gaggee);
        let r = record.change_gag(gagger, change_gag.channel, change_gag.mode);
        self.put(record);
        r
    }

    /// What to do with a message of `len` bytes that `subject` wrote in
    /// `channel`, which lies in `server` if that is `Some`, at `timestamp`.
    /// Changes nothing.
    pub fn decide_action(
        &self,
        subject: UserId,
        channel: ChannelId,
        server: Option<GuildId>,
        len: usize,
        timestamp: Timestamp,
    ) -> (r: Option<MessageAction>)
        ensures
            r == self.subject(subject).action(channel, server, len, timestamp),
    {
        match self.gaggees.get(&subject) {
            Some(record) => record.get_action(channel, server, len, timestamp),
            None => None,
        }
    }

    /// What to do with `msg`: nothing if it forwards another message, and
    /// else what [`State::decide_action`] says of its author, channel,
    /// community, length and time.
    pub fn get_action(&self, msg: &InboundMessage) -> (r: Option<MessageAction>)
        ensures
            r == if msg.forwarded {
                None
            } else {
                self.subject(msg.author).action(
                    msg.channel_id,
                    msg.guild_id,
                    msg.content_len,
                    msg.timestamp,
                )
            },
    {
        if msg.forwarded {
            None
        } else {
            self.decide_action(
                msg.author,
                msg.channel_id,
                msg.guild_id,
                msg.content_len,
                msg.timestamp,
            )
        }
    }

    /// Sweeps every subject: removes every gag that has run out at `now`,
    /// then every part that says no more than its default, and every record
    /// of which no part is left. What the state answers for a message written
    /// at `now` or later is as before.
    pub fn cleanup(&mut self, now: Timestamp)
        ensures
            forall|id: UserId|
                #![trigger final(self).subject(id)]
                final(self).subject(id) == old(self).subject(id).swept(now),
            forall|id: UserId|
                #![trigger final(self).holds_record(id)]
                final(self).holds_record(id) <==> !final(self).subject(id).is_default(),
    {
        let ghost before = *self;
        proof {
            use_type_invariant(&*self);
        }
        let ids = keys_of(&self.gaggees);
        let n = ids.len();
        let mut i: usize = 0;
        while i < n
            invariant
                i <= n,
                n == ids@.len(),
                forall|id: UserId| ids@.contains(id) <==> before.gaggees@.contains_key(id),
                forall|id: UserId|
                    (exists|j: int| 0 <= j < i && ids@[j] == id) ==> #[trigger] self.subject(id)
                        == before.subject(id).swept(now),
                forall|id: UserId|
                    !(exists|j: int| 0 <= j < i && ids@[j] == id) ==> #[trigger] self.subject(id)
                        == before.subject(id),
            decreases n - i,
        {
            let id = ids[i];
            let ghost entering = *self;
            let mut record = self.take(id);
            record.cleanup(now);
            self.put(record);
            proof {
                assert forall|other: UserId|
                    (exists|j: int| 0 <= j < i + 1 && ids@[j] == other) implies (
                #[trigger] self.subject(other)) == before.subject(other).swept(now) by {
                    if other == id {
                        if exists|j: int| 0 <= j < i && ids@[j] == id {
                            lemma_swept_twice(before.subject(id), now);
                        }
                    } else {
                        let j = choose|j: int| 0 <= j < i + 1 && ids@[j] == other;
                        assert(0 <= j < i && ids@[j] == other);
                        assert(entering.subject(other) == before.subject(other).swept(now));
                    }
                }
                assert forall|other: UserId|
                    !(exists|j: int| 0 <= j < i + 1 && ids@[j] == other) implies (
                #[trigger] self.subject(other)) == before.subject(other) by {
                    assert(other != id) by {
                        if other == id {
                            assert(0 <= i < i + 1 && ids@[i as int] == other);
                        }
                    }
                    if exists|j: int| 0 <= j < i && ids@[j] == other {
                        let j = choose|j: int| 0 <= j < i && ids@[j] == other;
                        assert(0 <= j < i + 1 && ids@[j] == other);
                    }
                    assert(entering.subject(other) == before.subject(other));
                }
            }
            i = i + 1;
        }
        proof {
            use_type_invariant(&*self);
            assert forall|id: UserId| self.subject(id) == before.subject(id).swept(now) by {
                if before.gaggees@.contains_key(id) {
                    assert(ids@.contains(id));
                    let j = choose|j: int| 0 <= j < ids@.len() && ids@[j] == id;
                    assert(0 <= j < i && ids@[j] == id);
                } else {
                    if exists|j: int| 0 <= j < i && ids@[j] == id {
                        let j = choose|j: int| 0 <= j < i && ids@[j] == id;
                        assert(ids@.contains(id));
                    }
                    lemma_swept_default(id, now);
                }
            }
        }
    }

    /// Sets the safeword of `user` at `location` to `on`. Returns whether
    /// that changed it; for a community without a community, that there is
    /// none, and then nothing changes. No gag is touched.
    pub fn set_safeword(
        &mut self,
        user: UserId,
        location: SafewordLocation,
        on: bool,
        channel: ChannelId,
        server: Option<GuildId>,
    ) -> (r: Result<bool, SafewordError>)
        ensures
            r == old(self).subject(user).safeword_flags().set_result(
                location,
                on,
                channel,
                server,
            ),
            final(self).subject(user) == old(self).subject(user).after_set_safeword(
                location,
                on,
                channel,
                server,
            ),
            forall|id: UserId|
                #![trigger final(self).subject(id)]
                id != user ==> final(self).subject(id) == old(self).subject(id),
    {
        let mut record = self.take(user);
        let r = record.set_safeword(location, on, channel, server);
        self.put(record);
        r
    }

    /// Switches the safeword of `user` at `location` on, and lists the
    /// safewords that then concern `channel`.
    pub fn safeword(
        &mut self,
        user: UserId,
        location: SafewordLocation,
        channel: ChannelId,
        server: Option<GuildId>,
    ) -> (r: (Result<bool, SafewordError>, Vec<SafewordLocation>))
        ensures
            r.0 == old(self).subject(user).safeword_flags().set_result(
                location,
                true,
                channel,
                server,
            ),
            r.1@ == final(self).subject(user).safeword_flags().relevant(channel, server),
            final(self).subject(user) == old(self).subject(user).after_set_safeword(
                location,
                true,
                channel,
                server,
            ),
            forall|id: UserId|
                #![trigger final(self).subject(id)]
                id != user ==> final(self).subject(id) == old(self).subject(id),
    {
        let mut record = self.take(user);
        let changed = record.set_safeword(location, true, channel, server);
        let relevant = record.get_relevant_safewords(channel, server);
        self.put(record);
        (changed, relevant)
    }

    /// Switches the safeword of `user` at `location` off, and lists the
    /// safewords that still concern `channel`.
    pub fn unsafeword(
        &mut self,
        user: UserId,
        location: SafewordLocation,
        channel: ChannelId,
        server: Option<GuildId>,
    ) -> (r: (Result<bool, SafewordError>, Vec<SafewordLocation>))
        ensures
            r.0 == old(self).subject(user).safeword_flags().set_result(
                location,
                false,
                channel,
                server,
            ),
            r.1@ == final(self).subject(user).safeword_flags().relevant(channel, server),
            final(self).subject(user) == old(self).subject(user).after_set_safeword(
                location,
                false,
                channel,
                server,
            ),
            forall|id: UserId|
                #![trigger final(self).subject(id)]
                id != user ==> final(self).subject(id) == old(self).subject(id),
    {
        let mut record = self.take(user);
        let changed = record.set_safeword(location, false, channel, server);
        let relevant = record.get_relevant_safewords(channel, server);
        self.put(record);
        (changed, relevant)
    }

    /// Whether a safeword of `user` switches enforcement off in `channel`,
    /// which lies in `server` if that is `Some`.
    pub fn is_suppressed(&self, user: UserId, channel: ChannelId, server: Option<GuildId>) -> (r:
        bool)
        ensures
            r == self.subject(user).safeword_flags().is_safewording(channel, server),
    {
        match self.gaggees.get(&user) {
            Some(record) => record.is_safewording(channel, server),
            None => false,
        }
    }

    /// The gag that applies to `target` in `channel` at `now`, if any, and
    /// the safewords of `target` that concern the channel.
    pub fn status(
        &self,
        target: UserId,
        channel: ChannelId,
        server: Option<GuildId>,
        now: Timestamp,
    ) -> (r: (Option<Gag>, Vec<SafewordLocation>))
        ensures
            r.0 == self.subject(target).gag_at(channel, now),
            r.1@ == self.subject(target).safeword_flags().relevant(channel, server),
    {
        match self.gaggees.get(&target) {
            Some(record) => (
                record.gag_at(channel, now),
                record.get_relevant_safewords(channel, server),
            ),
            None => {
                let relevant: Vec<SafewordLocation> = Vec::new();
                assert(relevant@ =~= SafewordsView::spec_default().relevant(channel, server));
                (None, relevant)
            },
        }
    }

    /// Sets the length, in bytes, above which a message of `user` is left
    /// alone.
    pub fn set_max_msg_length(&mut self, user: UserId, length: usize)
        ensures
            final(self).subject(user) == old(self).subject(user).with_limit(length),
            forall|id: UserId|
                #![trigger final(self).subject(id)]
                id != user ==> final(self).subject(id) == old(self).subject(id),
    {
        let mut record = self.take(user);
        record.set_max_msg_length(length);
        self.put(record);
    }

    /// Sets what everyone may do to `gaggee`.
    pub fn set_trust_global(&mut self, gaggee: UserId, trust: Trust)
        ensures
            final(self).subject(gaggee) == old(self).subject(gaggee).with_trust_global(trust),
            forall|id: UserId|
                #![trigger final(self).subject(id)]
                id != gaggee ==> final(self).subject(id) == old(self).subject(id),
    {
        let mut record = self.take(gaggee);
        record.set_trust_global(trust);
        self.put(record);
    }

    /// Sets the trust of `gaggee` in the members of `guild`; returns whether
    /// one was set before.
    pub fn set_trust_for_guild(&mut self, gaggee: UserId, guild: GuildId, diff: TrustDiff) -> (r:
        bool)
        ensures
            r == old(self).subject(gaggee).trust_config().per_guild.contains_key(guild),
            final(self).subject(gaggee) == old(self).subject(gaggee).with_trust_for_guild(
                guild,
                diff,
            ),
            forall|id: UserId|
                #![trigger final(self).subject(id)]
                id != gaggee ==> final(self).subject(id) == old(self).subject(id),
    {
        let mut record = self.take(gaggee);
        let r = record.set_trust_for_guild(guild, diff);
        self.put(record);
        r
    }

    /// Sets the trust of `gaggee` in `user`, who must be someone else;
    /// returns whether one was set before.
    pub fn set_trust_for_user(&mut self, gaggee: UserId, user: UserId, diff: TrustDiff) -> (r:
        Result<bool, SetTrustError>)
        ensures
            user == gaggee ==> r == Err::<bool, SetTrustError>(SetTrustError::CantTrustYourself)
                && final(self).subject(gaggee) == old(self).subject(gaggee),
            user != gaggee ==> r == Ok::<bool, SetTrustError>(
                old(self).subject(gaggee).trust_config().per_user.contains_key(user),
            ) && final(self).subject(gaggee) == old(self).subject(gaggee).with_trust_for_user(
                user,
                diff,
            ),
            forall|id: UserId|
                #![trigger final(self).subject(id)]
                id != gaggee ==> final(self).subject(id) == old(self).subject(id),
    {
        if user == gaggee {
            return Err(SetTrustError::CantTrustYourself);
        }
        let mut record = self.take(gaggee);
        let r = record.set_trust_for_user(user, diff);
        self.put(record);
        Ok(r)
    }

    /// Sets the trust of `gaggee` in `member`, who must be someone else;
    /// returns whether one was set before.
    pub fn set_trust_for_member(&mut self, gaggee: UserId, member: MemberId, diff: TrustDiff) -> (r:
        Result<bool, SetTrustError>)
        ensures
            member.user == gaggee ==> r == Err::<bool, SetTrustError>(
                SetTrustError::CantTrustYourself,
            ) && final(self).subject(gaggee) == old(self).subject(gaggee),
            member.user != gaggee ==> r == Ok::<bool, SetTrustError>(
                old(self).subject(gaggee).trust_config().per_member.contains_key(member),
            ) && final(self).subject(gaggee) == old(self).subject(gaggee).with_trust_for_member(
                member,
                diff,
            ),
            forall|id: UserId|
                #![trigger final(self).subject(id)]
                id != gaggee ==> final(self).subject(id) == old(self).subject(id),
    {
        if member.user == gaggee {
            return Err(SetTrustError::CantTrustYourself);
        }
        let mut record = self.take(gaggee);
        let r = record.set_trust_for_member(member, diff);
        self.put(record);
        Ok(r)
    }

    /// How a gag on `target` by `gagger` works: the defaults that `target`
    /// has set for the gagger, overridden by what the gagger asks for.
    pub fn gag_config_for(
        &self,
        target: UserId,
        gagger: MemberId,
        tie: Option<bool>,
        mode: Option<GagModeName>,
    ) -> (r: GagConfig)
        ensures
            r == (GagConfigDiff { tie, mode }).applied(
                self.subject(target).defaults().default_for(gagger),
            ),
    {
        match self.gaggees.get(&target) {
            Some(record) => record.gag_config_for(gagger, tie, mode),
            None => Gaggee::default_for(target).gag_config_for(gagger, tie, mode),
        }
    }

    /// Sets the defaults of `user` for gags by anyone.
    pub fn set_gag_default_global(&mut self, user: UserId, diff: GagConfigDiff)
        ensures
            final(self).subject(user) == old(self).subject(user).with_gag_default_global(diff),
            forall|id: UserId|
                #![trigger final(self).subject(id)]
                id != user ==> final(self).subject(id) == old(self).subject(id),
    {
        let mut record = self.take(user);
        record.set_gag_default_global(diff);
        self.put(record);
    }

    /// Sets the defaults of `user` for gags by the members of `guild`.
    pub fn set_gag_default_for_guild(&mut self, user: UserId, guild: GuildId, diff: GagConfigDiff)
        ensures
            final(self).subject(user) == old(self).subject(user).with_gag_default_for_guild(
                guild,
                diff,
            ),
            forall|id: UserId|
                #![trigger final(self).subject(id)]
                id != user ==> final(self).subject(id) == old(self).subject(id),
    {
        let mut record = self.take(user);
        record.set_gag_default_for_guild(guild, diff);
        self.put(record);
    }

    /// Sets the defaults of `user` for gags by `gagger`.
    pub fn set_gag_default_for_user(&mut self, user: UserId, gagger: UserId, diff: GagConfigDiff)
        ensures
            final(self).subject(user) == old(self).subject(user).with_gag_default_for_user(
                gagger,
                diff,
            ),
            forall|id: UserId|
                #![trigger final(self).subject(id)]
                id != user ==> final(self).subject(id) == old(self).subject(id),
    {
        let mut record = self.take(user);
        record.set_gag_default_for_user(gagger, diff);
        self.put(record);
    }

    /// Sets the defaults of `user` for gags by `gagger` in the gagger's
    /// community.
    pub fn set_gag_default_for_member(
        &mut self,
        user: UserId,
        gagger: MemberId,
        diff: GagConfigDiff,
    )
        ensures
            final(self).subject(user) == old(self).subject(user).with_gag_default_for_member(
                gagger,
                diff,
            ),
            forall|id: UserId|
                #![trigger final(self).subject(id)]
                id != user ==> final(self).subject(id) == old(self).subject(id),
    {
        let mut record = self.take(user);
        record.set_gag_default_for_member(gagger, diff);
        self.put(record);
    }

    /// The subjects about whom anything is kept, each once, in no particular
    /// order.
    pub fn subjects(&self) -> (r: Vec<UserId>)
        ensures
            r@.no_duplicates(),
            forall|id: UserId| #[trigger] r@.contains(id) <==> self.holds_record(id),
            forall|id: UserId| #[trigger] r@.contains(id) <==> !self.subject(id).is_default(),
    {
        proof {
            use_type_invariant(self);
        }
        keys_of(&self.gaggees)
    }

    /// Whether anything is kept about `id`.
    pub fn has_record(&self, id: UserId) -> (r: bool)
        ensures
            r == self.holds_record(id),
            r == !self.subject(id).is_default(),
    {
        proof {
            use_type_invariant(self);
        }
        self.gaggees.contains_key(&id)
    }

    /// What `user` takes along to another instance: each part that is kept
    /// about them, as it is kept.
    pub fn export(&self, user: UserId) -> (r: PortableGaggee)
        ensures
            r@ == self.subject(user).exported(),
    {
        match self.gaggees.get(&user) {
            Some(record) => record.export(),
            None => Gaggee::default_for(user).export(),
        }
    }

    /// Replaces everything that is kept about `user` by `data`: each part
    /// that is there is kept as it is, each that is absent is kept no more.
    /// An export right after gives `data` back.
    pub fn import(&mut self, user: UserId, data: PortableGaggee)
        ensures
            final(self).subject(user) == GaggeeView::imported(user, data@),
            final(self).subject(user).exported() == data@,
            forall|id: UserId|
                #![trigger final(self).subject(id)]
                id != user ==> final(self).subject(id) == old(self).subject(id),
    {
        let mut record = self.take(user);
        record.import(data);
        self.put(record);
    }
}

impl Default for State {
    /// The state in which nothing is kept about anyone.
    fn default() -> (r: Self)
        ensures
            forall|id: UserId| #[trigger] r.subject(id) == GaggeeView::default_for(id),
    {
        State::new()
    }
}

} // verus!
