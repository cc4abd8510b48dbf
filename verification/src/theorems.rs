//! What holds of every subject, proved from the definitions of the
//! transitions and of the decision.

use vstd::prelude::*;
use crate::action::MessageAction;
use crate::errors::{UngagError, UntieError};
use crate::gaggee::{spec_default_max_msg_length, unexpired, GaggeeView};
use crate::gags::{Gag, GagDefaultsView};
use crate::member_id::{ChannelId, GuildId, MemberId, Timestamp, UserId};
use crate::modes::{lemma_of_view, GagModeName};
use crate::portable::PortableGaggeeView;
use crate::safeword::{SafewordLocation, SafewordsView};
use crate::trust::{GaggeeTrustView, Trust, TrustDiff};

verus! {

/// One step of the life of a subject's gags.
pub ghost enum Transition {
    /// `gagger` applies `gag` in `channel`.
    Gag { gagger: MemberId, channel: ChannelId, gag: Gag },
    /// `gagger` lifts the gag in `channel`.
    Ungag { gagger: MemberId, channel: ChannelId },
    /// `gagger` ties the gag in `channel`.
    Tie { gagger: MemberId, channel: ChannelId },
    /// `gagger` unties the gag in `channel`.
    Untie { gagger: MemberId, channel: ChannelId },
    /// `gagger` changes the gag in `channel` to `mode`.
    ChangeGag { gagger: MemberId, channel: ChannelId, mode: GagModeName },
    /// The gags that have run out at `now` are removed.
    Sweep { now: Timestamp },
}

/// Where a subject stands in a channel.
pub ghost enum GagState {
    /// Not gagged.
    Absent,
    /// Gagged and not tied.
    Gagged,
    /// Gagged and tied.
    GaggedAndTied,
}

impl GaggeeView {
    /// Where the subject stands in `channel`.
    pub open spec fn gag_state(self, channel: ChannelId) -> GagState {
        if !self.gag_map().contains_key(channel) {
            GagState::Absent
        } else if self.gag_map()[channel].config.tie {
            GagState::GaggedAndTied
        } else {
            GagState::Gagged
        }
    }

    /// The subject after one step, whether it was allowed or refused.
    pub open spec fn step(self, transition: Transition) -> GaggeeView {
        match transition {
            Transition::Gag { gagger, channel, gag } => self.after_gag(gagger, channel, gag),
            Transition::Ungag { gagger, channel } => self.after_ungag(gagger, channel),
            Transition::Tie { gagger, channel } => self.after_tie(gagger, channel),
            Transition::Untie { gagger, channel } => self.after_untie(gagger, channel),
            Transition::ChangeGag { gagger, channel, mode } => self.after_change_gag(
                gagger,
                channel,
                mode,
            ),
            Transition::Sweep { now } => self.swept(now),
        }
    }

    /// The subject after a sequence of steps.
    pub open spec fn run(self, transitions: Seq<Transition>) -> GaggeeView
        decreases transitions.len(),
    {
        if transitions.len() == 0 {
            self
        } else {
            self.run(transitions.drop_last()).step(transitions.last())
        }
    }

    /// The gags recorded for the subject in `channel`.
    pub open spec fn records(self, channel: ChannelId) -> Set<Gag> {
        Set::new(|gag: Gag| self.gag_map().contains_pair(channel, gag))
    }
}

/// Whatever a subject has stored in any layer, they may gag, ungag and tie
/// themself in every mode, and may not untie themself.
pub proof fn lemma_self_trust(config: GaggeeTrustView, subject: UserId, actor: MemberId)
    requires
        actor.user == subject,
    ensures
        config.resolve(subject, actor) == Trust::spec_for_self(),
        config.resolve(subject, actor).gag,
        config.resolve(subject, actor).ungag,
        config.resolve(subject, actor).tie,
        !config.resolve(subject, actor).untie,
        forall|mode: GagModeName| config.resolve(subject, actor).gag_modes@.contains(mode),
{
    lemma_of_view(Set::<GagModeName>::full());
}

/// What the member layer says of a permission is what the actor gets,
/// whatever the layers for the user, for the community and for everyone say.
pub proof fn lemma_member_layer_wins(config: GaggeeTrustView, subject: UserId, actor: MemberId)
    requires
        actor.user != subject,
        config.per_member.contains_key(actor),
    ensures
        config.per_member[actor].gag matches Some(gag) ==> config.resolve(subject, actor).gag
            == gag,
        config.per_member[actor].ungag matches Some(ungag) ==> config.resolve(
            subject,
            actor,
        ).ungag == ungag,
        config.per_member[actor].tie matches Some(tie) ==> config.resolve(subject, actor).tie
            == tie,
        config.per_member[actor].untie matches Some(untie) ==> config.resolve(
            subject,
            actor,
        ).untie == untie,
{
}

/// What a layer that may be absent says of each permission: an absent layer
/// says nothing.
pub open spec fn says_gag(layer: Option<TrustDiff>) -> Option<bool> {
    match layer {
        Some(diff) => diff.gag,
        None => None,
    }
}

/// See [`says_gag`].
pub open spec fn says_ungag(layer: Option<TrustDiff>) -> Option<bool> {
    match layer {
        Some(diff) => diff.ungag,
        None => None,
    }
}

/// See [`says_gag`].
pub open spec fn says_tie(layer: Option<TrustDiff>) -> Option<bool> {
    match layer {
        Some(diff) => diff.tie,
        None => None,
    }
}

/// See [`says_gag`].
pub open spec fn says_untie(layer: Option<TrustDiff>) -> Option<bool> {
    match layer {
        Some(diff) => diff.untie,
        None => None,
    }
}

/// The value of a permission after the layers, most specific first: the first
/// override that says anything of it decides, and if none does, what everyone
/// may do.
pub open spec fn first_word(
    member: Option<bool>,
    user: Option<bool>,
    guild: Option<bool>,
    global: bool,
) -> bool {
    match member {
        Some(x) => x,
        None => match user {
            Some(x) => x,
            None => match guild {
                Some(x) => x,
                None => global,
            },
        },
    }
}

/// Each permission that an actor other than the subject gets is what
/// the most specific layer that speaks of it says: the member's, else the
/// user's, else the community's, else what everyone may do.
pub proof fn lemma_most_specific_layer_wins(
    config: GaggeeTrustView,
    subject: UserId,
    actor: MemberId,
)
    requires
        actor.user != subject,
    ensures
        config.resolve(subject, actor).gag == first_word(
            says_gag(config.per_member.get(actor)),
            says_gag(config.per_user.get(actor.user)),
            says_gag(config.per_guild.get(actor.guild)),
            config.global.gag,
        ),
        config.resolve(subject, actor).ungag == first_word(
            says_ungag(config.per_member.get(actor)),
            says_ungag(config.per_user.get(actor.user)),
            says_ungag(config.per_guild.get(actor.guild)),
            config.global.ungag,
        ),
        config.resolve(subject, actor).tie == first_word(
            says_tie(config.per_member.get(actor)),
            says_tie(config.per_user.get(actor.user)),
            says_tie(config.per_guild.get(actor.guild)),
            config.global.tie,
        ),
        config.resolve(subject, actor).untie == first_word(
            says_untie(config.per_member.get(actor)),
            says_untie(config.per_user.get(actor.user)),
            says_untie(config.per_guild.get(actor.guild)),
            config.global.untie,
        ),
{
}

/// In every state a subject has at most one gag in a channel.
pub proof fn lemma_at_most_one_gag(subject: GaggeeView, channel: ChannelId)
    ensures
        subject.records(channel).finite(),
        subject.records(channel).len() <= 1,
        subject.records(channel).len() == 1 <==> subject.gag_map().contains_key(channel),
{
    if subject.gag_map().contains_key(channel) {
        assert(subject.records(channel) =~= set![subject.gag_map()[channel]]);
    } else {
        assert(subject.records(channel) =~= Set::<Gag>::empty());
    }
}

/// After any sequence of transitions, allowed or refused, from any state, a
/// subject has at most one gag in a channel.
pub proof fn lemma_at_most_one_gag_after(
    subject: GaggeeView,
    transitions: Seq<Transition>,
    channel: ChannelId,
)
    ensures
        subject.run(transitions).records(channel).finite(),
        subject.run(transitions).records(channel).len() <= 1,
{
    lemma_at_most_one_gag(subject.run(transitions), channel);
}

/// The transitions are those of the gag's life and no others: a gag leads
/// from not gagged to gagged, tied or not as it says; a tie from gagged to
/// tied; an untie back; an ungag from either to not gagged; a change of mode
/// leaves the subject where they stand. No transition in one channel moves
/// the subject in another.
pub proof fn lemma_state_machine(
    subject: GaggeeView,
    gagger: MemberId,
    channel: ChannelId,
    gag: Gag,
    mode: GagModeName,
    other: ChannelId,
)
    requires
        other != channel,
    ensures
        subject.gag_result(gagger, channel, gag) is Ok ==> subject.gag_state(channel)
            == GagState::Absent && subject.after_gag(gagger, channel, gag).gag_state(channel) == (
        if gag.config.tie {
            GagState::GaggedAndTied
        } else {
            GagState::Gagged
        }),
        subject.tie_result(gagger, channel) is Ok ==> subject.gag_state(channel)
            == GagState::Gagged && subject.after_tie(gagger, channel).gag_state(channel)
            == GagState::GaggedAndTied,
        subject.untie_result(gagger, channel) is Ok ==> subject.gag_state(channel)
            == GagState::GaggedAndTied && subject.after_untie(gagger, channel).gag_state(channel)
            == GagState::Gagged,
        subject.ungag_result(gagger, channel) is Ok ==> subject.gag_state(channel)
            != GagState::Absent && subject.after_ungag(gagger, channel).gag_state(channel)
            == GagState::Absent,
        subject.change_gag_result(gagger, channel, mode) is Ok ==> subject.gag_state(channel)
            != GagState::Absent && subject.after_change_gag(gagger, channel, mode).gag_state(
            channel,
        ) == subject.gag_state(channel),
        subject.after_gag(gagger, channel, gag).gag_map().get(other) == subject.gag_map().get(other),
        subject.after_tie(gagger, channel).gag_map().get(other) == subject.gag_map().get(other),
        subject.after_untie(gagger, channel).gag_map().get(other) == subject.gag_map().get(other),
        subject.after_ungag(gagger, channel).gag_map().get(other) == subject.gag_map().get(other),
        subject.after_change_gag(gagger, channel, mode).gag_map().get(other) == subject.gag_map().get(other),
{
}

/// A transition that is refused changes nothing.
pub proof fn lemma_refusal_changes_nothing(
    subject: GaggeeView,
    gagger: MemberId,
    channel: ChannelId,
    gag: Gag,
    mode: GagModeName,
)
    ensures
        subject.gag_result(gagger, channel, gag) is Err ==> subject.after_gag(gagger, channel, gag)
            == subject,
        subject.ungag_result(gagger, channel) is Err ==> subject.after_ungag(gagger, channel)
            == subject,
        subject.tie_result(gagger, channel) is Err ==> subject.after_tie(gagger, channel)
            == subject,
        subject.untie_result(gagger, channel) is Err ==> subject.after_untie(gagger, channel)
            == subject,
        subject.change_gag_result(gagger, channel, mode) is Err ==> subject.after_change_gag(
            gagger,
            channel,
            mode,
        ) == subject,
{
}

/// An untied gag that an actor applied, the same actor can lift if they may
/// ungag; the subject is then as before the gag, but that a set of gags is
/// kept even if it is empty, and a second ungag finds no gag.
pub proof fn lemma_gag_then_ungag(
    subject: GaggeeView,
    actor: MemberId,
    channel: ChannelId,
    gag: Gag,
)
    requires
        subject.gag_result(actor, channel, gag) is Ok,
        !gag.config.tie,
        subject.trust_for(actor).ungag,
    ensures
        subject.after_gag(actor, channel, gag).gag_map().contains_pair(channel, gag),
        subject.after_gag(actor, channel, gag).ungag_result(actor, channel) is Ok,
        subject.after_gag(actor, channel, gag).after_ungag(actor, channel)
            == subject.with_gags(subject.gag_map()),
        subject.gags is Some ==> subject.after_gag(actor, channel, gag).after_ungag(actor, channel)
            == subject,
        !subject.after_gag(actor, channel, gag).after_ungag(actor, channel).gag_map().contains_key(
            channel,
        ),
        subject.after_gag(actor, channel, gag).after_ungag(actor, channel).ungag_result(
            actor,
            channel,
        ) == Err::<(), UngagError>(UngagError::WasntGagged),
{
    let gagged = subject.after_gag(actor, channel, gag);
    assert(gagged.trust_for(actor) == subject.trust_for(actor));
    assert(gagged.after_ungag(actor, channel).gag_map() =~= subject.gag_map());
}

/// A tied gag that an actor applied, the same actor cannot lift without
/// consent to untie: the subject themself never can, and anyone else who may
/// ungag is told that they may not untie. With that consent the ungag is
/// allowed.
pub proof fn lemma_tie_blocks_ungag(
    subject: GaggeeView,
    actor: MemberId,
    channel: ChannelId,
    gag: Gag,
)
    requires
        subject.gag_result(actor, channel, gag) is Ok,
        gag.config.tie,
        subject.trust_for(actor).ungag,
    ensures
        actor.user == subject.id ==> subject.after_gag(actor, channel, gag).ungag_result(
            actor,
            channel,
        ) == Err::<(), UngagError>(UngagError::CantUntieYourself),
        actor.user != subject.id && !subject.trust_for(actor).untie ==> subject.after_gag(
            actor,
            channel,
            gag,
        ).ungag_result(actor, channel) == Err::<(), UngagError>(UngagError::NoConsentForUntie),
        actor.user != subject.id && subject.trust_for(actor).untie ==> subject.after_gag(
            actor,
            channel,
            gag,
        ).ungag_result(actor, channel) is Ok,
        subject.after_gag(actor, channel, gag).ungag_result(actor, channel) is Err ==> subject.after_gag(
            actor,
            channel,
            gag,
        ).after_ungag(actor, channel).gag_map().contains_pair(channel, gag),
{
    let gagged = subject.after_gag(actor, channel, gag);
    assert(gagged.trust_for(actor) == subject.trust_for(actor));
}

/// Nobody can untie themself: the subject's own untie is refused as such in
/// every state, and so is their ungag of a tied gag.
pub proof fn lemma_cant_untie_yourself(subject: GaggeeView, actor: MemberId, channel: ChannelId)
    requires
        actor.user == subject.id,
    ensures
        subject.untie_result(actor, channel) == Err::<(), UntieError>(
            UntieError::CantUntieYourself,
        ),
        subject.gag_map().contains_key(channel) && subject.gag_map()[channel].config.tie
            ==> subject.ungag_result(actor, channel) == Err::<(), UngagError>(
            UngagError::CantUntieYourself,
        ),
        subject.gag_map().contains_key(channel) && !subject.gag_map()[channel].config.tie
            ==> subject.ungag_result(actor, channel) is Ok,
{
    lemma_self_trust(subject.trust_config(), subject.id, actor);
}

/// A gag that ends at `until` applies to every message written at `until` or
/// before and to none written after: after it the decision is to do nothing,
/// up to it the decision is the one for a gag that never ends.
pub proof fn lemma_expiry(
    subject: GaggeeView,
    channel: ChannelId,
    server: Option<GuildId>,
    len: usize,
    timestamp: Timestamp,
    until: Timestamp,
)
    requires
        subject.gag_map().contains_key(channel),
        subject.gag_map()[channel].until == Some(until),
    ensures
        timestamp > until ==> subject.action(channel, server, len, timestamp) is None,
        timestamp <= until && !subject.safeword_flags().is_safewording(channel, server) && len
            <= subject.limit() ==> subject.action(channel, server, len, timestamp) == Some(
            MessageAction::Gag(subject.gag_map()[channel].config.mode),
        ),
        timestamp <= until && !subject.safeword_flags().is_safewording(channel, server) && len
            > subject.limit() ==> subject.action(channel, server, len, timestamp) == Some(
            MessageAction::WarnTooLong(subject.limit()),
        ),
        timestamp <= until && subject.safeword_flags().is_safewording(channel, server) ==> subject.action(
            channel,
            server,
            len,
            timestamp,
        ) is None,
{
}

/// Removing the gags that have run out at `now` changes no decision about a
/// message written at `now` or later: a gag that has run out is passed over
/// whether or not it is still recorded.
pub proof fn lemma_sweep_changes_no_decision(
    subject: GaggeeView,
    now: Timestamp,
    channel: ChannelId,
    server: Option<GuildId>,
    len: usize,
    timestamp: Timestamp,
)
    requires
        now <= timestamp,
    ensures
        subject.swept(now).gag_at(channel, timestamp) == subject.gag_at(channel, timestamp),
        subject.swept(now).action(channel, server, len, timestamp) == subject.action(
            channel,
            server,
            len,
            timestamp,
        ),
{
}

/// A sweep changes nothing that counts but the gags that have run out: the
/// consent, the safewords, the limit and the defaults for gags that count are
/// as before, a gag that has not run out stays as it is, and one that has is
/// gone.
pub proof fn lemma_sweep_keeps_the_rest(subject: GaggeeView, now: Timestamp, channel: ChannelId)
    ensures
        subject.swept(now).id == subject.id,
        subject.swept(now).trust_config() == subject.trust_config(),
        subject.swept(now).safeword_flags() == subject.safeword_flags(),
        subject.swept(now).limit() == subject.limit(),
        subject.swept(now).defaults() == subject.defaults(),
        subject.swept(now).gag_map() == unexpired(subject.gag_map(), now),
        subject.gag_map().contains_key(channel) && !subject.gag_map()[channel].expired_at(now)
            ==> subject.swept(now).gag_map().contains_pair(channel, subject.gag_map()[channel]),
        subject.gag_map().contains_key(channel) && subject.gag_map()[channel].expired_at(now)
            ==> !subject.swept(now).gag_map().contains_key(channel),
        !subject.gag_map().contains_key(channel) ==> !subject.swept(now).gag_map().contains_key(
            channel,
        ),
{
    assert(subject.swept(now).gag_map() =~= unexpired(subject.gag_map(), now));
}

/// After a sweep no part is kept that says no more than its default: no
/// consent that allows nothing, no empty set of gags, no limit that is the
/// default, no safewords that are all off, no defaults for gags that set
/// nothing. A part that says more is kept as it was, but for the gags that
/// have run out.
pub proof fn lemma_sweep_prunes(subject: GaggeeView, now: Timestamp)
    ensures
        subject.swept(now).trust != Some(GaggeeTrustView::spec_default()),
        subject.swept(now).gags != Some(Map::<ChannelId, Gag>::empty()),
        subject.swept(now).max_msg_length != Some(spec_default_max_msg_length()),
        subject.swept(now).safewords != Some(SafewordsView::spec_default()),
        subject.swept(now).gag_defaults != Some(GagDefaultsView::spec_default()),
        subject.trust != Some(GaggeeTrustView::spec_default()) ==> subject.swept(now).trust
            == subject.trust,
        subject.max_msg_length != Some(spec_default_max_msg_length()) ==> subject.swept(
            now,
        ).max_msg_length == subject.max_msg_length,
        subject.safewords != Some(SafewordsView::spec_default()) ==> subject.swept(now).safewords
            == subject.safewords,
        subject.gag_defaults != Some(GagDefaultsView::spec_default()) ==> subject.swept(
            now,
        ).gag_defaults == subject.gag_defaults,
        unexpired(subject.gag_map(), now) != Map::<ChannelId, Gag>::empty() ==> subject.swept(
            now,
        ).gags == Some(unexpired(subject.gag_map(), now)),
{
    if subject.gags is None {
        assert(unexpired(subject.gag_map(), now) =~= Map::<ChannelId, Gag>::empty());
    }
}

/// Setting what everyone may do to "nothing" when no override is kept leaves
/// a consent that says no more than none; the next sweep keeps it no more.
pub proof fn lemma_trust_in_nobody_is_swept(subject: GaggeeView, now: Timestamp)
    requires
        subject.trust_config().per_guild == Map::<GuildId, TrustDiff>::empty(),
        subject.trust_config().per_user == Map::<UserId, TrustDiff>::empty(),
        subject.trust_config().per_member == Map::<MemberId, TrustDiff>::empty(),
    ensures
        subject.with_trust_global(Trust::spec_default()).trust == Some(
            GaggeeTrustView::spec_default(),
        ),
        subject.with_trust_global(Trust::spec_default()).swept(now).trust is None,
{
}

/// Switching a safeword on that was off, and off again, leaves the safewords
/// that count as they were; no gag is touched on the way, so every decision
/// is as before. While the safeword is on, nothing is done to a message that
/// it covers.
pub proof fn lemma_safeword_on_and_off(
    subject: GaggeeView,
    location: SafewordLocation,
    channel: ChannelId,
    server: Option<GuildId>,
    len: usize,
    timestamp: Timestamp,
)
    requires
        subject.safeword_flags().flag(location, channel, server) == Some(false),
    ensures
        subject.after_set_safeword(location, true, channel, server).safeword_flags().is_safewording(
            channel,
            server,
        ),
        subject.after_set_safeword(location, true, channel, server).action(
            channel,
            server,
            len,
            timestamp,
        ) is None,
        subject.after_set_safeword(location, true, channel, server).after_set_safeword(
            location,
            false,
            channel,
            server,
        ).safeword_flags() == subject.safeword_flags(),
        subject.after_set_safeword(location, true, channel, server).after_set_safeword(
            location,
            false,
            channel,
            server,
        ).gags == subject.gags,
        subject.after_set_safeword(location, true, channel, server).after_set_safeword(
            location,
            false,
            channel,
            server,
        ).action(channel, server, len, timestamp) == subject.action(
            channel,
            server,
            len,
            timestamp,
        ),
{
    let on = subject.safeword_flags().with_flag(location, true, channel, server);
    let off = on.with_flag(location, false, channel, server);
    assert(off.servers =~= subject.safeword_flags().servers);
    assert(off.channels =~= subject.safeword_flags().channels);
}

/// If something was to be done to a message, then after a safeword for its
/// channel has been switched on and off again, with nothing else changed,
/// exactly the same is to be done.
pub proof fn lemma_channel_safeword_restores_decision(
    subject: GaggeeView,
    channel: ChannelId,
    server: Option<GuildId>,
    len: usize,
    timestamp: Timestamp,
)
    requires
        subject.action(channel, server, len, timestamp) is Some,
    ensures
        subject.after_set_safeword(SafewordLocation::Channel, true, channel, server).action(
            channel,
            server,
            len,
            timestamp,
        ) is None,
        subject.after_set_safeword(
            SafewordLocation::Channel,
            true,
            channel,
            server,
        ).after_set_safeword(SafewordLocation::Channel, false, channel, server).action(
            channel,
            server,
            len,
            timestamp,
        ) == subject.action(channel, server, len, timestamp),
{
    assert(!subject.safeword_flags().is_safewording(channel, server));
    lemma_safeword_on_and_off(
        subject,
        SafewordLocation::Channel,
        channel,
        server,
        len,
        timestamp,
    );
}

/// Consent is scoped by mode for removal too: an actor who may ungag, but
/// not in the mode of the gag that is there, is refused with that mode,
/// whether or not the mode was allowed when the gag was applied.
pub proof fn lemma_mode_gates_ungag(subject: GaggeeView, actor: MemberId, channel: ChannelId)
    requires
        subject.trust_for(actor).ungag,
        subject.gag_map().contains_key(channel),
        !subject.trust_for(actor).gag_modes@.contains(subject.gag_map()[channel].config.mode),
    ensures
        subject.ungag_result(actor, channel) == Err::<(), UngagError>(
            UngagError::NoConsentForMode(subject.gag_map()[channel].config.mode),
        ),
        subject.after_ungag(actor, channel) == subject,
{
}

/// What a subject takes along brings back all that was kept about them.
pub proof fn lemma_export_then_import(subject: GaggeeView)
    ensures
        GaggeeView::imported(subject.id, subject.exported()) == subject,
{
}

/// What is imported is what an export then gives, part for part: a part that
/// was there is there with the same value, even if that is its default, and
/// one that was absent is absent.
pub proof fn lemma_import_then_export(id: UserId, data: PortableGaggeeView)
    ensures
        GaggeeView::imported(id, data).exported() == data,
        GaggeeView::imported(id, data).id == id,
{
}

/// Importing nothing leaves nothing kept.
pub proof fn lemma_import_nothing(id: UserId)
    ensures
        GaggeeView::imported(id, PortableGaggeeView::spec_default())
            == GaggeeView::default_for(id),
        GaggeeView::default_for(id).exported()
            == PortableGaggeeView::spec_default(),
{
}

} // verus!
