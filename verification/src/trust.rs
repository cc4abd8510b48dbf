//! Consent: who may do what to a subject, in which gag modes.
//!
//! A subject keeps four layers: what everyone may do, and overrides of it per
//! community, per user and per member. What an actor may do is what everyone
//! may, with the overrides that concern the actor applied in that order. For
//! oneself the answer is fixed.

use std::collections::HashMap;
use vstd::prelude::*;
use crate::member_id::{
    by_member, lemma_by_member_empty, lemma_by_member_insert, GuildId, MemberId, UserId,
};
use crate::modes::{lemma_holds_all, lemma_of_view, GagModeName, GagModeSet};

verus! {

/// What is odd about a [`Trust`] that can do nothing as it stands.
#[derive(Debug, Clone, Copy, PartialEq, Eq, Structural)]
pub enum TrustImbalance {
    /// Some permission is given, and no mode to use it in.
    ActionsWithoutModes,
    /// Some mode is allowed, and no permission to use it.
    ModesWithoutActions,
}

/// Why a subject's trust in someone was not set.
#[derive(Debug, Clone, Copy, PartialEq, Eq, Structural)]
pub enum SetTrustError {
    /// The someone is the subject: what one may do to oneself is fixed.
    CantTrustYourself,
}

/// What one actor may do to one subject.
#[derive(Debug, Clone, Copy, PartialEq, Eq, Structural)]
pub struct Trust {
    /// May gag.
    pub gag: bool,
    /// May ungag.
    pub ungag: bool,
    /// May tie.
    pub tie: bool,
    /// May untie.
    pub untie: bool,
    /// The gag modes in which the actor may do any of it.
    pub gag_modes: GagModeSet,
}

impl Trust {
    /// No permission and no mode.
    pub open spec fn spec_default() -> Trust {
        Trust {
            gag: false,
            ungag: false,
            tie: false,
            untie: false,
            gag_modes: GagModeSet::of(Set::empty()),
        }
    }

    /// What everyone may do to themself: everything but untie, in every mode.
    pub open spec fn spec_for_self() -> Trust {
        Trust {
            gag: true,
            ungag: true,
            tie: true,
            untie: false,
            gag_modes: GagModeSet::of(Set::full()),
        }
    }

    /// The trust that everyone has in themself: gag, ungag and tie in every
    /// mode, and never untie.
    pub fn for_self() -> (r: Self)
        ensures
            r == Trust::spec_for_self(),
            r.gag && r.ungag && r.tie && !r.untie,
            forall|mode: GagModeName| r.gag_modes@.contains(mode),
    {
        let modes = GagModeName::all();
        proof {
            lemma_holds_all(modes);
        }
        Trust { gag: true, ungag: true, tie: true, untie: false, gag_modes: modes }
    }

    /// What is odd about the trust, if anything: permissions without a mode
    /// to use them in, or modes without a permission to use.
    pub open spec fn spec_imbalance(self) -> Option<TrustImbalance> {
        if self.gag_modes@ == Set::<GagModeName>::empty() && self.spec_any_action() {
            Some(TrustImbalance::ActionsWithoutModes)
        } else if self.gag_modes@ != Set::<GagModeName>::empty() && !self.spec_any_action() {
            Some(TrustImbalance::ModesWithoutActions)
        } else {
            None
        }
    }

    /// What is odd about the trust, if anything.
    pub fn imbalance(&self) -> (r: Option<TrustImbalance>)
        ensures
            r == self.spec_imbalance(),
    {
        let no_modes = self.gag_modes.is_empty();
        let any = self.any_action();
        if no_modes && any {
            Some(TrustImbalance::ActionsWithoutModes)
        } else if !no_modes && !any {
            Some(TrustImbalance::ModesWithoutActions)
        } else {
            None
        }
    }

    /// Whether nothing is allowed: no permission and no mode.
    pub fn is_default(&self) -> (r: bool)
        ensures
            r == (*self == Trust::spec_default()),
    {
        proof {
            lemma_holds_all(self.gag_modes);
            lemma_of_view(Set::empty());
        }
        !self.gag && !self.ungag && !self.tie && !self.untie && self.gag_modes.is_empty()
    }

    /// Whether any of the four permissions is given.
    pub open spec fn spec_any_action(self) -> bool {
        self.gag || self.ungag || self.tie || self.untie
    }

    /// Whether any of the four permissions is given.
    pub fn any_action(&self) -> (r: bool)
        ensures
            r == self.spec_any_action(),
    {
        self.gag || self.ungag || self.tie || self.untie
    }
}

impl Default for Trust {
    /// No permission and no mode.
    fn default() -> (r: Self)
        ensures
            r == Trust::spec_default(),
            r.gag_modes@ == Set::<GagModeName>::empty(),
    {
        Trust { gag: false, ungag: false, tie: false, untie: false, gag_modes: GagModeSet::new() }
    }
}

/// An override of a [`Trust`]: each permission set, cleared or left alone, and
/// modes to allow and to disallow.
#[derive(Debug, Clone, Copy, PartialEq, Eq, Structural)]
pub struct TrustDiff {
    /// If `Some`, overwrites [`Trust::gag`].
    pub gag: Option<bool>,
    /// If `Some`, overwrites [`Trust::ungag`].
    pub ungag: Option<bool>,
    /// If `Some`, overwrites [`Trust::tie`].
    pub tie: Option<bool>,
    /// If `Some`, overwrites [`Trust::untie`].
    pub untie: Option<bool>,
    /// Modes to add to the allowed ones.
    pub allow_gag_modes: GagModeSet,
    /// Modes to take from the allowed ones; wins over `allow_gag_modes`.
    pub disallow_gag_modes: GagModeSet,
}

/// A flag after an override of it.
pub open spec fn overwritten(diff: Option<bool>, old: bool) -> bool {
    match diff {
        Some(x) => x,
        None => old,
    }
}

impl TrustDiff {
    /// The override that changes nothing.
    pub open spec fn spec_default() -> TrustDiff {
        TrustDiff {
            gag: None,
            ungag: None,
            tie: None,
            untie: None,
            allow_gag_modes: GagModeSet::of(Set::empty()),
            disallow_gag_modes: GagModeSet::of(Set::empty()),
        }
    }

    /// `to` after the override: each permission that is `Some` is
    /// overwritten, the allowed modes are added, then the disallowed ones
    /// taken out.
    pub open spec fn applied(self, to: Trust) -> Trust {
        Trust {
            gag: overwritten(self.gag, to.gag),
            ungag: overwritten(self.ungag, to.ungag),
            tie: overwritten(self.tie, to.tie),
            untie: overwritten(self.untie, to.untie),
            gag_modes: GagModeSet::of(
                to.gag_modes@.union(self.allow_gag_modes@).difference(self.disallow_gag_modes@),
            ),
        }
    }

    /// Applies the override to `to`.
    pub fn apply(&self, to: &mut Trust)
        ensures
            *final(to) == self.applied(*old(to)),
            final(to).gag_modes@ == old(to).gag_modes@.union(self.allow_gag_modes@).difference(
                self.disallow_gag_modes@,
            ),
    {
        if let Some(x) = self.gag {
            to.gag = x;
        }
        if let Some(x) = self.ungag {
            to.ungag = x;
        }
        if let Some(x) = self.tie {
            to.tie = x;
        }
        if let Some(x) = self.untie {
            to.untie = x;
        }
        to.gag_modes = to.gag_modes.union(&self.allow_gag_modes).difference(
            &self.disallow_gag_modes,
        );
    }

    /// Whether the override changes nothing whatever it is applied to.
    pub fn is_default(&self) -> (r: bool)
        ensures
            r == (*self == TrustDiff::spec_default()),
    {
        proof {
            lemma_holds_all(self.allow_gag_modes);
            lemma_holds_all(self.disallow_gag_modes);
            lemma_of_view(Set::empty());
        }
        self.gag.is_none() && self.ungag.is_none() && self.tie.is_none() && self.untie.is_none()
            && self.allow_gag_modes.is_empty() && self.disallow_gag_modes.is_empty()
    }
}

impl Default for TrustDiff {
    /// The override that changes nothing.
    fn default() -> (r: Self)
        ensures
            r == TrustDiff::spec_default(),
    {
        TrustDiff {
            gag: None,
            ungag: None,
            tie: None,
            untie: None,
            allow_gag_modes: GagModeSet::new(),
            disallow_gag_modes: GagModeSet::new(),
        }
    }
}

/// Applying an override a second time changes nothing more.
pub proof fn lemma_apply_idempotent(diff: TrustDiff, to: Trust)
    ensures
        diff.applied(diff.applied(to)) == diff.applied(to),
{
    let once = diff.applied(to);
    let modes = to.gag_modes@.union(diff.allow_gag_modes@).difference(diff.disallow_gag_modes@);
    lemma_of_view(modes);
    assert(modes.union(diff.allow_gag_modes@).difference(diff.disallow_gag_modes@) =~= modes);
}

/// The override that changes nothing changes nothing.
pub proof fn lemma_apply_default(to: Trust)
    ensures
        TrustDiff::spec_default().applied(to) == to,
{
    lemma_of_view(Set::empty());
    lemma_holds_all(to.gag_modes);
    assert(to.gag_modes@.union(Set::empty()).difference(Set::empty()) =~= to.gag_modes@);
}

/// The consent that a subject has given, as mathematical maps.
pub ghost struct GaggeeTrustView {
    /// What everyone may do: the trust that the other layers override.
    pub global: Trust,
    /// The layer for the members of a community.
    pub per_guild: Map<GuildId, TrustDiff>,
    /// The layer for a user, wherever they act.
    pub per_user: Map<UserId, TrustDiff>,
    /// The layer for a user in one community.
    pub per_member: Map<MemberId, TrustDiff>,
}

/// `to` after a layer that may be absent: an absent layer changes nothing.
pub open spec fn layered(layer: Option<TrustDiff>, to: Trust) -> Trust {
    match layer {
        Some(diff) => diff.applied(to),
        None => to,
    }
}

impl GaggeeTrustView {
    /// Nobody may do anything, and no override says otherwise.
    pub open spec fn spec_default() -> GaggeeTrustView {
        GaggeeTrustView {
            global: Trust::spec_default(),
            per_guild: Map::empty(),
            per_user: Map::empty(),
            per_member: Map::empty(),
        }
    }

    /// What the layers give `member`, who is not the subject: what everyone
    /// may do, with the overrides for the community, for the user and for the
    /// member applied in this order.
    pub open spec fn resolve_other(self, member: MemberId) -> Trust {
        layered(
            self.per_member.get(member),
            layered(
                self.per_user.get(member.user),
                layered(
                    self.per_guild.get(member.guild),
                    self.global,
                ),
            ),
        )
    }

    /// What `member` may do to `subject`: the fixed trust in oneself when the
    /// member is the subject, whatever the layers say, and else what the
    /// layers give.
    pub open spec fn resolve(self, subject: UserId, member: MemberId) -> Trust {
        if subject == member.user {
            Trust::spec_for_self()
        } else {
            self.resolve_other(member)
        }
    }
}

/// The consent that a subject has given.
#[derive(Debug, PartialEq, Eq)]
pub struct GaggeeTrust {
    /// What everyone may do: the trust that the other layers override.
    pub global: Trust,
    /// The layer for the members of a community.
    pub per_guild: HashMap<GuildId, TrustDiff>,
    /// The layer for a user, wherever they act.
    pub per_user: HashMap<UserId, TrustDiff>,
    /// The layer for a user in one community, filed under
    /// [`MemberId::key`].
    pub per_member: HashMap<u128, TrustDiff>,
}

impl View for GaggeeTrust {
    type V = GaggeeTrustView;

    open spec fn view(&self) -> GaggeeTrustView {
        GaggeeTrustView {
            global: self.global,
            per_guild: self.per_guild@,
            per_user: self.per_user@,
            per_member: by_member(self.per_member@),
        }
    }
}

impl Default for GaggeeTrust {
    /// Nobody may do anything, and no override says otherwise.
    fn default() -> (r: Self)
        ensures
            r@ == GaggeeTrustView::spec_default(),
    {
        let r = GaggeeTrust {
            global: Trust::default(),
            per_guild: HashMap::new(),
            per_user: HashMap::new(),
            per_member: HashMap::new(),
        };
        proof {
            lemma_by_member_empty(r.per_member@);
        }
        r
    }
}

impl Clone for GaggeeTrust {
    fn clone(&self) -> (r: Self)
        ensures
            r@ == self@,
    {
        GaggeeTrust {
            global: self.global,
            per_guild: self.per_guild.clone(),
            per_user: self.per_user.clone(),
            per_member: self.per_member.clone(),
        }
    }
}

impl GaggeeTrust {
    /// What `member` may do to `subject`.
    pub fn trust_for(&self, subject: UserId, member: MemberId) -> (r: Trust)
        ensures
            r == self@.resolve(subject, member),
    {
        if subject == member.user {
            Trust::for_self()
        } else {
            let mut ret = self.global;
            if let Some(diff) = self.per_guild.get(&member.guild) {
                diff.apply(&mut ret);
            }
            if let Some(diff) = self.per_user.get(&member.user) {
                diff.apply(&mut ret);
            }
            if let Some(diff) = self.per_member.get(&member.key()) {
                diff.apply(&mut ret);
            }
            ret
        }
    }

    /// Sets what everyone may do.
    pub fn set_global(&mut self, trust: Trust)
        ensures
            final(self)@ == (GaggeeTrustView { global: trust, ..old(self)@ }),
    {
        self.global = trust;
    }

    /// Sets the layer for the members of `guild`; returns whether there was
    /// one before.
    pub fn set_for_guild(&mut self, guild: GuildId, diff: TrustDiff) -> (r: bool)
        ensures
            final(self)@ == (GaggeeTrustView {
                per_guild: old(self)@.per_guild.insert(guild, diff),
                ..old(self)@
            }),
            r == old(self)@.per_guild.contains_key(guild),
    {
        self.per_guild.insert(guild, diff).is_some()
    }

    /// Sets the layer for `user`; returns whether there was one before.
    pub fn set_for_user(&mut self, user: UserId, diff: TrustDiff) -> (r: bool)
        ensures
            final(self)@ == (GaggeeTrustView {
                per_user: old(self)@.per_user.insert(user, diff),
                ..old(self)@
            }),
            r == old(self)@.per_user.contains_key(user),
    {
        self.per_user.insert(user, diff).is_some()
    }

    /// Sets the layer for `member`; returns whether there was one before.
    pub fn set_for_member(&mut self, member: MemberId, diff: TrustDiff) -> (r: bool)
        ensures
            final(self)@ == (GaggeeTrustView {
                per_member: old(self)@.per_member.insert(member, diff),
                ..old(self)@
            }),
            r == old(self)@.per_member.contains_key(member),
    {
        proof {
            lemma_by_member_insert(self.per_member@, member, diff);
        }
        self.per_member.insert(member.key(), diff).is_some()
    }

    /// Whether nobody may do anything and no override says otherwise.
    pub fn is_default(&self) -> (r: bool)
        ensures
            r == (self@ == GaggeeTrustView::spec_default()),
    {
        proof {
            lemma_by_member_empty(self.per_member@);
        }
        let r = self.global.is_default() && self.per_guild.is_empty() && self.per_user.is_empty()
            && self.per_member.is_empty();
        proof {
            if r {
                assert(self.per_guild@ =~= Map::<GuildId, TrustDiff>::empty());
                assert(self.per_user@ =~= Map::<UserId, TrustDiff>::empty());
                assert(self.per_member@ =~= Map::<u128, TrustDiff>::empty());
            }
        }
        r
    }
}

} // verus!
