use goofus_gagger::{GagModeName, GagModeSet, GaggeeTrust, MemberId, Trust, TrustDiff};

fn allow(modes: &[GagModeName]) -> GagModeSet {
    let mut set = GagModeSet::new();
    for mode in modes {
        set.insert(*mode);
    }
    set
}

#[test]
fn what_everyone_may_do_is_where_the_overrides_start() {
    let mut trust = GaggeeTrust::default();
    let everyone = Trust {
        gag: true,
        ungag: false,
        tie: true,
        untie: false,
        gag_modes: allow(&[GagModeName::Fox]),
    };
    trust.set_global(everyone);
    assert_eq!(trust.trust_for(1, MemberId::new(10, 2)), everyone);
    trust.set_for_user(2, TrustDiff { tie: Some(false), ungag: Some(true), ..TrustDiff::default() });
    assert_eq!(
        trust.trust_for(1, MemberId::new(10, 2)),
        Trust { ungag: true, tie: false, ..everyone }
    );
    assert_eq!(trust.trust_for(1, MemberId::new(10, 3)), everyone);
    assert!(!trust.is_default());
    assert!(GaggeeTrust::default().is_default());
    assert!(Trust::default().is_default());
    assert!(!everyone.is_default());
}

#[test]
fn nobody_is_trusted_by_default() {
    let trust = GaggeeTrust::default();
    let got = trust.trust_for(1, MemberId::new(10, 2));
    assert_eq!(got, Trust::default());
    assert!(!got.gag && !got.ungag && !got.tie && !got.untie);
    assert!(got.gag_modes.is_empty());
}

#[test]
fn everyone_trusts_themself_whatever_is_stored() {
    let mut trust = GaggeeTrust::default();
    let deny = TrustDiff {
        gag: Some(false),
        ungag: Some(false),
        tie: Some(false),
        untie: Some(true),
        allow_gag_modes: GagModeSet::new(),
        disallow_gag_modes: GagModeName::all(),
    };
    trust.set_global(Trust { untie: true, ..Trust::default() });
    trust.set_for_guild(10, deny);
    trust.set_for_user(1, deny);
    trust.set_for_member(MemberId::new(10, 1), deny);
    let got = trust.trust_for(1, MemberId::new(10, 1));
    assert_eq!(got, Trust::for_self());
    assert!(got.gag && got.ungag && got.tie && !got.untie);
    assert_eq!(got.gag_modes, GagModeName::all());
}

#[test]
fn the_member_layer_has_the_last_word() {
    let mut trust = GaggeeTrust::default();
    let yes = TrustDiff { gag: Some(true), ..TrustDiff::default() };
    let no = TrustDiff { gag: Some(false), ..TrustDiff::default() };
    trust.set_global(Trust { gag: true, ..Trust::default() });
    trust.set_for_guild(10, no);
    trust.set_for_user(2, yes);
    trust.set_for_member(MemberId::new(10, 2), no);
    assert!(!trust.trust_for(1, MemberId::new(10, 2)).gag);
    trust.set_for_member(MemberId::new(10, 2), yes);
    assert!(trust.trust_for(1, MemberId::new(10, 2)).gag);
    // Another member of the same community falls back to the community.
    assert!(!trust.trust_for(1, MemberId::new(10, 3)).gag);
    // The same user elsewhere falls back to the user layer.
    assert!(trust.trust_for(1, MemberId::new(11, 2)).gag);
}

#[test]
fn disallowed_modes_win_over_allowed_ones_of_the_same_layer() {
    let mut trust = GaggeeTrust::default();
    trust.set_global(Trust {
        gag_modes: allow(&[GagModeName::Gag, GagModeName::Seal]),
        ..Trust::default()
    });
    trust.set_for_guild(10, TrustDiff {
        allow_gag_modes: allow(&[GagModeName::Dog, GagModeName::Bee]),
        disallow_gag_modes: allow(&[GagModeName::Dog, GagModeName::Seal]),
        ..TrustDiff::default()
    });
    trust.set_for_user(2, TrustDiff {
        allow_gag_modes: allow(&[GagModeName::Dog, GagModeName::Cat]),
        ..TrustDiff::default()
    });
    let got = trust.trust_for(1, MemberId::new(10, 2));
    assert_eq!(
        got.gag_modes,
        allow(&[GagModeName::Gag, GagModeName::Bee, GagModeName::Dog, GagModeName::Cat])
    );
    let other = trust.trust_for(1, MemberId::new(10, 3));
    assert_eq!(other.gag_modes, allow(&[GagModeName::Gag, GagModeName::Bee]));
    let elsewhere = trust.trust_for(1, MemberId::new(11, 3));
    assert_eq!(elsewhere.gag_modes, allow(&[GagModeName::Gag, GagModeName::Seal]));
}
