use goofus_gagger::{
    Gag, GagConfig, GagConfigDiff, GagModeName, GagModeSet, Gaggee, GaggeeTrust, MemberId,
    MessageAction, NewGag, PortableGaggee, SafewordLocation, SetTrustError, State, Trust,
    TrustDiff,
};

const SUBJECT: u64 = 1;
const GUILD: u64 = 10;
const CHANNEL: u64 = 100;

fn cat_only() -> GagModeSet {
    let mut set = GagModeSet::new();
    set.insert(GagModeName::Cat);
    set
}

fn allow_cat(gag: bool) -> TrustDiff {
    TrustDiff { gag: Some(gag), allow_gag_modes: cat_only(), ..TrustDiff::default() }
}

#[test]
fn nobody_sets_their_trust_in_themself() {
    let mut state = State::new();
    assert_eq!(
        state.set_trust_for_user(SUBJECT, SUBJECT, allow_cat(true)),
        Err(SetTrustError::CantTrustYourself)
    );
    assert_eq!(
        state.set_trust_for_member(SUBJECT, MemberId::new(GUILD, SUBJECT), allow_cat(true)),
        Err(SetTrustError::CantTrustYourself)
    );
    assert!(!state.has_record(SUBJECT));
    assert!(state.subjects().is_empty());
}

#[test]
fn setting_a_trust_says_whether_one_was_there() {
    let mut state = State::new();
    let member = MemberId::new(GUILD, 2);
    assert_eq!(state.set_trust_for_member(SUBJECT, member, allow_cat(true)), Ok(false));
    assert_eq!(state.set_trust_for_member(SUBJECT, member, allow_cat(false)), Ok(true));
    assert!(!state.set_trust_for_guild(SUBJECT, GUILD, allow_cat(true)));
    assert!(state.set_trust_for_guild(SUBJECT, GUILD, allow_cat(true)));
    assert_eq!(state.set_trust_for_user(SUBJECT, 3, allow_cat(true)), Ok(false));
    // The member layer says no, the community says yes to everyone else.
    assert!(!state.trust_for(SUBJECT, member).gag);
    assert!(state.trust_for(SUBJECT, MemberId::new(GUILD, 4)).gag);
    assert!(state.trust_for(SUBJECT, MemberId::new(GUILD + 1, 3)).gag);
    assert!(!state.trust_for(SUBJECT, MemberId::new(GUILD + 1, 4)).gag);
    assert_eq!(state.trust_for(SUBJECT, member).gag_modes, cat_only());
}

#[test]
fn the_trust_in_everyone_is_set_as_a_whole() {
    let mut state = State::new();
    let trust = Trust { gag: true, ungag: true, tie: false, untie: false, gag_modes: cat_only() };
    state.set_trust_global(SUBJECT, trust);
    assert_eq!(state.trust_for(SUBJECT, MemberId::new(GUILD, 2)), trust);
    assert_eq!(state.trust_for(SUBJECT, MemberId::new(GUILD, SUBJECT)), Trust::for_self());
    state.set_trust_global(SUBJECT, Trust::default());
    assert_eq!(state.trust_for(SUBJECT, MemberId::new(GUILD, 2)), Trust::default());
}

#[test]
fn a_trust_in_nobody_is_swept_away() {
    let mut state = State::new();
    state.set_trust_global(SUBJECT, Trust::default());
    // Until the sweep the trust is kept as it was set.
    assert!(state.has_record(SUBJECT));
    assert_eq!(state.export(SUBJECT).trusts, Some(GaggeeTrust::default()));
    state.cleanup(0);
    assert!(!state.has_record(SUBJECT));
    assert!(state.export(SUBJECT).trusts.is_none());
    // With an override left the trust stays.
    state.set_trust_global(SUBJECT, Trust::default());
    assert_eq!(state.set_trust_for_user(SUBJECT, 2, TrustDiff::default()), Ok(false));
    state.cleanup(0);
    assert!(state.has_record(SUBJECT));
    assert_eq!(state.export(SUBJECT).trusts.map(|trusts| trusts.global), Some(Trust::default()));
}

#[test]
fn a_record_is_kept_only_of_what_differs_from_nothing() {
    let mut state = State::new();
    state.set_max_msg_length(SUBJECT, 5);
    assert_eq!(state.subjects(), vec![SUBJECT]);
    state.set_max_msg_length(SUBJECT, 256);
    assert_eq!(state.export(SUBJECT).max_msg_length, Some(256));
    assert_eq!(state.subjects(), vec![SUBJECT]);
    state.cleanup(0);
    assert!(state.subjects().is_empty());
    let _ = state.set_safeword(SUBJECT, SafewordLocation::Channel, true, CHANNEL, None);
    let _ = state.set_safeword(2, SafewordLocation::Global, true, CHANNEL, None);
    let mut subjects = state.subjects();
    subjects.sort();
    assert_eq!(subjects, vec![SUBJECT, 2]);
    let _ = state.set_safeword(SUBJECT, SafewordLocation::Channel, false, CHANNEL, None);
    state.cleanup(0);
    assert_eq!(state.subjects(), vec![2]);
    assert!(State::default().subjects().is_empty());
}

#[test]
fn the_defaults_of_a_subject_shape_the_gags_on_them() {
    let mut state = State::new();
    let gagger = MemberId::new(GUILD, 2);
    assert_eq!(
        state.gag_config_for(SUBJECT, gagger, None, None),
        GagConfig { tie: false, mode: GagModeName::Gag }
    );
    state.set_gag_default_global(
        SUBJECT,
        GagConfigDiff { tie: Some(true), mode: Some(GagModeName::Cow) },
    );
    state.set_gag_default_for_guild(SUBJECT, GUILD, GagConfigDiff { tie: Some(false), mode: None });
    state.set_gag_default_for_user(SUBJECT, 2, GagConfigDiff { tie: None, mode: Some(GagModeName::Fox) });
    assert_eq!(
        state.gag_config_for(SUBJECT, gagger, None, None),
        GagConfig { tie: false, mode: GagModeName::Fox }
    );
    state.set_gag_default_for_member(SUBJECT, gagger, GagConfigDiff { tie: Some(true), mode: None });
    assert_eq!(
        state.gag_config_for(SUBJECT, gagger, None, None),
        GagConfig { tie: true, mode: GagModeName::Fox }
    );
    // What the gagger asks for comes last.
    assert_eq!(
        state.gag_config_for(SUBJECT, gagger, Some(false), Some(GagModeName::Bee)),
        GagConfig { tie: false, mode: GagModeName::Bee }
    );
    assert_eq!(
        state.gag_config_for(SUBJECT, MemberId::new(GUILD + 1, 3), None, None),
        GagConfig { tie: true, mode: GagModeName::Cow }
    );
    assert_eq!(
        state.gag_config_for(SUBJECT + 1, gagger, None, None),
        GagConfig { tie: false, mode: GagModeName::Gag }
    );
}

#[test]
fn a_subject_on_their_own_decides_sweeps_and_moves() {
    let mut subject = Gaggee::default_for(SUBJECT);
    assert!(subject.is_default());
    let me = MemberId::new(GUILD, SUBJECT);
    let soon = Gag { until: Some(10), config: GagConfig { tie: false, mode: GagModeName::Dog } };
    let never = Gag { until: None, config: GagConfig { tie: false, mode: GagModeName::Cat } };
    assert_eq!(subject.gag(me, CHANNEL, soon), Ok(()));
    assert_eq!(subject.gag(me, CHANNEL + 1, never), Ok(()));
    assert_eq!(subject.gag_at(CHANNEL, 10), Some(soon));
    assert_eq!(subject.gag_at(CHANNEL, 11), None);
    assert_eq!(
        subject.get_action(CHANNEL, Some(GUILD), 3, 10),
        Some(MessageAction::Gag(GagModeName::Dog))
    );
    assert_eq!(subject.set_safeword(SafewordLocation::Server, true, CHANNEL, Some(GUILD)), Ok(true));
    assert_eq!(subject.get_action(CHANNEL, Some(GUILD), 3, 10), None);
    assert_eq!(
        subject.get_action(CHANNEL, None, 3, 10),
        Some(MessageAction::Gag(GagModeName::Dog))
    );
    let copy = subject.clone();
    assert_eq!(copy, subject);
    subject.cleanup(10);
    assert_eq!(subject, copy);
    subject.cleanup(11);
    assert_eq!(subject.gags.as_ref().map(|gags| gags.len()), Some(1));
    assert_eq!(subject.gag_at(CHANNEL + 1, i64::MAX), Some(never));

    subject.set_max_msg_length(256);
    assert_eq!(subject.limit(), 256);
    let data = subject.export();
    assert!(data.trusts.is_none());
    assert_eq!(data.max_msg_length, Some(256));
    assert_eq!(data.gags.as_ref().map(|gags| gags.len()), Some(1));
    let mut other = Gaggee::default_for(9);
    other.import(data);
    assert_eq!(other.id, 9);
    assert_eq!(other.gags, subject.gags);
    assert_eq!(other.safewords, subject.safewords);
    other.import(PortableGaggee::default());
    assert!(other.is_default());
    assert_eq!(other, Gaggee::default_for(9));
}

#[test]
fn new_gags_carry_their_gag() {
    let gag = Gag { until: Some(3), config: GagConfig { tie: true, mode: GagModeName::Seal } };
    assert_eq!(Gag::from(NewGag { channel: CHANNEL, gag }), gag);
    assert!(gag.is_expired_at(4));
    assert!(!gag.is_expired_at(3));
    assert!(!Gag { until: None, ..gag }.is_expired_at(i64::MAX));
}
