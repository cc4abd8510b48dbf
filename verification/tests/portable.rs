use std::collections::HashMap;

use goofus_gagger::{
    Gag, GagConfig, GagConfigDiff, GagDefaults, GagModeName, GagModeSet, GaggeeTrust, MemberId,
    NewGag, PortableGaggee, SafewordLocation, Safewords, State, Trust, TrustDiff,
};

const SUBJECT: u64 = 1;
const GUILD: u64 = 10;
const CHANNEL: u64 = 100;

fn busy_state() -> State {
    let mut state = State::new();
    let mut modes = GagModeSet::new();
    modes.insert(GagModeName::Fox);
    state.set_trust_global(
        SUBJECT,
        Trust { gag: true, ungag: false, tie: false, untie: false, gag_modes: modes },
    );
    let gag = Gag { until: Some(9), config: GagConfig { tie: true, mode: GagModeName::Fox } };
    assert_eq!(
        state.gag(SUBJECT, MemberId::new(GUILD, SUBJECT), NewGag { channel: CHANNEL, gag }),
        Ok(())
    );
    let _ = state.set_safeword(SUBJECT, SafewordLocation::Global, true, CHANNEL, None);
    state.set_max_msg_length(SUBJECT, 99);
    state.set_gag_default_global(SUBJECT, GagConfigDiff { tie: Some(true), mode: None });
    state
}

/// Data of which every part is there and says no more than its default.
fn all_defaults() -> PortableGaggee {
    PortableGaggee {
        trusts: Some(GaggeeTrust::default()),
        gags: Some(HashMap::new()),
        max_msg_length: Some(256),
        safewords: Some(Safewords::default()),
        gag_defaults: Some(GagDefaults::default()),
    }
}

#[test]
fn nothing_is_exported_of_someone_unknown() {
    let state = State::new();
    assert_eq!(state.export(SUBJECT), PortableGaggee::default());
    let data = state.export(SUBJECT);
    assert!(data.trusts.is_none());
    assert!(data.gags.is_none());
    assert!(data.max_msg_length.is_none());
    assert!(data.safewords.is_none());
    assert!(data.gag_defaults.is_none());
}

#[test]
fn every_part_that_is_set_is_exported() {
    let state = busy_state();
    let data = state.export(SUBJECT);
    assert!(data.trusts.is_some());
    assert_eq!(data.gags.as_ref().map(|gags| gags.len()), Some(1));
    assert_eq!(data.max_msg_length, Some(99));
    assert_eq!(data.safewords.as_ref().map(|words| words.global), Some(true));
    assert_eq!(
        data.gag_defaults.as_ref().map(|defaults| defaults.global),
        Some(GagConfigDiff { tie: Some(true), mode: None })
    );
    assert_eq!(state.export(SUBJECT + 1), PortableGaggee::default());
}

#[test]
fn what_is_exported_can_be_imported_elsewhere() {
    let state = busy_state();
    let mut other = State::new();
    other.import(7, state.export(SUBJECT));
    assert_eq!(other.export(7), state.export(SUBJECT));
    assert_eq!(other.gag_config_for(7, MemberId::new(GUILD, 3), None, None).tie, true);
    assert!(other.is_suppressed(7, 1, None));
    assert!(other.trust_for(7, MemberId::new(GUILD, 3)).gag);
}

#[test]
fn an_import_replaces_every_part() {
    let mut state = busy_state();
    let mut trusts = GaggeeTrust::default();
    trusts.set_for_user(5, TrustDiff { untie: Some(true), ..TrustDiff::default() });
    state.import(
        SUBJECT,
        PortableGaggee {
            trusts: Some(trusts.clone()),
            max_msg_length: Some(256),
            ..PortableGaggee::default()
        },
    );
    let data = state.export(SUBJECT);
    assert!(data.gags.is_none());
    assert!(data.safewords.is_none());
    assert!(data.gag_defaults.is_none());
    assert_eq!(data.max_msg_length, Some(256));
    assert_eq!(data.trusts, Some(trusts));
    assert!(state.trust_for(SUBJECT, MemberId::new(GUILD, 5)).untie);
    assert!(!state.trust_for(SUBJECT, MemberId::new(GUILD, 5)).gag);
    assert_eq!(state.status(SUBJECT, CHANNEL, None, 0).0, None);
}

#[test]
fn an_export_gives_back_what_was_imported() {
    let mut state = busy_state();
    let other = state.export(SUBJECT);
    state.import(2, all_defaults());
    assert_eq!(state.export(2), all_defaults());
    assert!(state.has_record(2));
    assert_eq!(state.export(SUBJECT), other);
    state.import(
        2,
        PortableGaggee { gags: Some(HashMap::new()), ..PortableGaggee::default() },
    );
    assert_eq!(
        state.export(2),
        PortableGaggee { gags: Some(HashMap::new()), ..PortableGaggee::default() }
    );
    state.import(SUBJECT, busy_state().export(SUBJECT));
    assert_eq!(state.export(SUBJECT), other);
}

#[test]
fn what_counts_is_the_same_whether_a_default_part_is_there_or_not() {
    let mut state = State::new();
    state.import(2, all_defaults());
    let member = MemberId::new(GUILD, 3);
    assert_eq!(state.trust_for(2, member), State::new().trust_for(2, member));
    assert_eq!(state.trust_for(2, member), Trust::default());
    assert_eq!(state.decide_action(2, CHANNEL, None, 1, 0), None);
    assert!(!state.is_suppressed(2, CHANNEL, Some(GUILD)));
    assert_eq!(
        state.gag_config_for(2, member, None, None),
        GagConfig { tie: false, mode: GagModeName::Gag }
    );
    assert_eq!(state.status(2, CHANNEL, None, 0), (None, vec![]));
}

#[test]
fn a_sweep_drops_every_part_that_says_no_more_than_its_default() {
    let mut state = busy_state();
    let busy = state.export(SUBJECT);
    state.import(2, all_defaults());
    state.import(
        3,
        PortableGaggee { max_msg_length: Some(7), ..all_defaults() },
    );
    state.cleanup(0);
    assert!(!state.has_record(2));
    assert_eq!(state.export(2), PortableGaggee::default());
    assert_eq!(
        state.export(3),
        PortableGaggee { max_msg_length: Some(7), ..PortableGaggee::default() }
    );
    // What says more is kept as it is.
    assert_eq!(state.export(SUBJECT), busy);
    // The gag of the first subject runs out at 9; then the set of gags goes too.
    state.cleanup(10);
    let left = state.export(SUBJECT);
    assert!(left.gags.is_none());
    assert_eq!(left.trusts, busy.trusts);
    assert_eq!(left.max_msg_length, Some(99));
}

#[test]
fn importing_nothing_wipes_the_subject() {
    let mut state = busy_state();
    assert!(state.has_record(SUBJECT));
    state.import(SUBJECT, PortableGaggee::default());
    assert!(!state.has_record(SUBJECT));
    assert_eq!(state.export(SUBJECT), PortableGaggee::default());
    assert_eq!(state.decide_action(SUBJECT, CHANNEL, None, 1, 0), None);
}
