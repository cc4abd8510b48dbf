use goofus_gagger::{
    default_max_msg_length, expiry_after, Gag, GagConfig, GagModeName, InboundMessage,
    MemberId, MessageAction, NewGag, SafewordError, SafewordLocation, Safewords, State,
};

const SUBJECT: u64 = 1;
const GUILD: u64 = 10;
const CHANNEL: u64 = 100;

fn myself() -> MemberId {
    MemberId::new(GUILD, SUBJECT)
}

fn gagged(until: Option<i64>, mode: GagModeName) -> State {
    let mut state = State::new();
    let gag = Gag { until, config: GagConfig { tie: false, mode } };
    assert_eq!(state.gag(SUBJECT, myself(), NewGag { channel: CHANNEL, gag }), Ok(()));
    state
}

#[test]
fn the_default_limit_is_256_bytes() {
    assert_eq!(default_max_msg_length(), 256);
    let state = gagged(None, GagModeName::Dog);
    assert_eq!(
        state.decide_action(SUBJECT, CHANNEL, Some(GUILD), 256, 0),
        Some(MessageAction::Gag(GagModeName::Dog))
    );
    assert_eq!(
        state.decide_action(SUBJECT, CHANNEL, Some(GUILD), 257, 0),
        Some(MessageAction::WarnTooLong(256))
    );
}

#[test]
fn a_limit_of_the_subject_replaces_the_default() {
    let mut state = gagged(None, GagModeName::Dog);
    state.set_max_msg_length(SUBJECT, 10);
    assert_eq!(
        state.decide_action(SUBJECT, CHANNEL, None, 10, 0),
        Some(MessageAction::Gag(GagModeName::Dog))
    );
    assert_eq!(
        state.decide_action(SUBJECT, CHANNEL, None, 11, 0),
        Some(MessageAction::WarnTooLong(10))
    );
    state.set_max_msg_length(SUBJECT, 256);
    assert_eq!(
        state.decide_action(SUBJECT, CHANNEL, None, 11, 0),
        Some(MessageAction::Gag(GagModeName::Dog))
    );
}

#[test]
fn nothing_is_done_without_a_gag() {
    let state = gagged(None, GagModeName::Dog);
    assert_eq!(state.decide_action(SUBJECT, CHANNEL + 1, Some(GUILD), 1, 0), None);
    assert_eq!(state.decide_action(SUBJECT + 1, CHANNEL, Some(GUILD), 1, 0), None);
    assert_eq!(State::new().decide_action(SUBJECT, CHANNEL, Some(GUILD), 1, 0), None);
}

#[test]
fn a_gag_applies_up_to_its_end_and_not_after() {
    let state = gagged(Some(1_000), GagModeName::Cat);
    assert_eq!(
        state.decide_action(SUBJECT, CHANNEL, None, 1, 999),
        Some(MessageAction::Gag(GagModeName::Cat))
    );
    assert_eq!(
        state.decide_action(SUBJECT, CHANNEL, None, 1, 1_000),
        Some(MessageAction::Gag(GagModeName::Cat))
    );
    assert_eq!(state.decide_action(SUBJECT, CHANNEL, None, 1, 1_001), None);
    assert_eq!(state.decide_action(SUBJECT, CHANNEL, None, 1, i64::MAX), None);
}

#[test]
fn a_sweep_agrees_with_the_decisions() {
    let mut state = gagged(Some(1_000), GagModeName::Cat);
    state.cleanup(999);
    assert!(state.has_record(SUBJECT));
    state.cleanup(1_000);
    assert_eq!(
        state.decide_action(SUBJECT, CHANNEL, None, 1, 1_000),
        Some(MessageAction::Gag(GagModeName::Cat))
    );
    state.cleanup(1_001);
    assert_eq!(state.decide_action(SUBJECT, CHANNEL, None, 1, 1_001), None);
    assert!(!state.has_record(SUBJECT));
    // Sweeping again changes nothing.
    state.cleanup(1_001);
    assert!(!state.has_record(SUBJECT));
}

#[test]
fn a_sweep_removes_only_what_has_run_out() {
    let mut state = gagged(Some(10), GagModeName::Cat);
    let forever = Gag { until: None, config: GagConfig { tie: true, mode: GagModeName::Bee } };
    let late = Gag { until: Some(20), config: GagConfig { tie: false, mode: GagModeName::Fox } };
    assert_eq!(state.gag(SUBJECT, myself(), NewGag { channel: 101, gag: forever }), Ok(()));
    assert_eq!(state.gag(SUBJECT, myself(), NewGag { channel: 102, gag: late }), Ok(()));
    assert_eq!(state.gag(2, MemberId::new(GUILD, 2), NewGag { channel: 103, gag: late }), Ok(()));
    state.cleanup(15);
    assert_eq!(state.status(SUBJECT, CHANNEL, None, 0).0, None);
    assert_eq!(state.status(SUBJECT, 101, None, 0).0, Some(forever));
    assert_eq!(state.status(SUBJECT, 102, None, 0).0, Some(late));
    assert_eq!(state.status(2, 103, None, 0).0, Some(late));
    state.cleanup(21);
    assert_eq!(state.status(SUBJECT, 102, None, 0).0, None);
    assert!(state.has_record(SUBJECT));
    assert!(!state.has_record(2));
}

#[test]
fn a_safeword_switches_enforcement_off_and_on_again() {
    let mut state = gagged(None, GagModeName::Seal);
    let before = state.decide_action(SUBJECT, CHANNEL, Some(GUILD), 300, 5);
    assert_eq!(before, Some(MessageAction::WarnTooLong(256)));
    let (changed, relevant) = state.safeword(SUBJECT, SafewordLocation::Channel, CHANNEL, Some(GUILD));
    assert_eq!(changed, Ok(true));
    assert_eq!(relevant, vec![SafewordLocation::Channel]);
    assert_eq!(state.decide_action(SUBJECT, CHANNEL, Some(GUILD), 300, 5), None);
    assert_eq!(state.decide_action(SUBJECT, CHANNEL, Some(GUILD), 3, 5), None);
    // The gag is still there.
    assert!(state.status(SUBJECT, CHANNEL, Some(GUILD), 5).0.is_some());
    let (changed, relevant) =
        state.unsafeword(SUBJECT, SafewordLocation::Channel, CHANNEL, Some(GUILD));
    assert_eq!(changed, Ok(true));
    assert!(relevant.is_empty());
    assert_eq!(state.decide_action(SUBJECT, CHANNEL, Some(GUILD), 300, 5), before);
    assert_eq!(
        state.decide_action(SUBJECT, CHANNEL, Some(GUILD), 3, 5),
        Some(MessageAction::Gag(GagModeName::Seal))
    );
}

#[test]
fn each_safeword_covers_its_own_ground() {
    let mut state = gagged(None, GagModeName::Seal);
    assert_eq!(
        state.set_safeword(SUBJECT, SafewordLocation::Server, true, CHANNEL, Some(GUILD)),
        Ok(true)
    );
    assert!(state.is_suppressed(SUBJECT, CHANNEL, Some(GUILD)));
    assert!(state.is_suppressed(SUBJECT, CHANNEL + 1, Some(GUILD)));
    assert!(!state.is_suppressed(SUBJECT, CHANNEL, Some(GUILD + 1)));
    assert!(!state.is_suppressed(SUBJECT, CHANNEL, None));
    assert_eq!(
        state.set_safeword(SUBJECT, SafewordLocation::Server, false, CHANNEL, Some(GUILD)),
        Ok(true)
    );
    assert_eq!(
        state.set_safeword(SUBJECT, SafewordLocation::Global, true, CHANNEL, None),
        Ok(true)
    );
    assert!(state.is_suppressed(SUBJECT, CHANNEL + 5, Some(GUILD + 5)));
    assert!(!state.is_suppressed(SUBJECT + 1, CHANNEL, Some(GUILD)));
    assert_eq!(state.decide_action(SUBJECT, CHANNEL, None, 1, 0), None);
}

#[test]
fn setting_a_safeword_says_whether_it_changed() {
    let mut words = Safewords::default();
    assert_eq!(words.add_safeword(SafewordLocation::Global, CHANNEL, None), Ok(true));
    assert_eq!(words.add_safeword(SafewordLocation::Global, CHANNEL, None), Ok(false));
    assert_eq!(words.remove_safeword(SafewordLocation::Global, CHANNEL, None), Ok(true));
    assert_eq!(words.remove_safeword(SafewordLocation::Global, CHANNEL, None), Ok(false));
    assert_eq!(words.add_safeword(SafewordLocation::Channel, CHANNEL, None), Ok(true));
    assert_eq!(words.add_safeword(SafewordLocation::Channel, CHANNEL, None), Ok(false));
    assert_eq!(words.remove_safeword(SafewordLocation::Channel, CHANNEL + 1, None), Ok(false));
    assert_eq!(words.add_safeword(SafewordLocation::Server, CHANNEL, Some(GUILD)), Ok(true));
    assert_eq!(words.remove_safeword(SafewordLocation::Server, CHANNEL, Some(GUILD)), Ok(true));
    assert_eq!(words.remove_safeword(SafewordLocation::Channel, CHANNEL, None), Ok(true));
    assert!(words.is_default());
}

#[test]
fn a_safeword_for_a_community_needs_a_community() {
    let mut words = Safewords::default();
    assert_eq!(
        words.add_safeword(SafewordLocation::Server, CHANNEL, None),
        Err(SafewordError::NotInServer)
    );
    assert_eq!(
        words.remove_safeword(SafewordLocation::Server, CHANNEL, None),
        Err(SafewordError::NotInServer)
    );
    assert!(words.is_default());
    let mut state = State::new();
    assert_eq!(
        state.set_safeword(SUBJECT, SafewordLocation::Server, true, CHANNEL, None),
        Err(SafewordError::NotInServer)
    );
    assert!(!state.has_record(SUBJECT));
}

#[test]
fn the_relevant_safewords_are_listed_in_order() {
    let mut words = Safewords::default();
    assert!(words.get_relevant_safewords(CHANNEL, Some(GUILD)).is_empty());
    let _ = words.add_safeword(SafewordLocation::Channel, CHANNEL, Some(GUILD));
    let _ = words.add_safeword(SafewordLocation::Server, CHANNEL, Some(GUILD));
    let _ = words.add_safeword(SafewordLocation::Global, CHANNEL, Some(GUILD));
    assert_eq!(
        words.get_relevant_safewords(CHANNEL, Some(GUILD)),
        vec![SafewordLocation::Global, SafewordLocation::Global, SafewordLocation::Channel]
    );
    assert_eq!(
        words.get_relevant_safewords(CHANNEL + 1, None),
        vec![SafewordLocation::Global]
    );
    assert!(words.is_safewording(CHANNEL + 1, None));
}

#[test]
fn a_forwarded_message_is_left_alone() {
    let state = gagged(None, GagModeName::Gag);
    let msg = InboundMessage {
        author: SUBJECT,
        channel_id: CHANNEL,
        guild_id: Some(GUILD),
        content_len: 5,
        timestamp: 1,
        forwarded: false,
    };
    assert_eq!(state.get_action(&msg), Some(MessageAction::Gag(GagModeName::Gag)));
    assert_eq!(state.get_action(&InboundMessage { forwarded: true, ..msg }), None);
    assert_eq!(
        state.get_action(&InboundMessage { content_len: 1_000, ..msg }),
        Some(MessageAction::WarnTooLong(256))
    );
}

#[test]
fn a_gag_for_minutes_ends_on_a_whole_second() {
    assert_eq!(expiry_after(0, 0), Some(0));
    assert_eq!(expiry_after(1_999_999, 1), Some(61_000_000));
    assert_eq!(expiry_after(1_700_000_000_123_456, 90), Some(1_700_005_400_000_000));
    // Before the zero of time the second that a time lies in ends after it.
    assert_eq!(expiry_after(-1, 1), Some(59_000_000));
    assert_eq!(expiry_after(-1_000_000, 0), Some(-1_000_000));
    assert_eq!(expiry_after(-1_000_001, 0), Some(-2_000_000));
    assert_eq!(expiry_after(i64::MIN, 0), None);
    assert_eq!(expiry_after(i64::MIN, 1), Some(-9_223_372_036_795_000_000));
    assert_eq!(expiry_after(i64::MAX, 0), Some(9_223_372_036_854_000_000));
    assert_eq!(expiry_after(i64::MAX, 1), None);
    assert_eq!(
        expiry_after(0, u32::MAX),
        Some(4_294_967_295i64 * 60 * 1_000_000)
    );
}
