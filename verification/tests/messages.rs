use goofus_gagger::{
    ChangeGagError, GagError, GagModeError, GagModeName, MemberId, TieError, UngagError,
    UnknownGagModeName, UntieError, WeightError,
};

#[test]
fn refusals_of_a_gag_in_words() {
    assert_eq!(GagError::NoConsentForGag.to_string(), "Tried to gag someone without their consent.");
    assert_eq!(GagError::NoConsentForTie.to_string(), "Tried to tie someone without their consent.");
    assert_eq!(
        GagError::NoConsentForMode.to_string(),
        "Tried to gag someone in a mode they haven't consented to."
    );
    assert_eq!(GagError::AlreadyGagged.message(), "Tried to gag someone who was already gagged.");
}

#[test]
fn refusals_of_an_ungag_in_words() {
    assert_eq!(
        UngagError::NoConsentForUngag.to_string(),
        "Treid to ungag someone without their consent."
    );
    assert_eq!(
        UngagError::NoConsentForUntie.to_string(),
        "Tried to untie someone else without their consent."
    );
    assert_eq!(
        UngagError::NoConsentForMode(GagModeName::Cat).to_string(),
        "Tried to ungag someone from a mode they haven't consented to you ungagging them from."
    );
    assert_eq!(UngagError::CantUntieYourself.to_string(), "Tried to untie yourself");
    assert_eq!(UngagError::WasntGagged.to_string(), "Tried to ungag someone who wasn't gagged.");
}

#[test]
fn refusals_of_a_change_in_words() {
    assert_eq!(
        ChangeGagError::NoConsentForGag.to_string(),
        "Tried to gag someone without their consent."
    );
    assert_eq!(
        ChangeGagError::NoConsentForMode(GagModeName::Bee).to_string(),
        "Tried to gag someone in a mode they haven't consented to."
    );
    assert_eq!(
        ChangeGagError::WasntGagged.to_string(),
        "Tried to ungag someone who wasn't gagged."
    );
}

#[test]
fn refusals_of_a_tie_in_words() {
    assert_eq!(TieError::WasntGagged.to_string(), "Tried to tie someone who wasn't gagged.");
    assert_eq!(TieError::AlreadyTied.to_string(), "Tried to tie someone who was already tied.");
    assert_eq!(
        TieError::NoConsentForTie.to_string(),
        "Tried to tie someone who doesn't consent to you tying them in any gag mode."
    );
    assert_eq!(
        TieError::NoConsentForMode(GagModeName::Dog).to_string(),
        "Tried to tie someone who doesn't consent to you tying them in their current gag's mode."
    );
}

#[test]
fn refusals_of_an_untie_in_words() {
    assert_eq!(UntieError::WasntGagged.to_string(), "Tried to untie someone who wasn't gagged.");
    assert_eq!(UntieError::WasntTied.to_string(), "Tried to untie someone who wasn't tied.");
    assert_eq!(
        UntieError::NoConsentForUntie.to_string(),
        "Tried to untie someone who doesn't consent to you untying them in any gag mode."
    );
    assert_eq!(UntieError::CantUntieYourself.to_string(), "You can't untie yourself.");
    assert_eq!(
        UntieError::NoConsentForMode(GagModeName::Fox).to_string(),
        "Tried to untie someone who doesn't consent to you untying them in their current gag's mode."
    );
}

#[test]
fn other_errors_in_words() {
    assert_eq!(UnknownGagModeName.to_string(), "Unknwon GagModeName");
    assert_eq!(
        GagModeError::WeightError(WeightError::InsufficientNonZero).to_string(),
        "Not enough weights > zero"
    );
    assert_eq!(WeightError::Overflow.to_string(), "Overflow when summing weights");
    assert_eq!(
        WeightError::InvalidInput.to_string(),
        "Weights sequence is empty/too long/unordered"
    );
    assert_eq!(
        WeightError::InvalidWeight.message(),
        "A weight is negative, too large or not a valid number"
    );
    assert_eq!(GagModeName::Puppy.to_string(), "Puppy");
}

#[test]
fn a_member_is_read_back_from_its_number() {
    for member in [MemberId::new(0, 0), MemberId::new(3, 5), MemberId::new(u64::MAX, 1)] {
        assert_eq!(MemberId::from_key(member.key()), member);
    }
    assert_eq!(MemberId::from_key(u128::MAX), MemberId::new(u64::MAX, u64::MAX));
    assert_eq!(MemberId::from_key(1u128 << 64), MemberId::new(1, 0));
}
