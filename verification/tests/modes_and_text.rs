use std::str::FromStr;

use goofus_gagger::text::{eq_ignore_ascii_case, parse_id, str_eq, to_ascii_lower, write_decimal};
use goofus_gagger::util::starts_with;
use goofus_gagger::{
    csv_gag_mode_name_autocomplete, is_default, parse_csv_gag_modes, GagConfig, GagConfigDiff,
    GagDefaults, GagModeName, GagModeSet, MemberId, Trust, TrustDiff, TrustImbalance,
    UnknownGagModeName,
};

const ALL: [GagModeName; 9] = [
    GagModeName::Gag,
    GagModeName::Sock,
    GagModeName::Dog,
    GagModeName::Puppy,
    GagModeName::Cow,
    GagModeName::Fox,
    GagModeName::Cat,
    GagModeName::Seal,
    GagModeName::Bee,
];

fn modes(list: &[GagModeName]) -> GagModeSet {
    let mut set = GagModeSet::new();
    for mode in list {
        set.insert(*mode);
    }
    set
}

#[test]
fn the_modes_have_their_names_and_places() {
    let names = ["Gag", "Sock", "Dog", "Puppy", "Cow", "Fox", "Cat", "Seal", "Bee"];
    for (i, mode) in ALL.iter().enumerate() {
        assert_eq!(mode.name(), names[i]);
        assert_eq!(mode.index(), i);
        assert_eq!(GagModeName::from_index(i), Some(*mode));
        assert_eq!(GagModeName::from_name(names[i]), Some(*mode));
    }
    assert_eq!(GagModeName::from_index(9), None);
    assert_eq!(GagModeName::COUNT, 9);
    assert_eq!(GagModeName::default(), GagModeName::Gag);
}

#[test]
fn names_are_read_whatever_their_case() {
    assert_eq!(GagModeName::from_name("gag"), Some(GagModeName::Gag));
    assert_eq!(GagModeName::from_name("PUPPY"), Some(GagModeName::Puppy));
    assert_eq!(GagModeName::from_name("sEaL"), Some(GagModeName::Seal));
    assert_eq!(GagModeName::from_name(""), None);
    assert_eq!(GagModeName::from_name("Gag "), None);
    assert_eq!(GagModeName::from_name("Ga"), None);
    assert_eq!(GagModeName::from_name("Gagg"), None);
    assert_eq!(GagModeName::from_name("Horse"), None);
    assert_eq!(GagModeName::from_str("bee"), Ok(GagModeName::Bee));
    assert_eq!(GagModeName::from_str("bees"), Err(UnknownGagModeName));
}

#[test]
fn the_modes_have_their_icons() {
    assert_eq!(GagModeName::Gag.icon(), "🔴");
    assert_eq!(GagModeName::Sock.icon(), "🧦");
    assert_eq!(GagModeName::Dog.icon(), "🐶");
    assert_eq!(GagModeName::Puppy.icon(), "🐶");
    assert_eq!(GagModeName::Cow.icon(), "🐮");
    assert_eq!(GagModeName::Fox.icon(), "🦊");
    assert_eq!(GagModeName::Cat.icon(), "🐱");
    assert_eq!(GagModeName::Seal.icon(), "🦭");
    assert_eq!(GagModeName::Bee.icon(), "🐝");
}

#[test]
fn sets_of_modes_behave_as_sets() {
    let mut set = GagModeSet::new();
    assert!(set.is_empty());
    assert!(set.insert(GagModeName::Dog));
    assert!(!set.insert(GagModeName::Dog));
    assert!(set.contains(GagModeName::Dog));
    assert!(!set.contains(GagModeName::Puppy));
    assert!(set.insert(GagModeName::Bee));
    assert!(set.insert(GagModeName::Gag));
    assert_eq!(set.to_vec(), vec![GagModeName::Gag, GagModeName::Dog, GagModeName::Bee]);
    assert!(set.remove(GagModeName::Dog));
    assert!(!set.remove(GagModeName::Dog));
    assert_eq!(set, modes(&[GagModeName::Bee, GagModeName::Gag]));
    let other = modes(&[GagModeName::Gag, GagModeName::Cat]);
    assert_eq!(
        set.union(&other),
        modes(&[GagModeName::Gag, GagModeName::Cat, GagModeName::Bee])
    );
    assert_eq!(set.difference(&other), modes(&[GagModeName::Bee]));
    assert_eq!(GagModeName::all().to_vec(), ALL.to_vec());
    assert_eq!(GagModeName::all().difference(&GagModeName::all()), GagModeSet::new());
}

#[test]
fn an_override_sets_what_it_names_and_leaves_the_rest() {
    let mut trust = Trust {
        gag: true,
        ungag: false,
        tie: true,
        untie: false,
        gag_modes: modes(&[GagModeName::Gag, GagModeName::Dog]),
    };
    let diff = TrustDiff {
        gag: Some(false),
        ungag: None,
        tie: None,
        untie: Some(true),
        allow_gag_modes: modes(&[GagModeName::Cat, GagModeName::Dog]),
        disallow_gag_modes: modes(&[GagModeName::Gag, GagModeName::Cat]),
    };
    diff.apply(&mut trust);
    let expected = Trust {
        gag: false,
        ungag: false,
        tie: true,
        untie: true,
        gag_modes: modes(&[GagModeName::Dog]),
    };
    assert_eq!(trust, expected);
    // A second time changes nothing more.
    diff.apply(&mut trust);
    assert_eq!(trust, expected);
    TrustDiff::default().apply(&mut trust);
    assert_eq!(trust, expected);
    assert!(TrustDiff::default().is_default());
    assert!(!diff.is_default());
}

#[test]
fn a_trust_that_can_do_nothing_is_pointed_out() {
    let mut trust = Trust::default();
    assert_eq!(trust.imbalance(), None);
    assert!(!trust.any_action());
    trust.tie = true;
    assert_eq!(trust.imbalance(), Some(TrustImbalance::ActionsWithoutModes));
    trust.gag_modes.insert(GagModeName::Gag);
    assert_eq!(trust.imbalance(), None);
    trust.tie = false;
    assert_eq!(trust.imbalance(), Some(TrustImbalance::ModesWithoutActions));
}

#[test]
fn the_defaults_for_gags_are_layered_like_trust() {
    let mut defaults = GagDefaults::default();
    assert!(defaults.is_default());
    let who = MemberId::new(10, 2);
    assert_eq!(defaults.default_for(who), GagConfig { tie: false, mode: GagModeName::Gag });
    defaults.set_global(GagConfigDiff { tie: Some(true), mode: Some(GagModeName::Dog) });
    defaults.set_for_guild(10, GagConfigDiff { tie: None, mode: Some(GagModeName::Cat) });
    defaults.set_for_user(2, GagConfigDiff { tie: Some(false), mode: None });
    assert_eq!(defaults.default_for(who), GagConfig { tie: false, mode: GagModeName::Cat });
    defaults.set_for_member(who, GagConfigDiff { tie: Some(true), mode: Some(GagModeName::Bee) });
    assert_eq!(defaults.default_for(who), GagConfig { tie: true, mode: GagModeName::Bee });
    assert_eq!(
        defaults.default_for(MemberId::new(11, 3)),
        GagConfig { tie: true, mode: GagModeName::Dog }
    );
    assert_eq!(
        defaults.default_for(MemberId::new(11, 2)),
        GagConfig { tie: false, mode: GagModeName::Dog }
    );
    let mut config = GagConfig::default();
    GagConfigDiff { tie: Some(true), mode: None }.apply(&mut config);
    assert_eq!(config, GagConfig { tie: true, mode: GagModeName::Gag });
    assert!(!defaults.is_default());
}

#[test]
fn lists_of_modes_are_read() {
    assert_eq!(parse_csv_gag_modes(None), Ok(GagModeSet::new()));
    assert_eq!(parse_csv_gag_modes(Some("Gag")), Ok(modes(&[GagModeName::Gag])));
    assert_eq!(
        parse_csv_gag_modes(Some("Gag,dog,CAT,Gag")),
        Ok(modes(&[GagModeName::Gag, GagModeName::Dog, GagModeName::Cat]))
    );
}

#[test]
fn the_first_piece_that_names_no_mode_is_the_error() {
    assert_eq!(parse_csv_gag_modes(Some("")), Err(""));
    assert_eq!(parse_csv_gag_modes(Some("Gag,")), Err(""));
    assert_eq!(parse_csv_gag_modes(Some(",Gag")), Err(""));
    assert_eq!(parse_csv_gag_modes(Some("Gag, Dog")), Err(" Dog"));
    assert_eq!(parse_csv_gag_modes(Some("Gag,Horse,Dog,Zebra")), Err("Horse"));
    assert_eq!(parse_csv_gag_modes(Some("Dög,Gag")), Err("Dög"));
    assert_eq!(parse_csv_gag_modes(Some("Gag,Dog,x")), Err("x"));
}

#[test]
fn at_the_start_every_mode_is_suggested() {
    assert_eq!(
        csv_gag_mode_name_autocomplete(""),
        vec!["Gag", "Sock", "Dog", "Puppy", "Cow", "Fox", "Cat", "Seal", "Bee"]
    );
}

#[test]
fn after_a_comma_the_modes_not_yet_named_are_suggested() {
    assert_eq!(
        csv_gag_mode_name_autocomplete("Gag,sock,Dog,Puppy,Cow,"),
        vec![
            "Gag,sock,Dog,Puppy,Cow,Fox",
            "Gag,sock,Dog,Puppy,Cow,Cat",
            "Gag,sock,Dog,Puppy,Cow,Seal",
            "Gag,sock,Dog,Puppy,Cow,Bee"
        ]
    );
}

#[test]
fn a_name_that_has_been_begun_is_completed() {
    assert_eq!(csv_gag_mode_name_autocomplete("Gag,S"), vec!["Gag,Sock", "Gag,Seal"]);
    assert_eq!(csv_gag_mode_name_autocomplete("C"), vec!["Cow", "Cat"]);
    assert_eq!(csv_gag_mode_name_autocomplete("Cat,C"), vec!["Cat,Cow"]);
}

#[test]
fn behind_a_whole_name_a_comma_and_each_other_mode_are_suggested() {
    assert_eq!(
        csv_gag_mode_name_autocomplete("Gag,Sock,Dog,Puppy,Cow,Fox,Cat"),
        vec!["Gag,Sock,Dog,Puppy,Cow,Fox,Cat,Seal", "Gag,Sock,Dog,Puppy,Cow,Fox,Cat,Bee"]
    );
    // A beginning in the wrong case completes to nothing, so it is taken as whole.
    assert_eq!(
        csv_gag_mode_name_autocomplete("s").len(),
        9
    );
    assert_eq!(csv_gag_mode_name_autocomplete("s")[0], "s,Gag");
}

#[test]
fn when_every_mode_is_named_nothing_is_suggested() {
    assert!(csv_gag_mode_name_autocomplete("Gag,Sock,Dog,Puppy,Cow,Fox,Cat,Seal,Bee").is_empty());
    assert!(csv_gag_mode_name_autocomplete("Gag,Sock,Dog,Puppy,Cow,Fox,Cat,Seal,Bee,").is_empty());
}

#[test]
fn members_are_filed_under_distinct_numbers() {
    assert_eq!(MemberId::new(0, 0).key(), 0);
    assert_eq!(MemberId::new(0, 7).key(), 7);
    assert_eq!(MemberId::new(1, 0).key(), 1u128 << 64);
    assert_eq!(MemberId::new(3, 5).key(), (3u128 << 64) + 5);
    assert_eq!(MemberId::new(u64::MAX, u64::MAX).key(), u128::MAX);
    assert_ne!(MemberId::new(1, 2).key(), MemberId::new(2, 1).key());
}

#[test]
fn members_are_written_and_read_as_text() {
    let member = MemberId::new(123456789012345678, 42);
    assert_eq!(member.to_text(), "123456789012345678,42");
    assert_eq!(MemberId::from_text("123456789012345678,42"), Some(member));
    assert_eq!(MemberId::from_text(&MemberId::new(u64::MAX, 1).to_text()), Some(MemberId::new(u64::MAX, 1)));
    assert_eq!(MemberId::new(u64::MAX, 1).to_text(), "18446744073709551615,1");
    assert_eq!(MemberId::from_text("+7,+8"), Some(MemberId::new(7, 8)));
    assert_eq!(MemberId::from_text("7"), None);
    assert_eq!(MemberId::from_text("7,"), None);
    assert_eq!(MemberId::from_text(",8"), None);
    assert_eq!(MemberId::from_text("7,8,9"), None);
    assert_eq!(MemberId::from_text("0,8"), None);
    assert_eq!(MemberId::from_text("7, 8"), None);
    assert_eq!(MemberId::from_text("18446744073709551616,1"), None);
    assert_eq!(MemberId::from_text(""), None);
}

#[test]
fn identifiers_are_read_in_base_ten() {
    assert_eq!(parse_id("1"), Some(1));
    assert_eq!(parse_id("0001"), Some(1));
    assert_eq!(parse_id("+18446744073709551615"), Some(u64::MAX));
    assert_eq!(parse_id("18446744073709551616"), None);
    assert_eq!(parse_id("99999999999999999999999999"), None);
    assert_eq!(parse_id("0"), None);
    assert_eq!(parse_id(""), None);
    assert_eq!(parse_id("+"), None);
    assert_eq!(parse_id("-1"), None);
    assert_eq!(parse_id("1+"), None);
    assert_eq!(parse_id("12a"), None);
    assert_eq!(parse_id("１２"), None);
    assert_eq!(write_decimal(0), "0");
    assert_eq!(write_decimal(9), "9");
    assert_eq!(write_decimal(10), "10");
    assert_eq!(write_decimal(1_000_000), "1000000");
    assert_eq!(write_decimal(u64::MAX), "18446744073709551615");
}

#[test]
fn texts_are_compared() {
    assert_eq!(to_ascii_lower('A'), 'a');
    assert_eq!(to_ascii_lower('Z'), 'z');
    assert_eq!(to_ascii_lower('a'), 'a');
    assert_eq!(to_ascii_lower('['), '[');
    assert_eq!(to_ascii_lower('@'), '@');
    assert_eq!(to_ascii_lower('Ä'), 'Ä');
    assert!(eq_ignore_ascii_case("Puppy", "pUPPY"));
    assert!(!eq_ignore_ascii_case("Puppy", "Pupp"));
    assert!(!eq_ignore_ascii_case("Ä", "ä"));
    assert!(eq_ignore_ascii_case("", ""));
    assert!(str_eq("ab", "ab"));
    assert!(!str_eq("ab", "aB"));
    assert!(starts_with("Seal", "Se"));
    assert!(starts_with("Seal", ""));
    assert!(starts_with("Seal", "Seal"));
    assert!(!starts_with("Seal", "se"));
    assert!(!starts_with("Se", "Seal"));
}

#[test]
fn the_default_of_a_type_is_told() {
    assert!(is_default(&0u64));
    assert!(!is_default(&1u64));
    assert!(is_default(&false));
    assert!(is_default(&String::new()));
    assert!(!is_default(&String::from("x")));
    assert!(is_default(&Trust::default()));
    assert!(!is_default(&Trust::for_self()));
    assert!(is_default(&GagModeName::Gag));
    assert!(!is_default(&GagModeName::Sock));
    assert!(is_default(&None::<i64>));
}
