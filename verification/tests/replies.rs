use goofus_gagger::replies::{
    change_gag_reply, gag_default_for_reply, gag_default_global_reply, gag_default_server_reply,
    gag_reply, gagged_receipt, import_reply, location_list, max_length_reply, safeword_reply,
    status_reply, tie_reply, too_long_warning, trust_global_reply, trust_member_reply,
    trust_query_reply, trust_server_reply, trust_user_reply, trust_warning, trust_yourself_reply,
    ungag_reply, unknown_mode_reply, unsafeword_reply, untie_reply, wipe_reply,
};
use goofus_gagger::{
    ChangeGagError, GagConfig, GagError, GagModeName, GagModeSet, SafewordError, SafewordLocation,
    TieError, Trust, UngagError, UntieError,
};

const WHO: &str = "<@7>";

fn config(tie: bool) -> GagConfig {
    GagConfig { tie, mode: GagModeName::Dog }
}

#[test]
fn answers_to_a_gag() {
    assert_eq!(
        gag_reply(WHO, None, config(false), Ok(())),
        "Gagged <@7> in this channel with mode Dog (🐶) forever"
    );
    assert_eq!(
        gag_reply(WHO, None, config(true), Ok(())),
        "Gagged and tied <@7> in this channel with mode Dog (🐶) forever"
    );
    assert_eq!(
        gag_reply(WHO, Some(1), config(false), Ok(())),
        "Gagged <@7> in this channel with mode Dog (🐶) for 1 minute"
    );
    assert_eq!(
        gag_reply(WHO, Some(1), config(true), Ok(())),
        "Gagged and tied <@7> in this channel with mode Dog (🐶) for 1 minute"
    );
    assert_eq!(
        gag_reply(WHO, Some(0), config(false), Ok(())),
        "Gagged <@7> in this channel with mode Dog (🐶) for 0 minutes"
    );
    assert_eq!(
        gag_reply(WHO, Some(4294967295), config(true), Ok(())),
        "Gagged and tied <@7> in this channel with mode Dog (🐶) for 4294967295 minutes"
    );
    assert_eq!(
        gag_reply(WHO, Some(1), config(true), Err(GagError::NoConsentForGag)),
        "<@7> hasn't consented to you gagging them"
    );
    assert_eq!(
        gag_reply(WHO, None, config(true), Err(GagError::NoConsentForTie)),
        "<@7> hasn't consented to you tying them"
    );
    assert_eq!(
        gag_reply(WHO, None, config(true), Err(GagError::NoConsentForMode)),
        "<@7> has consented to you gagging them but not with mode Dog (🐶)"
    );
    assert_eq!(
        gag_reply(WHO, None, config(true), Err(GagError::AlreadyGagged)),
        "<@7> was already gagged in this channel"
    );
}

#[test]
fn answers_to_an_ungag() {
    assert_eq!(ungag_reply(WHO, Ok(())), "Ungagged <@7> in this channel");
    assert_eq!(
        ungag_reply(WHO, Err(UngagError::NoConsentForUngag)),
        "<@7> hasn't consented to you ungagging them"
    );
    assert_eq!(
        ungag_reply(WHO, Err(UngagError::NoConsentForUntie)),
        "<@7> hasn't consented to you untying them"
    );
    assert_eq!(
        ungag_reply(WHO, Err(UngagError::NoConsentForMode(GagModeName::Bee))),
        "<@7> has consented to you ungagging them but not with mode Bee (🐝)"
    );
    assert_eq!(ungag_reply(WHO, Err(UngagError::CantUntieYourself)), "You can't untie yourself");
    assert_eq!(
        ungag_reply(WHO, Err(UngagError::WasntGagged)),
        "<@7> wasn't gagged in this channel"
    );
}

#[test]
fn answers_to_a_change_of_mode() {
    assert_eq!(
        change_gag_reply(WHO, GagModeName::Cat, Ok(GagModeName::Cow)),
        "Changed <@7>'s gag from Cow (🐮) to Cat (🐱)"
    );
    assert_eq!(
        change_gag_reply(WHO, GagModeName::Cat, Err(ChangeGagError::NoConsentForGag)),
        "<@7> hasn't consented to you gagging them"
    );
    assert_eq!(
        change_gag_reply(
            WHO,
            GagModeName::Cat,
            Err(ChangeGagError::NoConsentForMode(GagModeName::Cat))
        ),
        "<@7> has consented to you gagging them but not with mode Cat (🐱)"
    );
    assert_eq!(
        change_gag_reply(WHO, GagModeName::Cat, Err(ChangeGagError::WasntGagged)),
        "<@7> wasn't gagged"
    );
}

#[test]
fn answers_to_a_tie_and_an_untie() {
    assert_eq!(tie_reply(WHO, Ok(())), "Tied <@7>");
    assert_eq!(tie_reply(WHO, Err(TieError::WasntGagged)), "<@7> wasn't gagged");
    assert_eq!(tie_reply(WHO, Err(TieError::AlreadyTied)), "<@7> was already tied");
    assert_eq!(
        tie_reply(WHO, Err(TieError::NoConsentForTie)),
        "<@7> doesn't consent to you tying them"
    );
    assert_eq!(
        tie_reply(WHO, Err(TieError::NoConsentForMode(GagModeName::Fox))),
        "<@7> doesn't consent to you tying them in gag mode `Fox`"
    );
    assert_eq!(untie_reply(WHO, Ok(())), "Untied <@7>");
    assert_eq!(untie_reply(WHO, Err(UntieError::WasntGagged)), "<@7> wasn't gagged");
    assert_eq!(untie_reply(WHO, Err(UntieError::WasntTied)), "<@7> wasn't tied");
    assert_eq!(
        untie_reply(WHO, Err(UntieError::NoConsentForUntie)),
        "<@7> doesn't consent to you untying them"
    );
    assert_eq!(untie_reply(WHO, Err(UntieError::CantUntieYourself)), "You can't untie yourself");
    assert_eq!(
        untie_reply(WHO, Err(UntieError::NoConsentForMode(GagModeName::Seal))),
        "<@7> doesn't consent to you untying them in gag mode `Seal`"
    );
}

#[test]
fn lists_of_locations_are_shown_in_brackets() {
    assert_eq!(location_list(&vec![]), "[]");
    assert_eq!(location_list(&vec![SafewordLocation::Server]), "[Server]");
    assert_eq!(
        location_list(&vec![
            SafewordLocation::Global,
            SafewordLocation::Global,
            SafewordLocation::Channel
        ]),
        "[Global, Global, Channel]"
    );
    assert_eq!(
        format!(
            "{:?}",
            vec![SafewordLocation::Global, SafewordLocation::Server, SafewordLocation::Channel]
        ),
        location_list(&vec![
            SafewordLocation::Global,
            SafewordLocation::Server,
            SafewordLocation::Channel
        ])
    );
}

#[test]
fn answers_to_a_safeword() {
    let on = vec![SafewordLocation::Global];
    assert_eq!(
        safeword_reply(SafewordLocation::Global, Ok(true), &on),
        "Enabled the global safeword\nYou now have the following relevant safewords enabled: [Global]"
    );
    assert_eq!(
        safeword_reply(SafewordLocation::Global, Ok(false), &on),
        "The global safeword was already enabled\nYou now have the following relevant safewords enabled: [Global]"
    );
    assert_eq!(
        safeword_reply(SafewordLocation::Server, Ok(true), &on),
        "Enabled the safeword for this server\nYou now have the following relevant safewords enabled: [Global]"
    );
    assert_eq!(
        safeword_reply(SafewordLocation::Server, Ok(false), &on),
        "The safeword for this server was already enabled\nYou now have the following relevant safewords enabled: [Global]"
    );
    assert_eq!(
        safeword_reply(SafewordLocation::Server, Err(SafewordError::NotInServer), &vec![]),
        "You can't enable the per-server safeword when not in a server\nYou now have the following relevant safewords enabled: []"
    );
    assert_eq!(
        safeword_reply(SafewordLocation::Channel, Ok(true), &on),
        "Enabled the safeword for this channel\nYou now have the following relevant safewords enabled: [Global]"
    );
    assert_eq!(
        safeword_reply(SafewordLocation::Channel, Ok(false), &on),
        "The safeword for this channel was already enabled\nYou now have the following relevant safewords enabled: [Global]"
    );
}

#[test]
fn answers_to_an_unsafeword() {
    let left = vec![SafewordLocation::Channel];
    assert_eq!(
        unsafeword_reply(SafewordLocation::Global, Ok(true), &vec![]),
        "Disabled the global safeword"
    );
    assert_eq!(
        unsafeword_reply(SafewordLocation::Global, Ok(false), &left),
        "The global safeword was already disabled\nYou still have the following relevant safewords active: [Channel]"
    );
    assert_eq!(
        unsafeword_reply(SafewordLocation::Server, Ok(true), &vec![]),
        "Disabled the safeword for this server"
    );
    assert_eq!(
        unsafeword_reply(SafewordLocation::Server, Ok(false), &vec![]),
        "The safeword for this server was already disabled"
    );
    assert_eq!(
        unsafeword_reply(SafewordLocation::Server, Err(SafewordError::NotInServer), &left),
        "You can't disable the per-server safeword when not in a server\nYou still have the following relevant safewords active: [Channel]"
    );
    assert_eq!(
        unsafeword_reply(SafewordLocation::Channel, Ok(true), &vec![]),
        "Disabled the safeword for this channel"
    );
    assert_eq!(
        unsafeword_reply(SafewordLocation::Channel, Ok(false), &vec![]),
        "The safeword for this channel was already disabled"
    );
}

#[test]
fn what_is_said_of_a_status() {
    assert_eq!(
        status_reply(WHO, None, &vec![]),
        "<@7> doesn't have a gag applied in this channel"
    );
    assert_eq!(
        status_reply(WHO, Some("{\"mode\":\"Gag\"}"), &vec![]),
        "<@7> has the following gag applied in this channel: `{\"mode\":\"Gag\"}`"
    );
    assert_eq!(
        status_reply(WHO, None, &vec![SafewordLocation::Global, SafewordLocation::Channel]),
        "<@7> doesn't have a gag applied in this channel\n<@7> has the following relevant safewords enabled: [Global, Channel]"
    );
}

#[test]
fn answers_to_a_trust() {
    assert_eq!(unknown_mode_reply("Horse"), "Error! `Horse` isn't a known gag mode");
    assert_eq!(
        trust_yourself_reply(),
        "You can't overwrite your trust for yourself. You can always do anything to yourself except for untying"
    );
    assert_eq!(trust_global_reply("{}"), "Overwrote your global trust to `{}`");
    assert_eq!(trust_server_reply(true, "{}"), "Overwrote this server's trust with `{}`");
    assert_eq!(trust_server_reply(false, "{}"), "Set this server's trust to `{}`");
    assert_eq!(
        trust_query_reply(WHO, "{a}", "{b}"),
        "Your trust for <@7> in this server is `{a}`\n<@7>'s trust for you in this server is `{b}`"
    );
}

#[test]
fn a_trust_that_can_do_nothing_gets_a_warning() {
    let mut modes = GagModeSet::new();
    modes.insert(GagModeName::Gag);
    let fine = Trust { gag: true, ungag: false, tie: false, untie: false, gag_modes: modes };
    let no_modes = Trust { gag_modes: GagModeSet::new(), ..fine };
    let no_actions = Trust { gag: false, ..fine };
    assert_eq!(trust_warning(&fine, WHO), "");
    assert_eq!(trust_warning(&Trust::default(), WHO), "");
    assert_eq!(
        trust_warning(&no_modes, WHO),
        "\nWarning: Your sum trust for <@7> has actions but no modes. If this is an error and you don't intend to use other trust layers to manage their gag modes, re-run this command with `allow_gag_modes` set to a comma separated list of gag modes (Example: `Gag,Dog`)"
    );
    assert_eq!(
        trust_warning(&no_actions, WHO),
        "\nWarning: Your sum trust for <@7> has modes but no actions. If this is an error and you don't intend to use other trust layers to manage their actions, re-run this command with any of `gag`, `ungag`, `tie`, and/or `untie` set to `True`"
    );
    assert_eq!(
        trust_user_reply(WHO, true, "{d}", "{s}", &fine),
        "Overwrote your global trust for <@7> with `{d}`\nYour sum trust for <@7> in this server is now `{s}`"
    );
    assert_eq!(
        trust_user_reply(WHO, false, "{d}", "{s}", &fine),
        "Set your global trust for <@7> to `{d}`\nYour sum trust for <@7> in this server is now `{s}`"
    );
    assert_eq!(
        trust_member_reply(WHO, true, "{d}", "{s}", &fine),
        "Overwrote your trust for <@7> in this server with `{d}`\nYour sum trust for <@7> in this server is now `{s}`"
    );
    assert_eq!(
        trust_member_reply(WHO, false, "{d}", "{s}", &no_actions),
        format!(
            "Set your trust for <@7> in this server to `{{d}}`\nYour sum trust for <@7> in this server is now `{{s}}`{}",
            trust_warning(&no_actions, WHO)
        )
    );
}

#[test]
fn other_answers() {
    assert_eq!(gag_default_global_reply("{}"), "Globally set your gag defaults to `{}`");
    assert_eq!(gag_default_server_reply("{}"), "Set your gag defaults for this server to `{}`");
    assert_eq!(gag_default_for_reply(WHO, "{}"), "Set your gag defaults for <@7> to `{}`");
    assert_eq!(import_reply(true), "Data imported");
    assert_eq!(import_reply(false), "Invalid data");
    assert_eq!(wipe_reply(true), "Wiped all your data from the bot. I hope you made a backup!");
    assert_eq!(
        wipe_reply(false),
        "You need to set the yes_im_sure parameter to true.\nPlease note that you should run `/export` first to backup your data so you can `/import` it into another instance if you want to"
    );
    assert_eq!(max_length_reply(0), "Set your message length limit to 0");
    assert_eq!(max_length_reply(2000), "Set your message length limit to 2000");
    assert_eq!(
        too_long_warning(300, 256),
        "While you have a gag active here, this message is 300 bytes long while the maximum message length to gag is 256 bytes\nYou can use `/set_max_message_length_to_gag` to increase the limit"
    );
    assert_eq!(
        gagged_receipt(),
        "For some reason the bot has to send you *something* or it shows an error"
    );
}
