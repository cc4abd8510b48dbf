//! What the bot answers to the commands, word for word.

use vstd::prelude::*;
use vstd::string::*;
use crate::errors::{ChangeGagError, GagError, TieError, UngagError, UntieError};
use crate::gags::GagConfig;
use crate::modes::GagModeName;
use crate::safeword::{SafewordError, SafewordLocation};
use crate::text::{decimal, write_decimal};
use crate::trust::{Trust, TrustImbalance};

verus! {

/// The answer to a gag of `target` for `minutes` minutes, or for ever, that
/// was to work as `config` says.
pub open spec fn spec_gag_reply(
    target: Seq<char>,
    minutes: Option<u32>,
    config: GagConfig,
    result: Result<(), GagError>,
) -> Seq<char> {
    match (result, minutes, config.tie) {
        (Ok(()), None, false) => {
            "Gagged "@
                + target
                + " in this channel with mode "@
                + config.mode.spec_name()
                + " ("@
                + config.mode.spec_icon()
                + ") forever"@
        },
        (Ok(()), None, true) => {
            "Gagged and tied "@
                + target
                + " in this channel with mode "@
                + config.mode.spec_name()
                + " ("@
                + config.mode.spec_icon()
                + ") forever"@
        },
        (Ok(()), Some(1), false) => {
            "Gagged "@
                + target
                + " in this channel with mode "@
                + config.mode.spec_name()
                + " ("@
                + config.mode.spec_icon()
                + ") for 1 minute"@
        },
        (Ok(()), Some(1), true) => {
            "Gagged and tied "@
                + target
                + " in this channel with mode "@
                + config.mode.spec_name()
                + " ("@
                + config.mode.spec_icon()
                + ") for 1 minute"@
        },
        (Ok(()), Some(minutes), false) => {
            "Gagged "@
                + target
                + " in this channel with mode "@
                + config.mode.spec_name()
                + " ("@
                + config.mode.spec_icon()
                + ") for "@
                + decimal(minutes as nat)
                + " minutes"@
        },
        (Ok(()), Some(minutes), true) => {
            "Gagged and tied "@
                + target
                + " in this channel with mode "@
                + config.mode.spec_name()
                + " ("@
                + config.mode.spec_icon()
                + ") for "@
                + decimal(minutes as nat)
                + " minutes"@
        },
        (Err(GagError::NoConsentForGag), _, _) => {
            target
                + " hasn't consented to you gagging them"@
        },
        (Err(GagError::NoConsentForTie), _, _) => {
            target
                + " hasn't consented to you tying them"@
        },
        (Err(GagError::NoConsentForMode), _, _) => {
            target
                + " has consented to you gagging them but not with mode "@
                + config.mode.spec_name()
                + " ("@
                + config.mode.spec_icon()
                + ")"@
        },
        (Err(GagError::AlreadyGagged), _, _) => target + " was already gagged in this channel"@,
    }
}

/// The answer to a gag of `target` for `minutes` minutes, or for ever, that
/// was to work as `config` says.
pub fn gag_reply(
    target: &str,
    minutes: Option<u32>,
    config: GagConfig,
    result: Result<(), GagError>,
) -> (r: String)
    ensures
        r@ == spec_gag_reply(target@, minutes, config, result),
{
    let name = config.mode.name();
    let icon = config.mode.icon();
    match (result, minutes, config.tie) {
        (Ok(()), None, false) => {
            let mut out = String::from_str("Gagged ");
            out.append(target);
            out.append(" in this channel with mode ");
            out.append(name);
            out.append(" (");
            out.append(icon);
            out.append(") forever");
            out
        },
        (Ok(()), None, true) => {
            let mut out = String::from_str("Gagged and tied ");
            out.append(target);
            out.append(" in this channel with mode ");
            out.append(name);
            out.append(" (");
            out.append(icon);
            out.append(") forever");
            out
        },
        (Ok(()), Some(1), false) => {
            let mut out = String::from_str("Gagged ");
            out.append(target);
            out.append(" in this channel with mode ");
            out.append(name);
            out.append(" (");
            out.append(icon);
            out.append(") for 1 minute");
            out
        },
        (Ok(()), Some(1), true) => {
            let mut out = String::from_str("Gagged and tied ");
            out.append(target);
            out.append(" in this channel with mode ");
            out.append(name);
            out.append(" (");
            out.append(icon);
            out.append(") for 1 minute");
            out
        },
        (Ok(()), Some(minutes), false) => {
            let mut out = String::from_str("Gagged ");
            out.append(target);
            out.append(" in this channel with mode ");
            out.append(name);
            out.append(" (");
            out.append(icon);
            out.append(") for ");
            out.append(write_decimal(minutes as u64).as_str());
            out.append(" minutes");
            out
        },
        (Ok(()), Some(minutes), true) => {
            let mut out = String::from_str("Gagged and tied ");
            out.append(target);
            out.append(" in this channel with mode ");
            out.append(name);
            out.append(" (");
            out.append(icon);
            out.append(") for ");
            out.append(write_decimal(minutes as u64).as_str());
            out.append(" minutes");
            out
        },
        (Err(GagError::NoConsentForGag), _, _) => {
            let mut out = String::from_str(target);
            out.append(" hasn't consented to you gagging them");
            out
        },
        (Err(GagError::NoConsentForTie), _, _) => {
            let mut out = String::from_str(target);
            out.append(" hasn't consented to you tying them");
            out
        },
        (Err(GagError::NoConsentForMode), _, _) => {
            let mut out = String::from_str(target);
            out.append(" has consented to you gagging them but not with mode ");
            out.append(name);
            out.append(" (");
            out.append(icon);
            out.append(")");
            out
        },
        (Err(GagError::AlreadyGagged), _, _) => {
            let mut out = String::from_str(target);
            out.append(" was already gagged in this channel");
            out
        },
    }
}

/// The answer to an ungag of `target`.
pub open spec fn spec_ungag_reply(target: Seq<char>, result: Result<(), UngagError>) -> Seq<char> {
    match result {
        Ok(()) => "Ungagged "@ + target + " in this channel"@,
        Err(UngagError::NoConsentForUngag) => {
            target
                + " hasn't consented to you ungagging them"@
        },
        Err(UngagError::NoConsentForUntie) => target + " hasn't consented to you untying them"@,
        Err(UngagError::NoConsentForMode(mode)) => {
            target
                + " has consented to you ungagging them but not with mode "@
                + mode.spec_name()
                + " ("@
                + mode.spec_icon()
                + ")"@
        },
        Err(UngagError::CantUntieYourself) => "You can't untie yourself"@,
        Err(UngagError::WasntGagged) => target + " wasn't gagged in this channel"@,
    }
}

/// The answer to an ungag of `target`.
pub fn ungag_reply(target: &str, result: Result<(), UngagError>) -> (r: String)
    ensures
        r@ == spec_ungag_reply(target@, result),
{
    match result {
        Ok(()) => {
            let mut out = String::from_str("Ungagged ");
            out.append(target);
            out.append(" in this channel");
            out
        },
        Err(UngagError::NoConsentForUngag) => {
            let mut out = String::from_str(target);
            out.append(" hasn't consented to you ungagging them");
            out
        },
        Err(UngagError::NoConsentForUntie) => {
            let mut out = String::from_str(target);
            out.append(" hasn't consented to you untying them");
            out
        },
        Err(UngagError::NoConsentForMode(mode)) => {
            let mut out = String::from_str(target);
            out.append(" has consented to you ungagging them but not with mode ");
            out.append(mode.name());
            out.append(" (");
            out.append(mode.icon());
            out.append(")");
            out
        },
        Err(UngagError::CantUntieYourself) => String::from_str("You can't untie yourself"),
        Err(UngagError::WasntGagged) => {
            let mut out = String::from_str(target);
            out.append(" wasn't gagged in this channel");
            out
        },
    }
}

/// The answer to a change of the gag of `target` to `mode`.
pub open spec fn spec_change_gag_reply(
    target: Seq<char>,
    mode: GagModeName,
    result: Result<GagModeName, ChangeGagError>,
) -> Seq<char> {
    match result {
        Ok(old) => {
            "Changed "@
                + target
                + "'s gag from "@
                + old.spec_name()
                + " ("@
                + old.spec_icon()
                + ") to "@
                + mode.spec_name()
                + " ("@
                + mode.spec_icon()
                + ")"@
        },
        Err(ChangeGagError::NoConsentForGag) => {
            target
                + " hasn't consented to you gagging them"@
        },
        Err(ChangeGagError::NoConsentForMode(bad)) => {
            target
                + " has consented to you gagging them but not with mode "@
                + bad.spec_name()
                + " ("@
                + bad.spec_icon()
                + ")"@
        },
        Err(ChangeGagError::WasntGagged) => target + " wasn't gagged"@,
    }
}

/// The answer to a change of the gag of `target` to `mode`.
pub fn change_gag_reply(
    target: &str,
    mode: GagModeName,
    result: Result<GagModeName, ChangeGagError>,
) -> (r: String)
    ensures
        r@ == spec_change_gag_reply(target@, mode, result),
{
    match result {
        Ok(old) => {
            let mut out = String::from_str("Changed ");
            out.append(target);
            out.append("'s gag from ");
            out.append(old.name());
            out.append(" (");
            out.append(old.icon());
            out.append(") to ");
            out.append(mode.name());
            out.append(" (");
            out.append(mode.icon());
            out.append(")");
            out
        },
        Err(ChangeGagError::NoConsentForGag) => {
            let mut out = String::from_str(target);
            out.append(" hasn't consented to you gagging them");
            out
        },
        Err(ChangeGagError::NoConsentForMode(bad)) => {
            let mut out = String::from_str(target);
            out.append(" has consented to you gagging them but not with mode ");
            out.append(bad.name());
            out.append(" (");
            out.append(bad.icon());
            out.append(")");
            out
        },
        Err(ChangeGagError::WasntGagged) => {
            let mut out = String::from_str(target);
            out.append(" wasn't gagged");
            out
        },
    }
}

/// The answer to a tie of `target`.
pub open spec fn spec_tie_reply(target: Seq<char>, result: Result<(), TieError>) -> Seq<char> {
    match result {
        Ok(()) => "Tied "@ + target,
        Err(TieError::WasntGagged) => target + " wasn't gagged"@,
        Err(TieError::AlreadyTied) => target + " was already tied"@,
        Err(TieError::NoConsentForTie) => target + " doesn't consent to you tying them"@,
        Err(TieError::NoConsentForMode(mode)) => {
            target
                + " doesn't consent to you tying them in gag mode `"@
                + mode.spec_name()
                + "`"@
        },
    }
}

/// The answer to a tie of `target`.
pub fn tie_reply(target: &str, result: Result<(), TieError>) -> (r: String)
    ensures
        r@ == spec_tie_reply(target@, result),
{
    match result {
        Ok(()) => {
            let mut out = String::from_str("Tied ");
            out.append(target);
            out
        },
        Err(TieError::WasntGagged) => {
            let mut out = String::from_str(target);
            out.append(" wasn't gagged");
            out
        },
        Err(TieError::AlreadyTied) => {
            let mut out = String::from_str(target);
            out.append(" was already tied");
            out
        },
        Err(TieError::NoConsentForTie) => {
            let mut out = String::from_str(target);
            out.append(" doesn't consent to you tying them");
            out
        },
        Err(TieError::NoConsentForMode(mode)) => {
            let mut out = String::from_str(target);
            out.append(" doesn't consent to you tying them in gag mode `");
            out.append(mode.name());
            out.append("`");
            out
        },
    }
}

/// The answer to an untie of `target`.
pub open spec fn spec_untie_reply(target: Seq<char>, result: Result<(), UntieError>) -> Seq<char> {
    match result {
        Ok(()) => "Untied "@ + target,
        Err(UntieError::WasntGagged) => target + " wasn't gagged"@,
        Err(UntieError::WasntTied) => target + " wasn't tied"@,
        Err(UntieError::NoConsentForUntie) => target + " doesn't consent to you untying them"@,
        Err(UntieError::CantUntieYourself) => "You can't untie yourself"@,
        Err(UntieError::NoConsentForMode(mode)) => {
            target
                + " doesn't consent to you untying them in gag mode `"@
                + mode.spec_name()
                + "`"@
        },
    }
}

/// The answer to an untie of `target`.
pub fn untie_reply(target: &str, result: Result<(), UntieError>) -> (r: String)
    ensures
        r@ == spec_untie_reply(target@, result),
{
    match result {
        Ok(()) => {
            let mut out = String::from_str("Untied ");
            out.append(target);
            out
        },
        Err(UntieError::WasntGagged) => {
            let mut out = String::from_str(target);
            out.append(" wasn't gagged");
            out
        },
        Err(UntieError::WasntTied) => {
            let mut out = String::from_str(target);
            out.append(" wasn't tied");
            out
        },
        Err(UntieError::NoConsentForUntie) => {
            let mut out = String::from_str(target);
            out.append(" doesn't consent to you untying them");
            out
        },
        Err(UntieError::CantUntieYourself) => String::from_str("You can't untie yourself"),
        Err(UntieError::NoConsentForMode(mode)) => {
            let mut out = String::from_str(target);
            out.append(" doesn't consent to you untying them in gag mode `");
            out.append(mode.name());
            out.append("`");
            out
        },
    }
}

impl SafewordLocation {
    /// The name of the location.
    pub open spec fn spec_name(self) -> Seq<char> {
        match self {
            SafewordLocation::Global => "Global"@,
            SafewordLocation::Server => "Server"@,
            SafewordLocation::Channel => "Channel"@,
        }
    }

    /// The name of the location.
    pub fn name(&self) -> (r: &'static str)
        ensures
            r@ == self.spec_name(),
    {
        match self {
            SafewordLocation::Global => "Global",
            SafewordLocation::Server => "Server",
            SafewordLocation::Channel => "Channel",
        }
    }
}

/// The names of some locations with a comma and a space between each two.
pub open spec fn spec_location_names(locations: Seq<SafewordLocation>) -> Seq<char>
    decreases locations.len(),
{
    if locations.len() == 0 {
        Seq::<char>::empty()
    } else if locations.len() == 1 {
        locations[0].spec_name()
    } else {
        spec_location_names(locations.drop_last()) + ", "@ + locations.last().spec_name()
    }
}

/// A list of locations as it is shown: their names in square brackets.
pub open spec fn spec_location_list(locations: Seq<SafewordLocation>) -> Seq<char> {
    "["@ + spec_location_names(locations) + "]"@
}

/// Writes a list of locations as it is shown: their names in square
/// brackets, with a comma and a space between each two.
pub fn location_list(locations: &Vec<SafewordLocation>) -> (r: String)
    ensures
        r@ == spec_location_list(locations@),
{
    let mut out = String::from_str("[");
    let mut i: usize = 0;
    assert(locations@.take(0) =~= Seq::<SafewordLocation>::empty());
    while i < locations.len()
        invariant
            i <= locations@.len(),
            out@ == "["@ + spec_location_names(locations@.take(i as int)),
        decreases locations@.len() - i,
    {
        proof {
            let done = locations@.take(i + 1);
            assert(done.drop_last() =~= locations@.take(i as int));
            assert(done.last() == locations@[i as int]);
            if i == 0 {
                assert(done[0] == locations@[0]);
                assert(spec_location_names(locations@.take(0)) =~= Seq::<char>::empty());
            }
        }
        if i > 0 {
            out.append(", ");
        }
        out.append(locations[i].name());
        i = i + 1;
    }
    proof {
        assert(locations@.take(locations@.len() as int) =~= locations@);
    }
    out.append("]");
    out
}

/// Whether a safeword can have been answered so: only a safeword for a
/// server can fail.
pub open spec fn safeword_answer(
    location: SafewordLocation,
    result: Result<bool, SafewordError>,
) -> bool {
    result is Err ==> location == SafewordLocation::Server
}

/// The answer to a safeword switched on at `location`, with the safewords
/// that are then on for the channel.
pub open spec fn spec_safeword_reply(
    location: SafewordLocation,
    result: Result<bool, SafewordError>,
    relevant: Seq<SafewordLocation>,
) -> Seq<char> {
    (match (location, result) {
        (SafewordLocation::Global, Ok(true)) => "Enabled the global safeword"@,
        (SafewordLocation::Global, Ok(false)) => "The global safeword was already enabled"@,
        (SafewordLocation::Server, Ok(true)) => "Enabled the safeword for this server"@,
        (SafewordLocation::Server, Ok(false)) => {
            "The safeword for this server was already enabled"@
        },
        (SafewordLocation::Channel, Ok(true)) => "Enabled the safeword for this channel"@,
        (SafewordLocation::Channel, Ok(false)) => {
            "The safeword for this channel was already enabled"@
        },
        (_, Err(SafewordError::NotInServer)) => {
            "You can't enable the per-server safeword when not in a server"@
        },
    }) + "\nYou now have the following relevant safewords enabled: "@ + spec_location_list(
        relevant,
    )
}

/// The answer to a safeword switched on at `location`, with the safewords
/// that are then on for the channel.
pub fn safeword_reply(
    location: SafewordLocation,
    result: Result<bool, SafewordError>,
    relevant: &Vec<SafewordLocation>,
) -> (r: String)
    requires
        safeword_answer(location, result),
    ensures
        r@ == spec_safeword_reply(location, result, relevant@),
{
    let head = match (location, result) {
        (SafewordLocation::Global, Ok(true)) => "Enabled the global safeword",
        (SafewordLocation::Global, Ok(false)) => "The global safeword was already enabled",
        (SafewordLocation::Server, Ok(true)) => "Enabled the safeword for this server",
        (SafewordLocation::Server, Ok(false)) => {
            "The safeword for this server was already enabled"
        },
        (SafewordLocation::Channel, Ok(true)) => "Enabled the safeword for this channel",
        (SafewordLocation::Channel, Ok(false)) => {
            "The safeword for this channel was already enabled"
        },
        (_, Err(SafewordError::NotInServer)) => {
            "You can't enable the per-server safeword when not in a server"
        },
    };
    let mut out = String::from_str(head);
    out.append("\nYou now have the following relevant safewords enabled: ");
    out.append(location_list(relevant).as_str());
    out
}

/// The answer to a safeword switched off at `location`, with the safewords
/// that are still on for the channel, if any.
pub open spec fn spec_unsafeword_reply(
    location: SafewordLocation,
    result: Result<bool, SafewordError>,
    relevant: Seq<SafewordLocation>,
) -> Seq<char> {
    (match (location, result) {
        (SafewordLocation::Global, Ok(true)) => "Disabled the global safeword"@,
        (SafewordLocation::Global, Ok(false)) => "The global safeword was already disabled"@,
        (SafewordLocation::Server, Ok(true)) => "Disabled the safeword for this server"@,
        (SafewordLocation::Server, Ok(false)) => {
            "The safeword for this server was already disabled"@
        },
        (SafewordLocation::Channel, Ok(true)) => "Disabled the safeword for this channel"@,
        (SafewordLocation::Channel, Ok(false)) => {
            "The safeword for this channel was already disabled"@
        },
        (_, Err(SafewordError::NotInServer)) => {
            "You can't disable the per-server safeword when not in a server"@
        },
    }) + (if relevant.len() > 0 {
        "\nYou still have the following relevant safewords active: "@ + spec_location_list(
            relevant,
        )
    } else {
        Seq::<char>::empty()
    })
}

/// The answer to a safeword switched off at `location`, with the safewords
/// that are still on for the channel, if any.
pub fn unsafeword_reply(
    location: SafewordLocation,
    result: Result<bool, SafewordError>,
    relevant: &Vec<SafewordLocation>,
) -> (r: String)
    requires
        safeword_answer(location, result),
    ensures
        r@ == spec_unsafeword_reply(location, result, relevant@),
{
    let head = match (location, result) {
        (SafewordLocation::Global, Ok(true)) => "Disabled the global safeword",
        (SafewordLocation::Global, Ok(false)) => "The global safeword was already disabled",
        (SafewordLocation::Server, Ok(true)) => "Disabled the safeword for this server",
        (SafewordLocation::Server, Ok(false)) => {
            "The safeword for this server was already disabled"
        },
        (SafewordLocation::Channel, Ok(true)) => "Disabled the safeword for this channel",
        (SafewordLocation::Channel, Ok(false)) => {
            "The safeword for this channel was already disabled"
        },
        (_, Err(SafewordError::NotInServer)) => {
            "You can't disable the per-server safeword when not in a server"
        },
    };
    let mut out = String::from_str(head);
    if relevant.len() > 0 {
        out.append("\nYou still have the following relevant safewords active: ");
        out.append(location_list(relevant).as_str());
    }
    out
}

/// What is said of the gag and the safewords of `target` in a channel: the
/// gag as `gag` shows it, if there is one, and the safewords that concern the
/// channel, if any.
pub open spec fn spec_status_reply(
    target: Seq<char>,
    gag: Option<Seq<char>>,
    relevant: Seq<SafewordLocation>,
) -> Seq<char> {
    (match gag {
        Some(gag) => {
            target + " has the following gag applied in this channel: `"@ + gag + "`"@
        },
        None => target + " doesn't have a gag applied in this channel"@,
    }) + (if relevant.len() > 0 {
        "\n"@ + target + " has the following relevant safewords enabled: "@ + spec_location_list(
            relevant,
        )
    } else {
        Seq::<char>::empty()
    })
}

/// What is said of the gag and the safewords of `target` in a channel.
pub fn status_reply(target: &str, gag: Option<&str>, relevant: &Vec<SafewordLocation>) -> (r:
    String)
    ensures
        r@ == spec_status_reply(
            target@,
            match gag {
                Some(gag) => Some(gag@),
                None => None,
            },
            relevant@,
        ),
{
    let mut out = String::from_str(target);
    match gag {
        Some(gag) => {
            out.append(" has the following gag applied in this channel: `");
            out.append(gag);
            out.append("`");
        },
        None => {
            out.append(" doesn't have a gag applied in this channel");
        },
    }
    if relevant.len() > 0 {
        out.append("\n");
        out.append(target);
        out.append(" has the following relevant safewords enabled: ");
        out.append(location_list(relevant).as_str());
    }
    out
}

/// The answer to a list of gag modes of which `bad_name` names none.
pub open spec fn spec_unknown_mode_reply(bad_name: Seq<char>) -> Seq<char> {
    "Error! `"@ + bad_name + "` isn't a known gag mode"@
}

/// The answer to a list of gag modes of which `bad_name` names none.
pub fn unknown_mode_reply(bad_name: &str) -> (r: String)
    ensures
        r@ == spec_unknown_mode_reply(bad_name@),
{
    {
        let mut out = String::from_str("Error! `");
        out.append(bad_name);
        out.append("` isn't a known gag mode");
        out
    }
}

/// The answer to someone who sets their trust in themself.
pub open spec fn spec_trust_yourself_reply() -> Seq<char> {
    "You can't overwrite your trust for yourself. You can always do anything to yourself except for untying"@
}

/// The answer to someone who sets their trust in themself.
pub fn trust_yourself_reply() -> (r: String)
    ensures
        r@ == spec_trust_yourself_reply(),
{
    String::from_str(
        "You can't overwrite your trust for yourself. You can always do anything to yourself except for untying",
    )
}

/// The answer to a trust in everyone that was set; `serialized` shows it.
pub open spec fn spec_trust_global_reply(serialized: Seq<char>) -> Seq<char> {
    "Overwrote your global trust to `"@ + serialized + "`"@
}

/// The answer to a trust in everyone that was set; `serialized` shows it.
pub fn trust_global_reply(serialized: &str) -> (r: String)
    ensures
        r@ == spec_trust_global_reply(serialized@),
{
    {
        let mut out = String::from_str("Overwrote your global trust to `");
        out.append(serialized);
        out.append("`");
        out
    }
}

/// The answer to a trust in a server that was set; `serialized` shows it.
pub open spec fn spec_trust_server_reply(overwrote: bool, serialized: Seq<char>) -> Seq<char> {
    match overwrote {
        true => "Overwrote this server's trust with `"@ + serialized + "`"@,
        false => "Set this server's trust to `"@ + serialized + "`"@,
    }
}

/// The answer to a trust in a server that was set; `serialized` shows it.
pub fn trust_server_reply(overwrote: bool, serialized: &str) -> (r: String)
    ensures
        r@ == spec_trust_server_reply(overwrote, serialized@),
{
    match overwrote {
        true => {
            let mut out = String::from_str("Overwrote this server's trust with `");
            out.append(serialized);
            out.append("`");
            out
        },
        false => {
            let mut out = String::from_str("Set this server's trust to `");
            out.append(serialized);
            out.append("`");
            out
        },
    }
}

/// The warning about a trust in `who` that sums up to something that can
/// do nothing as it stands; empty if there is nothing to warn of.
pub open spec fn spec_trust_warning(sum: Trust, who: Seq<char>) -> Seq<char> {
    match sum.spec_imbalance() {
        Some(TrustImbalance::ActionsWithoutModes) => {
            "\nWarning: Your sum trust for "@
                + who
                + " has actions but no modes. If this is an error and you don't intend "@
                + "to use other trust layers to manage their gag modes, re-run this "@
                + "command with `allow_gag_modes` set to a comma separated list of gag "@
                + "modes (Example: `Gag,Dog`)"@
        },
        Some(TrustImbalance::ModesWithoutActions) => {
            "\nWarning: Your sum trust for "@
                + who
                + " has modes but no actions. If this is an error and you don't intend "@
                + "to use other trust layers to manage their actions, re-run this "@
                + "command with any of `gag`, `ungag`, `tie`, and/or `untie` set to "@
                + "`True`"@
        },
        None => ""@,
    }
}

/// The warning about a trust in `who` that sums up to something that can
/// do nothing as it stands; empty if there is nothing to warn of.
pub fn trust_warning(sum: &Trust, who: &str) -> (r: String)
    ensures
        r@ == spec_trust_warning(*sum, who@),
{
    match sum.imbalance() {
        Some(TrustImbalance::ActionsWithoutModes) => {
            let mut out = String::from_str("\nWarning: Your sum trust for ");
            out.append(who);
            out.append(" has actions but no modes. If this is an error and you don't intend ");
            out.append("to use other trust layers to manage their gag modes, re-run this ");
            out.append("command with `allow_gag_modes` set to a comma separated list of gag ");
            out.append("modes (Example: `Gag,Dog`)");
            out
        },
        Some(TrustImbalance::ModesWithoutActions) => {
            let mut out = String::from_str("\nWarning: Your sum trust for ");
            out.append(who);
            out.append(" has modes but no actions. If this is an error and you don't intend ");
            out.append("to use other trust layers to manage their actions, re-run this ");
            out.append("command with any of `gag`, `ungag`, `tie`, and/or `untie` set to ");
            out.append("`True`");
            out
        },
        None => String::from_str(""),
    }
}

/// The answer to a trust in the user `who` that was set; `serialized` shows
/// it, `sum_message` shows the trust `sum` that `who` has in all.
pub open spec fn spec_trust_user_reply(
    who: Seq<char>,
    overwrote: bool,
    serialized: Seq<char>,
    sum_message: Seq<char>,
    sum: Trust,
) -> Seq<char> {
    match overwrote {
        true => {
            "Overwrote your global trust for "@
                + who
                + " with `"@
                + serialized
                + "`\nYour sum trust for "@
                + who
                + " in this server is now `"@
                + sum_message
                + "`"@
                + spec_trust_warning(sum, who)
        },
        false => {
            "Set your global trust for "@
                + who
                + " to `"@
                + serialized
                + "`\nYour sum trust for "@
                + who
                + " in this server is now `"@
                + sum_message
                + "`"@
                + spec_trust_warning(sum, who)
        },
    }
}

/// The answer to a trust in the user `who` that was set; `serialized` shows
/// it, `sum_message` shows the trust `sum` that `who` has in all.
pub fn trust_user_reply(
    who: &str,
    overwrote: bool,
    serialized: &str,
    sum_message: &str,
    sum: &Trust,
) -> (r: String)
    ensures
        r@ == spec_trust_user_reply(who@, overwrote, serialized@, sum_message@, *sum),
{
    let warning = trust_warning(sum, who);
    match overwrote {
        true => {
            let mut out = String::from_str("Overwrote your global trust for ");
            out.append(who);
            out.append(" with `");
            out.append(serialized);
            out.append("`\nYour sum trust for ");
            out.append(who);
            out.append(" in this server is now `");
            out.append(sum_message);
            out.append("`");
            out.append(warning.as_str());
            out
        },
        false => {
            let mut out = String::from_str("Set your global trust for ");
            out.append(who);
            out.append(" to `");
            out.append(serialized);
            out.append("`\nYour sum trust for ");
            out.append(who);
            out.append(" in this server is now `");
            out.append(sum_message);
            out.append("`");
            out.append(warning.as_str());
            out
        },
    }
}

/// The answer to a trust in the member `who` that was set; `serialized`
/// shows it, `sum_message` shows the trust `sum` that `who` has in all.
pub open spec fn spec_trust_member_reply(
    who: Seq<char>,
    overwrote: bool,
    serialized: Seq<char>,
    sum_message: Seq<char>,
    sum: Trust,
) -> Seq<char> {
    match overwrote {
        true => {
            "Overwrote your trust for "@
                + who
                + " in this server with `"@
                + serialized
                + "`\nYour sum trust for "@
                + who
                + " in this server is now `"@
                + sum_message
                + "`"@
                + spec_trust_warning(sum, who)
        },
        false => {
            "Set your trust for "@
                + who
                + " in this server to `"@
                + serialized
                + "`\nYour sum trust for "@
                + who
                + " in this server is now `"@
                + sum_message
                + "`"@
                + spec_trust_warning(sum, who)
        },
    }
}

/// The answer to a trust in the member `who` that was set; `serialized`
/// shows it, `sum_message` shows the trust `sum` that `who` has in all.
pub fn trust_member_reply(
    who: &str,
    overwrote: bool,
    serialized: &str,
    sum_message: &str,
    sum: &Trust,
) -> (r: String)
    ensures
        r@ == spec_trust_member_reply(who@, overwrote, serialized@, sum_message@, *sum),
{
    let warning = trust_warning(sum, who);
    match overwrote {
        true => {
            let mut out = String::from_str("Overwrote your trust for ");
            out.append(who);
            out.append(" in this server with `");
            out.append(serialized);
            out.append("`\nYour sum trust for ");
            out.append(who);
            out.append(" in this server is now `");
            out.append(sum_message);
            out.append("`");
            out.append(warning.as_str());
            out
        },
        false => {
            let mut out = String::from_str("Set your trust for ");
            out.append(who);
            out.append(" in this server to `");
            out.append(serialized);
            out.append("`\nYour sum trust for ");
            out.append(who);
            out.append(" in this server is now `");
            out.append(sum_message);
            out.append("`");
            out.append(warning.as_str());
            out
        },
    }
}

/// The answer to a question for the trust between the asker and `member`, as
/// `mine` and `theirs` show it.
pub open spec fn spec_trust_query_reply(
    member: Seq<char>,
    mine: Seq<char>,
    theirs: Seq<char>,
) -> Seq<char> {
    "Your trust for "@
        + member
        + " in this server is `"@
        + mine
        + "`\n"@
        + member
        + "'s trust for you in this server is `"@
        + theirs
        + "`"@
}

/// The answer to a question for the trust between the asker and `member`, as
/// `mine` and `theirs` show it.
pub fn trust_query_reply(member: &str, mine: &str, theirs: &str) -> (r: String)
    ensures
        r@ == spec_trust_query_reply(member@, mine@, theirs@),
{
    {
        let mut out = String::from_str("Your trust for ");
        out.append(member);
        out.append(" in this server is `");
        out.append(mine);
        out.append("`\n");
        out.append(member);
        out.append("'s trust for you in this server is `");
        out.append(theirs);
        out.append("`");
        out
    }
}

/// The answer to defaults for gags by anyone that were set.
pub open spec fn spec_gag_default_global_reply(serialized: Seq<char>) -> Seq<char> {
    "Globally set your gag defaults to `"@ + serialized + "`"@
}

/// The answer to defaults for gags by anyone that were set.
pub fn gag_default_global_reply(serialized: &str) -> (r: String)
    ensures
        r@ == spec_gag_default_global_reply(serialized@),
{
    {
        let mut out = String::from_str("Globally set your gag defaults to `");
        out.append(serialized);
        out.append("`");
        out
    }
}

/// The answer to defaults for gags in a server that were set.
pub open spec fn spec_gag_default_server_reply(serialized: Seq<char>) -> Seq<char> {
    "Set your gag defaults for this server to `"@ + serialized + "`"@
}

/// The answer to defaults for gags in a server that were set.
pub fn gag_default_server_reply(serialized: &str) -> (r: String)
    ensures
        r@ == spec_gag_default_server_reply(serialized@),
{
    {
        let mut out = String::from_str("Set your gag defaults for this server to `");
        out.append(serialized);
        out.append("`");
        out
    }
}

/// The answer to defaults for gags by `who` that were set.
pub open spec fn spec_gag_default_for_reply(who: Seq<char>, serialized: Seq<char>) -> Seq<char> {
    "Set your gag defaults for "@ + who + " to `"@ + serialized + "`"@
}

/// The answer to defaults for gags by `who` that were set.
pub fn gag_default_for_reply(who: &str, serialized: &str) -> (r: String)
    ensures
        r@ == spec_gag_default_for_reply(who@, serialized@),
{
    {
        let mut out = String::from_str("Set your gag defaults for ");
        out.append(who);
        out.append(" to `");
        out.append(serialized);
        out.append("`");
        out
    }
}

/// The answer to an import: whether the data could be read.
pub open spec fn spec_import_reply(imported: bool) -> Seq<char> {
    match imported {
        true => "Data imported"@,
        false => "Invalid data"@,
    }
}

/// The answer to an import: whether the data could be read.
pub fn import_reply(imported: bool) -> (r: String)
    ensures
        r@ == spec_import_reply(imported),
{
    match imported {
        true => String::from_str("Data imported"),
        false => String::from_str("Invalid data"),
    }
}

/// The answer to a wipe: whether it was done, which takes being sure.
pub open spec fn spec_wipe_reply(wiped: bool) -> Seq<char> {
    match wiped {
        true => "Wiped all your data from the bot. I hope you made a backup!"@,
        false => "You need to set the yes_im_sure parameter to true.\nPlease note that you should run `/export` first to backup your data so you can `/import` it into another instance if you want to"@,
    }
}

/// The answer to a wipe: whether it was done, which takes being sure.
pub fn wipe_reply(wiped: bool) -> (r: String)
    ensures
        r@ == spec_wipe_reply(wiped),
{
    match wiped {
        true => String::from_str("Wiped all your data from the bot. I hope you made a backup!"),
        false => String::from_str(
            "You need to set the yes_im_sure parameter to true.\nPlease note that you should run `/export` first to backup your data so you can `/import` it into another instance if you want to",
        ),
    }
}

/// The answer to a limit for the length of messages that was set.
pub open spec fn spec_max_length_reply(length: usize) -> Seq<char> {
    "Set your message length limit to "@ + decimal(length as nat)
}

/// The answer to a limit for the length of messages that was set.
pub fn max_length_reply(length: usize) -> (r: String)
    ensures
        r@ == spec_max_length_reply(length),
{
    {
        let mut out = String::from_str("Set your message length limit to ");
        out.append(write_decimal(length as u64).as_str());
        out
    }
}

/// The warning under a message of `length` bytes that is too long to gag,
/// the limit being `max_length`.
pub open spec fn spec_too_long_warning(length: usize, max_length: usize) -> Seq<char> {
    "While you have a gag active here, this message is "@
        + decimal(length as nat)
        + " bytes long while the maximum message length to gag is "@
        + decimal(max_length as nat)
        + " bytes\nYou can use `/set_max_message_length_to_gag` to increase the "@
        + "limit"@
}

/// The warning under a message of `length` bytes that is too long to gag,
/// the limit being `max_length`.
pub fn too_long_warning(length: usize, max_length: usize) -> (r: String)
    ensures
        r@ == spec_too_long_warning(length, max_length),
{
    {
        let mut out = String::from_str("While you have a gag active here, this message is ");
        out.append(write_decimal(length as u64).as_str());
        out.append(" bytes long while the maximum message length to gag is ");
        out.append(write_decimal(max_length as u64).as_str());
        out.append(" bytes\nYou can use `/set_max_message_length_to_gag` to increase the ");
        out.append("limit");
        out
    }
}

/// What the one who sent a message with a gag is told.
pub open spec fn spec_gagged_receipt() -> Seq<char> {
    "For some reason the bot has to send you *something* or it shows an error"@
}

/// What the one who sent a message with a gag is told.
pub fn gagged_receipt() -> (r: String)
    ensures
        r@ == spec_gagged_receipt(),
{
    String::from_str(
        "For some reason the bot has to send you *something* or it shows an error",
    )
}

} // verus!
