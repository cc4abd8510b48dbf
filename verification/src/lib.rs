//! Consent-checked message muffling for a chat bot.
//!
//! A subject (a "gaggee") chooses who may gag, ungag, tie and untie them and in
//! which modes; a gag replaces what the subject writes in one channel until it
//! is lifted or runs out, and a safeword switches enforcement off without
//! touching the gag. Every rule is stated as a contract and proved.
//!
//! [`State`] holds everything, one [`Gaggee`] per subject. [`trust`] resolves
//! consent, [`gaggee`] holds the transitions and the decision about a
//! message, [`theorems`] what follows from them. [`rewriter`] and [`tables`]
//! rewrite the messages, [`replies`] holds what the bot answers.

pub mod action;
pub mod collections;
pub mod errors;
pub mod gaggee;
pub mod gags;
pub mod member_id;
pub mod modes;
pub mod muffle;
pub mod portable;
pub mod replies;
pub mod rewriter;
pub mod roleplay;
pub mod safeword;
pub mod state;
pub mod tables;
pub mod text;
pub mod theorems;
pub mod trust;
pub mod util;
pub mod weights;

pub use action::{InboundMessage, MessageAction};
pub use errors::{ChangeGagError, GagError, TieError, UngagError, UntieError};
pub use gaggee::{default_max_msg_length, Gaggee, GaggeeView};
pub use gags::{
    expiry_after, ChangeGag, Gag, GagConfig, GagConfigDiff, GagDefaults, GagDefaultsView, NewGag,
    NewTie, NewUngag, NewUntie, TIMESTAMP_UNITS_PER_SECOND,
};
pub use member_id::{ChannelId, GuildId, MemberId, Timestamp, UserId};
pub use modes::{GagModeName, GagModeSet, UnknownGagModeName};
pub use muffle::gag;
pub use portable::{PortableGaggee, PortableGaggeeView};
pub use rewriter::{GagMode, GagModeError, GAGMODE_STATES};
pub use roleplay::{let_me_out, struggle, struggle_lines};
pub use safeword::{SafewordError, SafewordLocation, Safewords, SafewordsView};
pub use state::State;
pub use trust::{GaggeeTrust, GaggeeTrustView, SetTrustError, Trust, TrustDiff, TrustImbalance};
pub use util::{
    csv_gag_mode_name_autocomplete, format_gagged, is_default, parse_csv_gag_modes, parse_trust,
    parse_trust_diff, split_prefix, to_gagged_message,
};
pub use weights::WeightError;
