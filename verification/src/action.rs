//! What to do with a message.

use vstd::prelude::*;
use crate::member_id::{ChannelId, GuildId, Timestamp, UserId};
use crate::modes::GagModeName;

verus! {

/// What to do with a message of a gagged subject.
#[derive(Debug, Clone, Copy, PartialEq, Eq, Structural)]
pub enum MessageAction {
    /// Replace it by its rewriting in this mode.
    Gag(GagModeName),
    /// Leave it, and warn that it is longer than this limit, in bytes.
    WarnTooLong(usize),
}

/// What the decision about a message reads of the message.
#[derive(Debug, Clone, Copy, PartialEq, Eq, Structural)]
pub struct InboundMessage {
    /// Who wrote it.
    pub author: UserId,
    /// The channel it was written in.
    pub channel_id: ChannelId,
    /// The community of the channel, if it lies in one.
    pub guild_id: Option<GuildId>,
    /// The length of its text, in bytes.
    pub content_len: usize,
    /// When it was written.
    pub timestamp: Timestamp,
    /// Whether it forwards another message.
    pub forwarded: bool,
}

} // verus!
