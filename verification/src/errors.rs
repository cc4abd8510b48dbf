//! Why a transition was refused. Every refusal leaves the state as it was.

use vstd::prelude::*;
use vstd::string::*;
use crate::modes::GagModeName;

verus! {

/// Why a gag was refused.
#[derive(Debug, Clone, Copy, PartialEq, Eq, Structural)]
pub enum GagError {
    /// The subject has not consented to the actor gagging them.
    NoConsentForGag,
    /// The gag was to be tied and the subject has not consented to the actor
    /// tying them.
    NoConsentForTie,
    /// The subject has not consented to the actor using the gag's mode.
    NoConsentForMode,
    /// The subject is gagged in the channel already.
    AlreadyGagged,
}

/// Why an ungag was refused.
#[derive(Debug, Clone, Copy, PartialEq, Eq, Structural)]
pub enum UngagError {
    /// The subject has not consented to the actor ungagging them.
    NoConsentForUngag,
    /// The gag is tied and the subject has not consented to the actor untying
    /// them.
    NoConsentForUntie,
    /// The subject has not consented to the actor touching gags of this mode.
    NoConsentForMode(GagModeName),
    /// The gag is tied and the actor is the subject.
    CantUntieYourself,
    /// The subject is not gagged in the channel.
    WasntGagged,
}

/// Why a change of a gag's mode was refused.
#[derive(Debug, Clone, Copy, PartialEq, Eq, Structural)]
pub enum ChangeGagError {
    /// The subject has not consented to the actor gagging them.
    NoConsentForGag,
    /// The subject has not consented to the actor using this mode.
    NoConsentForMode(GagModeName),
    /// The subject is not gagged in the channel.
    WasntGagged,
}

/// Why a tie was refused.
#[derive(Debug, Clone, Copy, PartialEq, Eq, Structural)]
pub enum TieError {
    /// The subject is not gagged in the channel.
    WasntGagged,
    /// The gag is tied already.
    AlreadyTied,
    /// The subject has not consented to the actor tying them.
    NoConsentForTie,
    /// The subject has not consented to the actor touching gags of this mode.
    NoConsentForMode(GagModeName),
}

/// Why an untie was refused.
#[derive(Debug, Clone, Copy, PartialEq, Eq, Structural)]
pub enum UntieError {
    /// The subject is not gagged in the channel.
    WasntGagged,
    /// The gag is not tied.
    WasntTied,
    /// The subject has not consented to the actor untying them.
    NoConsentForUntie,
    /// The actor is the subject: nobody unties themself.
    CantUntieYourself,
    /// The subject has not consented to the actor touching gags of this mode.
    NoConsentForMode(GagModeName),
}

impl GagError {
    /// What went wrong, in words.
    pub open spec fn spec_message(self) -> Seq<char> {
        match self {
            GagError::NoConsentForGag => "Tried to gag someone without their consent."@,
            GagError::NoConsentForTie => "Tried to tie someone without their consent."@,
            GagError::NoConsentForMode => "Tried to gag someone in a mode they haven't consented to."@,
            GagError::AlreadyGagged => "Tried to gag someone who was already gagged."@,
        }
    }

    /// What went wrong, in words.
    pub fn message(&self) -> (r: &'static str)
        ensures
            r@ == self.spec_message(),
    {
        match self {
            GagError::NoConsentForGag => "Tried to gag someone without their consent.",
            GagError::NoConsentForTie => "Tried to tie someone without their consent.",
            GagError::NoConsentForMode => "Tried to gag someone in a mode they haven't consented to.",
            GagError::AlreadyGagged => "Tried to gag someone who was already gagged.",
        }
    }

    /// The same as a `String`.
    pub fn to_string(&self) -> (r: String)
        ensures
            r@ == self.spec_message(),
    {
        String::from_str(self.message())
    }
}

impl UngagError {
    /// What went wrong, in words.
    pub open spec fn spec_message(self) -> Seq<char> {
        match self {
            UngagError::NoConsentForUngag => "Treid to ungag someone without their consent."@,
            UngagError::NoConsentForUntie => "Tried to untie someone else without their consent."@,
            UngagError::NoConsentForMode(_) => "Tried to ungag someone from a mode they haven't consented to you ungagging them from."@,
            UngagError::CantUntieYourself => "Tried to untie yourself"@,
            UngagError::WasntGagged => "Tried to ungag someone who wasn't gagged."@,
        }
    }

    /// What went wrong, in words.
    pub fn message(&self) -> (r: &'static str)
        ensures
            r@ == self.spec_message(),
    {
        match self {
            UngagError::NoConsentForUngag => "Treid to ungag someone without their consent.",
            UngagError::NoConsentForUntie => "Tried to untie someone else without their consent.",
            UngagError::NoConsentForMode(_) => "Tried to ungag someone from a mode they haven't consented to you ungagging them from.",
            UngagError::CantUntieYourself => "Tried to untie yourself",
            UngagError::WasntGagged => "Tried to ungag someone who wasn't gagged.",
        }
    }

    /// The same as a `String`.
    pub fn to_string(&self) -> (r: String)
        ensures
            r@ == self.spec_message(),
    {
        String::from_str(self.message())
    }
}

impl ChangeGagError {
    /// What went wrong, in words.
    pub open spec fn spec_message(self) -> Seq<char> {
        match self {
            ChangeGagError::NoConsentForGag => "Tried to gag someone without their consent."@,
            ChangeGagError::NoConsentForMode(_) => "Tried to gag someone in a mode they haven't consented to."@,
            ChangeGagError::WasntGagged => "Tried to ungag someone who wasn't gagged."@,
        }
    }

    /// What went wrong, in words.
    pub fn message(&self) -> (r: &'static str)
        ensures
            r@ == self.spec_message(),
    {
        match self {
            ChangeGagError::NoConsentForGag => "Tried to gag someone without their consent.",
            ChangeGagError::NoConsentForMode(_) => "Tried to gag someone in a mode they haven't consented to.",
            ChangeGagError::WasntGagged => "Tried to ungag someone who wasn't gagged.",
        }
    }

    /// The same as a `String`.
    pub fn to_string(&self) -> (r: String)
        ensures
            r@ == self.spec_message(),
    {
        String::from_str(self.message())
    }
}

impl TieError {
    /// What went wrong, in words.
    pub open spec fn spec_message(self) -> Seq<char> {
        match self {
            TieError::WasntGagged => "Tried to tie someone who wasn't gagged."@,
            TieError::AlreadyTied => "Tried to tie someone who was already tied."@,
            TieError::NoConsentForTie => "Tried to tie someone who doesn't consent to you tying them in any gag mode."@,
            TieError::NoConsentForMode(_) => "Tried to tie someone who doesn't consent to you tying them in their current gag's mode."@,
        }
    }

    /// What went wrong, in words.
    pub fn message(&self) -> (r: &'static str)
        ensures
            r@ == self.spec_message(),
    {
        match self {
            TieError::WasntGagged => "Tried to tie someone who wasn't gagged.",
            TieError::AlreadyTied => "Tried to tie someone who was already tied.",
            TieError::NoConsentForTie => "Tried to tie someone who doesn't consent to you tying them in any gag mode.",
            TieError::NoConsentForMode(_) => "Tried to tie someone who doesn't consent to you tying them in their current gag's mode.",
        }
    }

    /// The same as a `String`.
    pub fn to_string(&self) -> (r: String)
        ensures
            r@ == self.spec_message(),
    {
        String::from_str(self.message())
    }
}

impl UntieError {
    /// What went wrong, in words.
    pub open spec fn spec_message(self) -> Seq<char> {
        match self {
            UntieError::WasntGagged => "Tried to untie someone who wasn't gagged."@,
            UntieError::WasntTied => "Tried to untie someone who wasn't tied."@,
            UntieError::NoConsentForUntie => "Tried to untie someone who doesn't consent to you untying them in any gag mode."@,
            UntieError::CantUntieYourself => "You can't untie yourself."@,
            UntieError::NoConsentForMode(_) => "Tried to untie someone who doesn't consent to you untying them in their current gag's mode."@,
        }
    }

    /// What went wrong, in words.
    pub fn message(&self) -> (r: &'static str)
        ensures
            r@ == self.spec_message(),
    {
        match self {
            UntieError::WasntGagged => "Tried to untie someone who wasn't gagged.",
            UntieError::WasntTied => "Tried to untie someone who wasn't tied.",
            UntieError::NoConsentForUntie => "Tried to untie someone who doesn't consent to you untying them in any gag mode.",
            UntieError::CantUntieYourself => "You can't untie yourself.",
            UntieError::NoConsentForMode(_) => "Tried to untie someone who doesn't consent to you untying them in their current gag's mode.",
        }
    }

    /// The same as a `String`.
    pub fn to_string(&self) -> (r: String)
        ensures
            r@ == self.spec_message(),
    {
        String::from_str(self.message())
    }
}

} // verus!
