//! What a subject takes along from one instance of the bot to another.

use std::collections::HashMap;
use vstd::prelude::*;
use crate::gags::{Gag, GagDefaults, GagDefaultsView};
use crate::member_id::ChannelId;
use crate::safeword::{Safewords, SafewordsView};
use crate::trust::{GaggeeTrust, GaggeeTrustView};

verus! {

/// Everything that is kept about one subject, each part present or absent.
/// An absent part stands for the part's default.
#[derive(Debug, PartialEq, Eq)]
pub struct PortableGaggee {
    /// The consent that the subject has given.
    pub trusts: Option<GaggeeTrust>,
    /// The gags of the subject, by channel.
    pub gags: Option<HashMap<ChannelId, Gag>>,
    /// The length, in bytes, above which a message is left alone.
    pub max_msg_length: Option<usize>,
    /// The safewords of the subject.
    pub safewords: Option<Safewords>,
    /// The defaults for gags applied to the subject.
    pub gag_defaults: Option<GagDefaults>,
}

/// A [`PortableGaggee`] as mathematical values.
pub ghost struct PortableGaggeeView {
    pub trusts: Option<GaggeeTrustView>,
    pub gags: Option<Map<ChannelId, Gag>>,
    pub max_msg_length: Option<usize>,
    pub safewords: Option<SafewordsView>,
    pub gag_defaults: Option<GagDefaultsView>,
}

impl PortableGaggeeView {
    /// Every part absent.
    pub open spec fn spec_default() -> PortableGaggeeView {
        PortableGaggeeView {
            trusts: None,
            gags: None,
            max_msg_length: None,
            safewords: None,
            gag_defaults: None,
        }
    }
}

impl View for PortableGaggee {
    type V = PortableGaggeeView;

    open spec fn view(&self) -> PortableGaggeeView {
        PortableGaggeeView {
            trusts: match self.trusts {
                Some(trusts) => Some(trusts@),
                None => None,
            },
            gags: match self.gags {
                Some(gags) => Some(gags@),
                None => None,
            },
            max_msg_length: self.max_msg_length,
            safewords: match self.safewords {
                Some(safewords) => Some(safewords@),
                None => None,
            },
            gag_defaults: match self.gag_defaults {
                Some(gag_defaults) => Some(gag_defaults@),
                None => None,
            },
        }
    }
}

impl Default for PortableGaggee {
    /// Every part absent.
    fn default() -> (r: Self)
        ensures
            r@ == PortableGaggeeView::spec_default(),
    {
        PortableGaggee {
            trusts: None,
            gags: None,
            max_msg_length: None,
            safewords: None,
            gag_defaults: None,
        }
    }
}

} // verus!
