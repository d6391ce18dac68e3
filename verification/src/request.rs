//! What is sent to a provider, and what the session hands out when a
//! request is to be started.

use vstd::prelude::*;

use crate::config::{Provider, ProviderSettings};
use crate::diff::DiffSet;

verus! {

/// The text of one request: the instructions and the diffs they speak of.
#[derive(Clone, Debug, PartialEq, Eq, Default)]
pub struct Request {
    pub prompt: String,
    pub diffs: String,
}

/// Everything a request is built from, taken at the moment it is started:
/// the provider, its settings and the files as they then were. Later
/// changes to the session do not reach it.
#[derive(Clone, Debug, PartialEq, Eq)]
pub struct Dispatch {
    pub provider: Provider,
    pub provider_cfg: ProviderSettings,
    pub gai: DiffSet,
}

} // verus!
