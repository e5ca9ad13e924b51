//! A dataspace protocol connector core: message model, JSON-LD contexts, policy
//! negotiation and transfer checks, and the retry state of token acquisition.
pub mod text;
pub mod policy;
pub mod policy_engine;
pub mod json;
pub mod claims;
pub mod auth;
pub mod model;
pub mod connector;
pub mod reverse_proxy;
pub mod keygen;

use vstd::prelude::*;

verus! {
} // verus!
