//! Construction of signed transactions ("extrinsics") for an Avail-style chain:
//! resolution of nonce and mortality, the canonical signing payload, and the
//! final wire bytes.
use vstd::prelude::*;

pub mod codec;
pub mod laws;
pub mod mortality;
pub mod payload;
pub mod rpc;
pub mod session;
pub mod types;

verus! {

} // verus!
