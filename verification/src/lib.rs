//! Client-side authentication core: normalizes a backend's loosely-typed
//! JSON login response into a stable outcome, classifies failures into
//! user-facing messages, and builds the requests that a transport layer
//! sends on its behalf.

use vstd::prelude::*;

pub mod classify;
pub mod facade;
pub mod json;
pub mod normalize;
pub mod numfmt;
pub mod outcome;
pub mod request;

verus! {

/// The client-type marker this client sends so the backend returns the
/// flat token payload rather than the web-client response shape.
pub fn default_client_type() -> (r: String)
    ensures
        r@ == "desktop"@,
{
    String::from_str("desktop")
}

} // verus!
