//! The per-game chronicle clients. Each supported title owns one transport
//! core; only the StarRail client has endpoint logic so far, the other two
//! are placeholders awaiting their endpoints.

use vstd::prelude::*;
use crate::request::InnerClient;
use crate::request::is_default_client;
use crate::starrail::StarRailClient;

verus! {

/// Wraps one per-game client.
pub struct Chronicle<T>(pub T);

/// The chronicle client of the Genshin title; its endpoints are not wired
/// up yet.
pub struct GenshinClient(pub InnerClient);

/// The chronicle client of the Honkai title; its endpoints are not wired
/// up yet.
pub struct HonkaiClient(pub InnerClient);

impl Chronicle<GenshinClient> {
    /// A chronicle around a freshly built client.
    pub fn new() -> (r: Self)
        ensures
            is_default_client(r.0.0),
    {
        Chronicle(GenshinClient(InnerClient::default()))
    }
}

impl Chronicle<HonkaiClient> {
    /// A chronicle around a freshly built client.
    pub fn new() -> (r: Self)
        ensures
            is_default_client(r.0.0),
    {
        Chronicle(HonkaiClient(InnerClient::default()))
    }
}

impl Chronicle<StarRailClient> {
    /// A chronicle around a freshly built client.
    pub fn new() -> (r: Self)
        ensures
            is_default_client(r.0.0),
    {
        Chronicle(StarRailClient(InnerClient::default()))
    }
}

} // verus!
