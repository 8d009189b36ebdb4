//! Client SDK for a game-statistics web service: cookie/session handling,
//! regional request routing, dynamic signing headers, and typed response
//! envelopes. The library builds complete request descriptions and types the
//! responses; performing the HTTP exchange is left to the embedding
//! application.

pub mod accounts;
pub mod chronicle;
pub mod client;
pub mod cookies;
pub mod ds;
pub mod entries;
pub mod envelope;
pub mod errors;
pub mod kwargs;
pub mod models;
pub mod request;
pub mod routes;
pub mod starrail;
pub mod text;
pub mod types;
pub mod uid;

pub use client::Client;
pub use types::Game;
pub use types::Region;
