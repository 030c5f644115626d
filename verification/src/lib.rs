//! A podcast-subscription backend.
//!
//! Users register, log in, and subscribe to podcasts that are known by the
//! URL of their RSS feed. The first time a feed URL is seen, the feed is
//! fetched, its channel's title and description are read, and the podcast is
//! filed under the URL.
//!
//! - `records`: users, podcast channels and errors.
//! - `model`: what a store and a session hold, as mathematical values, and
//!   what each operation makes of them.
//! - `store`: the storage contract `DB` and the store in memory.
//! - `feed`: reading a channel out of an RSS document.
//! - `resolver`: from a feed URL to the podcast's record.
//! - `session`: login, and the subscription of the logged-in user.
//! - `status`: the HTTP status code of each outcome.
//! - `uri`: the syntax check on feed URLs.
//! - `laws`: what holds across calls.
//!
//! The library does no input or output. Fetching a feed is the caller's
//! work: a request that needs a feed says so, and is finished with what the
//! fetch brought back.

pub mod feed;
pub mod laws;
pub mod model;
pub mod records;
pub mod resolver;
pub mod session;
pub mod status;
pub mod store;
pub mod uri;
