//! Resolves an unordered pair of emoji tokens to the address of the picture
//! that combines them.
//!
//! The crate holds the cache of combinations, the rule by which a pair is
//! looked up whatever the order of its tokens, the steps of a refresh of
//! that cache from a published document, and the guard that lets only one
//! refresh run at a time. Fetching, writing to disk and serving requests
//! are left to the program that uses the crate.

pub mod document;
pub mod guard;
pub mod index;
pub mod json;
pub mod pair_key;
pub mod record;
pub mod refresh;
pub mod reply;
pub mod resolve;
pub mod store;
pub mod text;
