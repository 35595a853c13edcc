//! Verified core of a media tracker: the rules by which a progress report
//! becomes a change to a user's consumption history, the roll-up of finished
//! records into per-user statistics, and the bookkeeping of collections.

pub mod clock;
pub mod error;
pub mod media;
pub mod seen;
pub mod progress;
pub mod distinct;
pub mod summary;
pub mod collection;
pub mod review;
pub mod background;
pub mod lookup;
pub mod service;
pub mod laws;
pub mod search;
pub mod resolver;
pub mod links;
pub mod order;
pub mod custom;
pub mod users;
pub mod export;
pub mod providers;
pub mod exercise;
