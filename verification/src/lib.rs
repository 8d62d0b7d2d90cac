//! Session-authenticated aggregation of a user's saved tracks: the OAuth
//! callback rules, and the join of saved tracks with artist genres and audio
//! features into one report.

pub mod aggregation;
pub mod auth;
pub mod boundary;
pub mod ids;
pub mod join;
pub mod model;
