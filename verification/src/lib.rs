//! Resolves a user's e-mail address to a square JPEG thumbnail taken from a
//! binary attribute of a directory entry, with a preloaded fallback image when
//! the directory holds no such attribute.
//!
//! The crate holds the decisions of that pipeline: which directory request
//! follows which reply, which value of an entry is used, how the picture is
//! cropped and sized, and how each outcome is answered. Network traffic is left
//! to the caller, who performs the requests that [`directory::advance`] asks
//! for and hands the replies back.

pub mod codec;
pub mod config;
pub mod counter;
pub mod directory;
pub mod metrics;
pub mod normalizer;
pub mod pipeline;
pub mod sizing;
