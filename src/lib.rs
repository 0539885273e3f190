//! Brute-force search for a guild whose experiment bucket falls in a target
//! range, plus the request table of the chat API that the search drives.
pub mod api;
pub mod bucket;
pub mod cli;
pub mod laws;
pub mod search;
