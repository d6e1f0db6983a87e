//! A randomising proxy in front of a public directory of search instances:
//! the directory filter, the time-limited candidate cache, the random choice
//! of an instance, the rewriting of its result pages, and the step function
//! that composes them for one search request.
pub mod cache;
pub mod filter;
pub mod manager;
pub mod release;
pub mod rewrite;
pub mod search;
pub mod search_helpers;
