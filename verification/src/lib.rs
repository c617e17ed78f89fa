//! Release notes for the pull requests that a head branch holds and its base
//! branch lacks: the pull requests are recovered from a branch comparison,
//! grouped, and turned into the request that creates or updates the tracking
//! pull request.

pub mod cli;
pub mod doc;
pub mod github;
pub mod run;
pub mod text;
