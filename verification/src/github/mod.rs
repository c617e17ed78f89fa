//! The hosting service: the shape of its answers and what is read from them.

pub mod client;
pub mod graphql;
pub mod resolve;

pub use client::{Client, PullRequest};
