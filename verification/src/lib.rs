//! Switchboard: one API over channels, issues and artifacts, whatever
//! platform adapter stands behind it.
//!
//! The crate holds the domain types, the creation schemas of each resource,
//! the requests that the Klondike adapters send, an in-memory store for each
//! resource kind and the configuration rules of the command-line tool.
//! Network, terminal and file work stays with the caller.

pub mod ids;
pub mod json;
pub mod schema;
pub mod channels;
pub mod issues;
pub mod artifacts;
pub mod memory;
pub mod klondike;
pub mod config;

pub use ids::Timestamp;
pub use schema::CreateSchema;
pub use channels::{
    Channel, ChannelError, ChannelStore, DiscordChannelStore, Post, SlackChannelStore, Thread,
};
pub use issues::{GithubIssueStore, Issue, IssueError, IssueEvent, IssueStore};
pub use artifacts::{Artifact, ArtifactError, ArtifactStore, SharepointArtifactStore};
pub use memory::{InMemoryArtifactStore, InMemoryChannelStore, InMemoryIssueStore};
pub use klondike::{
    HttpMethod, HttpRequest, KlondikeArtifactStore, KlondikeChannelStore, KlondikeIssueStore,
};
pub use config::SwitchboardConfig;
