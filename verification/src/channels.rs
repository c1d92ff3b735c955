//! Channels, their threads and the posts of a thread.

use vstd::prelude::*;
use crate::ids::{uuid_text, uuid_to_string, Timestamp};
use crate::schema::{channel_schema, make_channel_schema, CreateSchema};

verus! {

/// A channel of a chat platform.
#[derive(Debug)]
pub struct Channel {
    pub id: u128,
    pub name: String,
    pub description: String,
    pub created_at: Timestamp,
}

impl Clone for Channel {
    fn clone(&self) -> (r: Self)
        ensures
            r == *self,
    {
        Channel {
            id: self.id,
            name: self.name.clone(),
            description: self.description.clone(),
            created_at: self.created_at,
        }
    }
}

/// A thread of a channel.
#[derive(Debug)]
pub struct Thread {
    pub id: u128,
    pub channel_id: u128,
    pub title: String,
    pub author: String,
    pub created_at: Timestamp,
}

impl Clone for Thread {
    fn clone(&self) -> (r: Self)
        ensures
            r == *self,
    {
        Thread {
            id: self.id,
            channel_id: self.channel_id,
            title: self.title.clone(),
            author: self.author.clone(),
            created_at: self.created_at,
        }
    }
}

/// A post in a thread.
#[derive(Debug)]
pub struct Post {
    pub id: u128,
    pub thread_id: u128,
    pub author: String,
    pub content: String,
    pub created_at: Timestamp,
}

impl Clone for Post {
    fn clone(&self) -> (r: Self)
        ensures
            r == *self,
    {
        Post {
            id: self.id,
            thread_id: self.thread_id,
            author: self.author.clone(),
            content: self.content.clone(),
            created_at: self.created_at,
        }
    }
}

/// Why a channel operation failed.
#[derive(Debug)]
pub enum ChannelError {
    /// No channel or thread has this identifier.
    NotFound(u128),
    /// The platform behind the store failed; the text says how.
    Internal(String),
}

impl ChannelError {
    /// The text of the error: `channel not found: <id>`, or the platform's
    /// own message.
    pub open spec fn text(self) -> Seq<char> {
        match self {
            ChannelError::NotFound(id) => "channel not found: "@ + uuid_text(id),
            ChannelError::Internal(m) => m@,
        }
    }

    /// The text of the error, as the API answers it.
    pub fn message(&self) -> (r: String)
        ensures
            r@ == self.text(),
    {
        match self {
            ChannelError::NotFound(id) => {
                let id_text = uuid_to_string(*id);
                "channel not found: ".to_owned().concat(id_text.as_str())
            },
            ChannelError::Internal(m) => m.clone(),
        }
    }
}

/// A store of channels, threads and posts on some platform.
pub trait ChannelStore {
    /// What creating a channel takes: a name and a description.
    fn create_channel_schema(&self) -> (s: CreateSchema)
        ensures
            s@ == channel_schema(),
    {
        make_channel_schema()
    }
}

/// The Slack channel adapter. Only the schema is available yet.
pub struct SlackChannelStore;

impl ChannelStore for SlackChannelStore {}

/// The Discord channel adapter. Only the schema is available yet.
pub struct DiscordChannelStore;

impl ChannelStore for DiscordChannelStore {}

} // verus!
