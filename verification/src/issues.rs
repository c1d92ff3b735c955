//! Issues and the events of their status changes.

use vstd::prelude::*;
use crate::ids::{uuid_text, uuid_to_string, Timestamp};
use crate::schema::{issue_schema, make_issue_schema, CreateSchema};

verus! {

/// A copy of an optional string.
pub(crate) fn clone_opt_string(o: &Option<String>) -> (r: Option<String>)
    ensures
        r == *o,
{
    match o {
        Some(s) => Some(s.clone()),
        None => None,
    }
}

/// An issue of a tracker.
#[derive(Debug)]
pub struct Issue {
    pub id: u128,
    pub title: String,
    pub description: String,
    pub status: String,
    pub assignee: Option<String>,
    pub created_at: Timestamp,
    pub updated_at: Timestamp,
}

impl Clone for Issue {
    fn clone(&self) -> (r: Self)
        ensures
            r == *self,
    {
        Issue {
            id: self.id,
            title: self.title.clone(),
            description: self.description.clone(),
            status: self.status.clone(),
            assignee: clone_opt_string(&self.assignee),
            created_at: self.created_at,
            updated_at: self.updated_at,
        }
    }
}

/// One change of an issue's status.
#[derive(Debug)]
pub struct IssueEvent {
    pub id: u128,
    pub issue_id: u128,
    pub from_status: String,
    pub to_status: String,
    pub note: Option<String>,
    pub timestamp: Timestamp,
}

impl Clone for IssueEvent {
    fn clone(&self) -> (r: Self)
        ensures
            r == *self,
    {
        IssueEvent {
            id: self.id,
            issue_id: self.issue_id,
            from_status: self.from_status.clone(),
            to_status: self.to_status.clone(),
            note: clone_opt_string(&self.note),
            timestamp: self.timestamp,
        }
    }
}

/// Why an issue operation failed.
#[derive(Debug)]
pub enum IssueError {
    /// No issue has this identifier.
    NotFound(u128),
    /// The platform behind the store failed; the text says how.
    Internal(String),
}

impl IssueError {
    /// The text of the error: `issue not found: <id>`, or the platform's own
    /// message.
    pub open spec fn text(self) -> Seq<char> {
        match self {
            IssueError::NotFound(id) => "issue not found: "@ + uuid_text(id),
            IssueError::Internal(m) => m@,
        }
    }

    /// The text of the error, as the API answers it.
    pub fn message(&self) -> (r: String)
        ensures
            r@ == self.text(),
    {
        match self {
            IssueError::NotFound(id) => {
                let id_text = uuid_to_string(*id);
                "issue not found: ".to_owned().concat(id_text.as_str())
            },
            IssueError::Internal(m) => m.clone(),
        }
    }
}

/// A store of issues on some tracker.
pub trait IssueStore {
    /// What creating an issue takes: a title and a description.
    fn create_issue_schema(&self) -> (s: CreateSchema)
        ensures
            s@ == issue_schema(),
    {
        make_issue_schema()
    }
}

/// The GitHub issue adapter. Only the schema is available yet.
pub struct GithubIssueStore;

impl IssueStore for GithubIssueStore {}

} // verus!
