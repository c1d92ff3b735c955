//! Artifacts: versioned documents held by some platform.

use vstd::prelude::*;
use crate::ids::{uuid_text, uuid_to_string, Timestamp};
use crate::schema::{artifact_schema, make_artifact_schema, CreateSchema};

verus! {

/// A version of a document and where it comes from.
#[derive(Debug)]
pub struct Artifact {
    pub id: u128,
    pub name: String,
    pub version: String,
    pub source_type: String,
    pub source_location: String,
    pub content_type: String,
    pub created_at: Timestamp,
}

impl Clone for Artifact {
    fn clone(&self) -> (r: Self)
        ensures
            r == *self,
    {
        Artifact {
            id: self.id,
            name: self.name.clone(),
            version: self.version.clone(),
            source_type: self.source_type.clone(),
            source_location: self.source_location.clone(),
            content_type: self.content_type.clone(),
            created_at: self.created_at,
        }
    }
}

/// Why an artifact operation failed.
#[derive(Debug)]
pub enum ArtifactError {
    /// No artifact has this identifier.
    NotFound(u128),
    /// The platform behind the store failed; the text says how.
    Internal(String),
}

impl ArtifactError {
    /// The text of the error: `artifact not found: <id>`, or the platform's
    /// own message.
    pub open spec fn text(self) -> Seq<char> {
        match self {
            ArtifactError::NotFound(id) => "artifact not found: "@ + uuid_text(id),
            ArtifactError::Internal(m) => m@,
        }
    }

    /// The text of the error, as the API answers it.
    pub fn message(&self) -> (r: String)
        ensures
            r@ == self.text(),
    {
        match self {
            ArtifactError::NotFound(id) => {
                let id_text = uuid_to_string(*id);
                "artifact not found: ".to_owned().concat(id_text.as_str())
            },
            ArtifactError::Internal(m) => m.clone(),
        }
    }
}

/// A store of artifacts on some platform.
pub trait ArtifactStore {
    /// What creating an artifact takes: name, version, source type, source
    /// location and content type.
    fn create_artifact_schema(&self) -> (s: CreateSchema)
        ensures
            s@ == artifact_schema(),
    {
        make_artifact_schema()
    }
}

/// The SharePoint artifact adapter. Only the schema is available yet.
pub struct SharepointArtifactStore;

impl ArtifactStore for SharepointArtifactStore {}

} // verus!
