//! Creation schemas: which fields a client sends to create a resource.

use vstd::prelude::*;

verus! {

/// The fields that creating a resource takes: the required ones and the
/// optional ones, by name.
#[derive(Debug)]
pub struct CreateSchema {
    pub resource: String,
    pub required: Vec<String>,
    pub optional: Vec<String>,
}

/// A schema as plain values.
pub struct CreateSchemaView {
    pub resource: Seq<char>,
    pub required: Seq<Seq<char>>,
    pub optional: Seq<Seq<char>>,
}

/// The characters of each string of a list.
pub open spec fn string_views(v: Seq<String>) -> Seq<Seq<char>> {
    v.map_values(|s: String| s@)
}

impl View for CreateSchema {
    type V = CreateSchemaView;

    open spec fn view(&self) -> CreateSchemaView {
        CreateSchemaView {
            resource: self.resource@,
            required: string_views(self.required@),
            optional: string_views(self.optional@),
        }
    }
}

/// Creating a channel takes a name and a description.
pub open spec fn channel_schema() -> CreateSchemaView {
    CreateSchemaView {
        resource: "channels"@,
        required: seq!["name"@, "description"@],
        optional: Seq::empty(),
    }
}

/// Creating an issue takes a title and a description.
pub open spec fn issue_schema() -> CreateSchemaView {
    CreateSchemaView {
        resource: "issues"@,
        required: seq!["title"@, "description"@],
        optional: Seq::empty(),
    }
}

/// Creating an artifact takes its name, version, source type, source location
/// and content type.
pub open spec fn artifact_schema() -> CreateSchemaView {
    CreateSchemaView {
        resource: "artifacts"@,
        required: seq![
            "name"@,
            "version"@,
            "source_type"@,
            "source_location"@,
            "content_type"@,
        ],
        optional: Seq::empty(),
    }
}

/// Appends a copy of `s` to a list of strings.
fn push_str(v: &mut Vec<String>, s: &str)
    ensures
        final(v)@.len() == old(v)@.len() + 1,
        string_views(final(v)@) == string_views(old(v)@).push(s@),
{
    v.push(s.to_owned());
    proof {
        assert(string_views(v@) =~= string_views(old(v)@).push(s@));
    }
}

/// The schema of channels.
pub(crate) fn make_channel_schema() -> (s: CreateSchema)
    ensures
        s@ == channel_schema(),
{
    let mut required: Vec<String> = Vec::new();
    push_str(&mut required, "name");
    push_str(&mut required, "description");
    let optional: Vec<String> = Vec::new();
    let s = CreateSchema { resource: "channels".to_owned(), required, optional };
    assert(s@.optional =~= Seq::<Seq<char>>::empty());
    assert(s@.required =~= seq!["name"@, "description"@]);
    s
}

/// The schema of issues.
pub(crate) fn make_issue_schema() -> (s: CreateSchema)
    ensures
        s@ == issue_schema(),
{
    let mut required: Vec<String> = Vec::new();
    push_str(&mut required, "title");
    push_str(&mut required, "description");
    let optional: Vec<String> = Vec::new();
    let s = CreateSchema { resource: "issues".to_owned(), required, optional };
    assert(s@.optional =~= Seq::<Seq<char>>::empty());
    assert(s@.required =~= seq!["title"@, "description"@]);
    s
}

/// The schema of artifacts.
pub(crate) fn make_artifact_schema() -> (s: CreateSchema)
    ensures
        s@ == artifact_schema(),
{
    let mut required: Vec<String> = Vec::new();
    push_str(&mut required, "name");
    push_str(&mut required, "version");
    push_str(&mut required, "source_type");
    push_str(&mut required, "source_location");
    push_str(&mut required, "content_type");
    let optional: Vec<String> = Vec::new();
    let s = CreateSchema { resource: "artifacts".to_owned(), required, optional };
    assert(s@.optional =~= Seq::<Seq<char>>::empty());
    assert(s@.required =~= seq![
        "name"@,
        "version"@,
        "source_type"@,
        "source_location"@,
        "content_type"@,
    ]);
    s
}

} // verus!
