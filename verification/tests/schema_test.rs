use switchboard::{
    ArtifactStore, ChannelStore, DiscordChannelStore, GithubIssueStore, InMemoryIssueStore,
    IssueStore, KlondikeChannelStore, KlondikeIssueStore, SharepointArtifactStore,
    SlackChannelStore,
};

#[test]
fn lib_test_create_channel_schema() {
    let store = KlondikeChannelStore::new("http://localhost:3000");
    let schema = store.create_channel_schema();
    assert_eq!(schema.resource, "channels");
    assert_eq!(schema.required, vec!["name", "description"]);
    assert!(schema.optional.is_empty());
}

#[test]
fn test_create_channel_schema() {
    let schema = SlackChannelStore.create_channel_schema();
    assert_eq!(schema.resource, "channels");
    assert_eq!(schema.required, vec!["name", "description"]);
    assert!(schema.optional.is_empty());
}

#[test]
fn test_create_artifact_schema() {
    let schema = SharepointArtifactStore.create_artifact_schema();
    assert_eq!(schema.resource, "artifacts");
    assert_eq!(
        schema.required,
        vec!["name", "version", "source_type", "source_location", "content_type"]
    );
    assert!(schema.optional.is_empty());
}

#[test]
fn discord_channel_schema() {
    let schema = DiscordChannelStore.create_channel_schema();
    assert_eq!(schema.resource, "channels");
    assert_eq!(schema.required, vec!["name", "description"]);
    assert!(schema.optional.is_empty());
}

#[test]
fn issue_schema_takes_title_and_description() {
    for schema in [
        GithubIssueStore.create_issue_schema(),
        KlondikeIssueStore::new("http://k").create_issue_schema(),
        InMemoryIssueStore::new().create_issue_schema(),
    ] {
        assert_eq!(schema.resource, "issues");
        assert_eq!(schema.required, vec!["title", "description"]);
        assert!(schema.optional.is_empty());
    }
}
