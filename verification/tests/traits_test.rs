use switchboard::{
    ArtifactError, ChannelError, InMemoryArtifactStore, InMemoryChannelStore, InMemoryIssueStore,
    IssueError,
};

fn random_id() -> u128 {
    uuid::Uuid::new_v4().as_u128()
}

// ===========================================================================
// Channel tests
// ===========================================================================

#[test]
fn channel_create_and_get() {
    let mut store = InMemoryChannelStore::new();
    let channel = store
        .create_channel("general".into(), "General chat".into())
        .unwrap();
    assert_eq!(channel.name, "general");
    assert_eq!(channel.description, "General chat");

    let fetched = store.get_channel(channel.id).unwrap();
    assert_eq!(fetched.id, channel.id);
    assert_eq!(fetched.name, "general");
}

#[test]
fn channel_list() {
    let mut store = InMemoryChannelStore::new();
    assert!(store.list_channels().unwrap().is_empty());

    store.create_channel("a".into(), "A".into()).unwrap();
    store.create_channel("b".into(), "B".into()).unwrap();
    assert_eq!(store.list_channels().unwrap().len(), 2);
}

#[test]
fn channel_not_found() {
    let store = InMemoryChannelStore::new();
    let result = store.get_channel(random_id());
    assert!(matches!(result, Err(ChannelError::NotFound(_))));
}

#[test]
fn thread_create_and_list() {
    let mut store = InMemoryChannelStore::new();
    let channel = store.create_channel("ch".into(), "desc".into()).unwrap();

    let thread = store
        .create_thread(channel.id, "Topic".into(), "alice".into())
        .unwrap();
    assert_eq!(thread.channel_id, channel.id);
    assert_eq!(thread.title, "Topic");
    assert_eq!(thread.author, "alice");

    let threads = store.list_threads(channel.id).unwrap();
    assert_eq!(threads.len(), 1);
    assert_eq!(threads[0].id, thread.id);
}

#[test]
fn traits_test_thread_get() {
    let mut store = InMemoryChannelStore::new();
    let channel = store.create_channel("ch".into(), "d".into()).unwrap();
    let thread = store
        .create_thread(channel.id, "T".into(), "bob".into())
        .unwrap();

    let fetched = store.get_thread(thread.id).unwrap();
    assert_eq!(fetched.id, thread.id);
    assert_eq!(fetched.title, "T");
}

#[test]
fn thread_not_found() {
    let store = InMemoryChannelStore::new();
    let result = store.get_thread(random_id());
    assert!(matches!(result, Err(ChannelError::NotFound(_))));
}

#[test]
fn post_create_and_list() {
    let mut store = InMemoryChannelStore::new();
    let channel = store.create_channel("ch".into(), "d".into()).unwrap();
    let thread = store
        .create_thread(channel.id, "T".into(), "alice".into())
        .unwrap();

    let post = store
        .create_post(thread.id, "bob".into(), "Hello!".into())
        .unwrap();
    assert_eq!(post.thread_id, thread.id);
    assert_eq!(post.author, "bob");
    assert_eq!(post.content, "Hello!");

    let posts = store.list_posts(thread.id).unwrap();
    assert_eq!(posts.len(), 1);
    assert_eq!(posts[0].id, post.id);
}

#[test]
fn posts_filtered_by_thread() {
    let mut store = InMemoryChannelStore::new();
    let ch = store.create_channel("ch".into(), "d".into()).unwrap();
    let t1 = store.create_thread(ch.id, "T1".into(), "a".into()).unwrap();
    let t2 = store.create_thread(ch.id, "T2".into(), "b".into()).unwrap();

    store.create_post(t1.id, "x".into(), "msg1".into()).unwrap();
    store.create_post(t2.id, "y".into(), "msg2".into()).unwrap();

    assert_eq!(store.list_posts(t1.id).unwrap().len(), 1);
    assert_eq!(store.list_posts(t2.id).unwrap().len(), 1);
}

// ===========================================================================
// Issue tests
// ===========================================================================

#[test]
fn issue_create_and_get() {
    let mut store = InMemoryIssueStore::new();
    let issue = store
        .create_issue("Bug".into(), "Something broke".into())
        .unwrap();
    assert_eq!(issue.title, "Bug");
    assert_eq!(issue.status, "backlog");
    assert!(issue.assignee.is_none());

    let fetched = store.get_issue(issue.id).unwrap();
    assert_eq!(fetched.id, issue.id);
}

#[test]
fn issue_list() {
    let mut store = InMemoryIssueStore::new();
    assert!(store.list_issues().unwrap().is_empty());

    store.create_issue("A".into(), "a".into()).unwrap();
    store.create_issue("B".into(), "b".into()).unwrap();
    assert_eq!(store.list_issues().unwrap().len(), 2);
}

#[test]
fn issue_not_found() {
    let store = InMemoryIssueStore::new();
    let result = store.get_issue(random_id());
    assert!(matches!(result, Err(IssueError::NotFound(_))));
}

#[test]
fn issue_status_transitions() {
    let mut store = InMemoryIssueStore::new();
    let issue = store
        .create_issue("Task".into(), "Do stuff".into())
        .unwrap();
    assert_eq!(issue.status, "backlog");

    let ev1 = store
        .update_issue_status(issue.id, "in_progress".into(), None)
        .unwrap();
    assert_eq!(ev1.from_status, "backlog");
    assert_eq!(ev1.to_status, "in_progress");

    let ev2 = store
        .update_issue_status(issue.id, "done".into(), Some("Finished".into()))
        .unwrap();
    assert_eq!(ev2.from_status, "in_progress");
    assert_eq!(ev2.to_status, "done");
    assert_eq!(ev2.note.as_deref(), Some("Finished"));

    let ev3 = store
        .update_issue_status(issue.id, "blocked".into(), Some("Dependency".into()))
        .unwrap();
    assert_eq!(ev3.from_status, "done");
    assert_eq!(ev3.to_status, "blocked");

    let updated = store.get_issue(issue.id).unwrap();
    assert_eq!(updated.status, "blocked");
}

#[test]
fn issue_update_not_found() {
    let mut store = InMemoryIssueStore::new();
    let result = store.update_issue_status(random_id(), "done".into(), None);
    assert!(matches!(result, Err(IssueError::NotFound(_))));
}

#[test]
fn issue_list_events() {
    let mut store = InMemoryIssueStore::new();
    let issue = store.create_issue("T".into(), "d".into()).unwrap();
    store
        .update_issue_status(issue.id, "in_progress".into(), None)
        .unwrap();
    store
        .update_issue_status(issue.id, "done".into(), None)
        .unwrap();

    let events = store.list_events(issue.id).unwrap();
    assert_eq!(events.len(), 2);
    assert_eq!(events[0].to_status, "in_progress");
    assert_eq!(events[1].to_status, "done");
}

#[test]
fn issue_events_filtered_by_issue() {
    let mut store = InMemoryIssueStore::new();
    let i1 = store.create_issue("A".into(), "a".into()).unwrap();
    let i2 = store.create_issue("B".into(), "b".into()).unwrap();

    store
        .update_issue_status(i1.id, "in_progress".into(), None)
        .unwrap();
    store
        .update_issue_status(i2.id, "done".into(), None)
        .unwrap();

    assert_eq!(store.list_events(i1.id).unwrap().len(), 1);
    assert_eq!(store.list_events(i2.id).unwrap().len(), 1);
}

// ===========================================================================
// Artifact tests
// ===========================================================================

#[test]
fn artifact_create_and_get() {
    let mut store = InMemoryArtifactStore::new();
    let artifact = store
        .create_artifact(
            "doc.pdf".into(),
            "1".into(),
            "upload".into(),
            "/files/doc.pdf".into(),
            "application/pdf".into(),
        )
        .unwrap();
    assert_eq!(artifact.name, "doc.pdf");
    assert_eq!(artifact.version, "1");
    assert_eq!(artifact.source_type, "upload");
    assert_eq!(artifact.content_type, "application/pdf");

    let fetched = store.get_artifact(artifact.id).unwrap();
    assert_eq!(fetched.id, artifact.id);
    assert_eq!(fetched.name, "doc.pdf");
}

#[test]
fn artifact_list() {
    let mut store = InMemoryArtifactStore::new();
    assert!(store.list_artifacts().unwrap().is_empty());

    store
        .create_artifact("a".into(), "1".into(), "s".into(), "l".into(), "c".into())
        .unwrap();
    store
        .create_artifact("b".into(), "1".into(), "s".into(), "l".into(), "c".into())
        .unwrap();
    assert_eq!(store.list_artifacts().unwrap().len(), 2);
}

#[test]
fn artifact_not_found() {
    let store = InMemoryArtifactStore::new();
    let result = store.get_artifact(random_id());
    assert!(matches!(result, Err(ArtifactError::NotFound(_))));
}

#[test]
fn artifact_versioning() {
    let mut store = InMemoryArtifactStore::new();
    let v1 = store
        .create_artifact("doc".into(), "1".into(), "s".into(), "l".into(), "c".into())
        .unwrap();
    let v2 = store
        .create_artifact("doc".into(), "2".into(), "s".into(), "l".into(), "c".into())
        .unwrap();
    let v3 = store
        .create_artifact("doc".into(), "3".into(), "s".into(), "l".into(), "c".into())
        .unwrap();

    assert_eq!(v1.version, "1");
    assert_eq!(v2.version, "2");
    assert_eq!(v3.version, "3");
    assert_ne!(v1.id, v2.id);
    assert_ne!(v2.id, v3.id);

    let all = store.list_artifacts().unwrap();
    assert_eq!(all.len(), 3);
    assert!(all.iter().all(|a| a.name == "doc"));
}
