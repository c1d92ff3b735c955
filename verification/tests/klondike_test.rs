use switchboard::{
    HttpMethod, KlondikeArtifactStore, KlondikeChannelStore, KlondikeIssueStore,
};

const ID: u128 = 0x67e5_5044_10b1_426f_9247_bb68_0e5f_e0c8;
const ID_TEXT: &str = "67e55044-10b1-426f-9247-bb680e5fe0c8";

#[test]
fn base_url_loses_trailing_slashes() {
    let store = KlondikeChannelStore::new("http://klondike:3000///");
    let req = store.list_channels_request();
    assert_eq!(req.method, HttpMethod::Get);
    assert_eq!(req.url, "http://klondike:3000/api/v1/channels");
    assert!(req.body.is_none());

    let plain = KlondikeChannelStore::new("http://klondike:3000");
    assert_eq!(plain.list_channels_request().url, req.url);

    let only_slashes = KlondikeIssueStore::new("//");
    assert_eq!(only_slashes.list_issues_request().url, "/api/v1/issues");

    let inner_slash = KlondikeArtifactStore::new("http://k/base/");
    assert_eq!(inner_slash.list_artifacts_request().url, "http://k/base/api/v1/artifacts");
}

#[test]
fn channel_requests() {
    let store = KlondikeChannelStore::new("http://k");

    let get = store.get_channel_request(ID);
    assert_eq!(get.method, HttpMethod::Get);
    assert_eq!(get.url, format!("http://k/api/v1/channels/{ID_TEXT}"));
    assert!(get.body.is_none());

    let create = store.create_channel_request("general", "General chat");
    assert_eq!(create.method, HttpMethod::Post);
    assert_eq!(create.url, "http://k/api/v1/channels");
    assert_eq!(
        create.body.as_deref(),
        Some(r#"{"description":"General chat","name":"general"}"#)
    );

    let threads = store.list_threads_request(ID);
    assert_eq!(threads.method, HttpMethod::Get);
    assert_eq!(threads.url, format!("http://k/api/v1/channels/{ID_TEXT}/threads"));

    let thread = store.create_thread_request(ID, "Topic", "alice");
    assert_eq!(thread.method, HttpMethod::Post);
    assert_eq!(thread.url, format!("http://k/api/v1/channels/{ID_TEXT}/threads"));
    assert_eq!(thread.body.as_deref(), Some(r#"{"author":"alice","title":"Topic"}"#));

    let get_thread = store.get_thread_request(ID);
    assert_eq!(get_thread.url, format!("http://k/api/v1/threads/{ID_TEXT}"));

    let posts = store.list_posts_request(ID);
    assert_eq!(posts.method, HttpMethod::Get);
    assert_eq!(posts.url, format!("http://k/api/v1/threads/{ID_TEXT}/posts"));

    let post = store.create_post_request(ID, "bob", "Hello!");
    assert_eq!(post.method, HttpMethod::Post);
    assert_eq!(post.url, format!("http://k/api/v1/threads/{ID_TEXT}/posts"));
    assert_eq!(post.body.as_deref(), Some(r#"{"author":"bob","content":"Hello!"}"#));
}

#[test]
fn bodies_escape_strings_as_json() {
    let store = KlondikeChannelStore::new("http://k");
    let req = store.create_channel_request("say \"hi\"\\", "line\nbreak\ttab\u{1}é");
    assert_eq!(
        req.body.as_deref(),
        Some(r#"{"description":"line\nbreak\ttab\u0001é","name":"say \"hi\"\\"}"#)
    );
    let parsed: serde_json::Value = serde_json::from_str(req.body.as_deref().unwrap()).unwrap();
    assert_eq!(parsed["name"], "say \"hi\"\\");
    assert_eq!(parsed["description"], "line\nbreak\ttab\u{1}é");
}

#[test]
fn issue_requests() {
    let store = KlondikeIssueStore::new("http://k/");

    let get = store.get_issue_request(ID);
    assert_eq!(get.method, HttpMethod::Get);
    assert_eq!(get.url, format!("http://k/api/v1/issues/{ID_TEXT}"));

    let create = store.create_issue_request("Bug", "Something broke");
    assert_eq!(create.method, HttpMethod::Post);
    assert_eq!(create.url, "http://k/api/v1/issues");
    assert_eq!(
        create.body.as_deref(),
        Some(r#"{"description":"Something broke","title":"Bug"}"#)
    );

    let no_note = store.update_issue_status_request(ID, "in_progress", &None);
    assert_eq!(no_note.method, HttpMethod::Put);
    assert_eq!(no_note.url, format!("http://k/api/v1/issues/{ID_TEXT}/status"));
    assert_eq!(no_note.body.as_deref(), Some(r#"{"note":null,"status":"in_progress"}"#));

    let with_note = store.update_issue_status_request(ID, "blocked", &Some("Dependency".to_string()));
    assert_eq!(
        with_note.body.as_deref(),
        Some(r#"{"note":"Dependency","status":"blocked"}"#)
    );

    let events = store.list_events_request(ID);
    assert_eq!(events.method, HttpMethod::Get);
    assert_eq!(events.url, format!("http://k/api/v1/issues/{ID_TEXT}/events"));
}

#[test]
fn artifact_requests() {
    let store = KlondikeArtifactStore::new("http://k");

    let get = store.get_artifact_request(ID);
    assert_eq!(get.method, HttpMethod::Get);
    assert_eq!(get.url, format!("http://k/api/v1/artifacts/{ID_TEXT}"));

    let create = store.create_artifact_request(
        "doc.pdf",
        "1",
        "upload",
        "/files/doc.pdf",
        "application/pdf",
    );
    assert_eq!(create.method, HttpMethod::Post);
    assert_eq!(create.url, "http://k/api/v1/artifacts");
    assert_eq!(
        create.body.as_deref(),
        Some(
            r#"{"content_type":"application/pdf","name":"doc.pdf","source_location":"/files/doc.pdf","source_type":"upload","version":"1"}"#
        )
    );
}

#[test]
fn artifact_versions_are_separate_writes() {
    let store = KlondikeArtifactStore::new("http://k");
    for v in 1..=3u32 {
        let version = v.to_string();
        let req = store.create_artifact_request(
            "report",
            &version,
            "upload",
            "/files/report",
            "text/plain",
        );
        let body: serde_json::Value = serde_json::from_str(req.body.as_deref().unwrap()).unwrap();
        assert_eq!(body["name"], "report");
        assert_eq!(body["version"], version.as_str());
        assert_eq!(body["source_type"], "upload");
        assert_eq!(body["source_location"], "/files/report");
        assert_eq!(body["content_type"], "text/plain");
    }
}
