use switchboard::{ArtifactError, ChannelError, InMemoryArtifactStore, IssueError};

const ID: u128 = 0x67e5_5044_10b1_426f_9247_bb68_0e5f_e0c8;

#[test]
fn not_found_messages_name_the_id() {
    assert_eq!(
        ChannelError::NotFound(ID).message(),
        "channel not found: 67e55044-10b1-426f-9247-bb680e5fe0c8"
    );
    assert_eq!(
        IssueError::NotFound(ID).message(),
        "issue not found: 67e55044-10b1-426f-9247-bb680e5fe0c8"
    );
    assert_eq!(
        ArtifactError::NotFound(0).message(),
        "artifact not found: 00000000-0000-0000-0000-000000000000"
    );
}

#[test]
fn internal_messages_pass_through() {
    assert_eq!(ChannelError::Internal("timed out".to_string()).message(), "timed out");
    assert_eq!(IssueError::Internal(String::new()).message(), "");
    assert_eq!(ArtifactError::Internal("bad json".to_string()).message(), "bad json");
}

#[test]
fn new_ids_are_version_four() {
    let mut store = InMemoryArtifactStore::new();
    let a = store
        .create_artifact("a".into(), "1".into(), "s".into(), "l".into(), "c".into())
        .unwrap();
    assert_eq!((a.id >> 76) & 0xf, 4);
    assert_eq!((a.id >> 62) & 0x3, 2);
    let text = uuid::Uuid::from_u128(a.id).to_string();
    assert_eq!(&text[14..15], "4");
}
