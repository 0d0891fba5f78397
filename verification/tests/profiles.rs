use matrix_client::profile::{media_preview_url, JoinedRoom, UserProfile};

#[test]
fn media_preview_url_joins_server_and_media() {
    let url = media_preview_url("matrix.org", "mediaabc");
    assert_eq!(
        url,
        "https://matrix-client.matrix.org/_matrix/media/r0/thumbnail/matrix.org/mediaabc"
    );
}

#[test]
fn room_name_falls_back_to_room_id() {
    let room = JoinedRoom::from_parts(
        "!room:matrix.org".to_string(),
        None,
        false,
        None,
        None,
        None,
    );
    assert_eq!(room.name, "!room:matrix.org");
    assert!(room.avatar_media_url.is_none());

    let named = JoinedRoom::from_parts(
        "!room:matrix.org".to_string(),
        Some("General".to_string()),
        true,
        Some("mxc://matrix.org/mediaabc".to_string()),
        Some(("mediaabc".to_string(), "matrix.org".to_string())),
        Some("topic".to_string()),
    );
    assert_eq!(named.name, "General");
    assert!(named.is_space);
    assert_eq!(
        named.avatar_media_url.unwrap(),
        "https://matrix-client.matrix.org/_matrix/media/r0/thumbnail/matrix.org/mediaabc"
    );
}

#[test]
fn profile_display_name_falls_back_to_empty() {
    let profile = UserProfile::from_parts("@alice:matrix.org".to_string(), None, None, None);
    assert_eq!(profile.display_name, "");
    assert_eq!(profile.user_id, "@alice:matrix.org");

    let full = UserProfile::from_parts(
        "@alice:matrix.org".to_string(),
        Some("Alice".to_string()),
        Some("mxc://matrix.org/m1".to_string()),
        Some(("m1".to_string(), "matrix.org".to_string())),
    );
    assert_eq!(full.display_name, "Alice");
    assert_eq!(
        full.avatar_media_url.unwrap(),
        "https://matrix-client.matrix.org/_matrix/media/r0/thumbnail/matrix.org/m1"
    );
}
