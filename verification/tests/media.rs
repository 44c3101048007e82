use matrix_feed::mxc::{is_valid_mxc, mxc_checked_parts, try_url, url};

#[test]
fn media_url_repeats_the_server_name() {
    let uri = "mxc://example.org/abc123".to_string();
    assert_eq!(url(&uri), "https://example.org/_matrix/media/v3/download/example.org/abc123");
    assert_eq!(
        try_url(&uri),
        Some("https://example.org/_matrix/media/v3/download/example.org/abc123".to_string())
    );
}

#[test]
fn media_url_with_port() {
    let uri = "mxc://matrix.example.org:8448/Media_ID-9".to_string();
    assert_eq!(
        url(&uri),
        "https://matrix.example.org:8448/_matrix/media/v3/download/matrix.example.org:8448/Media_ID-9"
    );
}

#[test]
fn parts_split_at_the_first_slash() {
    let uri = "mxc://n0g.rip/xyz".to_string();
    assert_eq!(mxc_checked_parts(&uri), Some(("n0g.rip".to_string(), "xyz".to_string())));
}

#[test]
fn wrong_scheme_is_rejected() {
    assert_eq!(try_url(&"https://example.org/abc".to_string()), None);
    assert!(!is_valid_mxc(&"mxc:/example.org/abc".to_string()));
}

#[test]
fn missing_media_id_slash_is_rejected() {
    assert_eq!(try_url(&"mxc://example.org".to_string()), None);
}

#[test]
fn malformed_media_id_is_rejected() {
    assert_eq!(try_url(&"mxc://example.org/a/b".to_string()), None);
    assert_eq!(try_url(&"mxc://example.org/a.b".to_string()), None);
}

#[test]
fn malformed_server_name_is_rejected() {
    assert_eq!(try_url(&"mxc://exa_mple.org/abc".to_string()), None);
    assert_eq!(try_url(&"mxc:///abc".to_string()), None);
}

#[test]
fn long_media_id_is_accepted() {
    let id = "a".repeat(300);
    let uri = format!("mxc://example.org/{}", id);
    assert!(is_valid_mxc(&uri));
    assert_eq!(
        try_url(&uri),
        Some(format!("https://example.org/_matrix/media/v3/download/example.org/{}", id))
    );
}

#[test]
fn server_name_within_reach() {
    let server = "a".repeat(249);
    let uri = format!("mxc://{}/x", server);
    assert_eq!(mxc_checked_parts(&uri), Some((server.clone(), "x".to_string())));
}

#[test]
fn server_name_beyond_reach_is_rejected() {
    let uri = format!("mxc://{}/x", "a".repeat(250));
    assert!(!is_valid_mxc(&uri));
    assert_eq!(try_url(&uri), None);
    let longer = format!("mxc://{}/x", "a".repeat(300));
    assert_eq!(try_url(&longer), None);
}
