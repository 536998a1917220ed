use virtio_host::fs_config::{
    default_tag, FsConfig, FsConfigError, DEFAULT_FS_TAG, FS_TAG_MAX_LEN,
};
use virtio_host::fs_request::{parse_put_fs, RequestError, StatusCode, ID_MISMATCH};

/// Reads a configuration out of a JSON object.
fn parse(body: &str) -> Result<FsConfig, serde_json::Error> {
    let value: serde_json::Value = serde_json::from_str(body)?;
    let text = |name: &str| value[name].as_str().map(|s| s.to_string());
    Ok(FsConfig {
        fs_id: text("fs_id").unwrap(),
        socket_path: text("socket_path").unwrap(),
        tag: text("tag").unwrap_or_else(default_tag),
    })
}

fn put(body: &str, id: Option<&str>) -> Result<FsConfig, RequestError<()>> {
    parse_put_fs(parse(body), id.map(Ok))
}

#[test]
fn test_parse_put_fs() {
    let body = r#"{"fs_id":"root","socket_path":"/run/virtiofsd.sock","tag":"sandboxfs"}"#;
    put(body, Some("root")).unwrap();
    put(body, Some("other")).unwrap_err();
    put(body, None).unwrap_err();
}

#[test]
fn test_reject_invalid_tag_without_truncating() {
    let body = r#"{"fs_id":"root","socket_path":"/run/virtiofsd.sock","tag":"1234567890123456789012345678901234567"}"#;
    put(body, Some("root")).unwrap_err();
}

#[test]
fn rejections_name_their_reason() {
    let body = r#"{"fs_id":"root","socket_path":"/run/virtiofsd.sock"}"#;
    assert!(matches!(put(body, None), Err(RequestError::EmptyID)));
    assert!(matches!(
        parse_put_fs(parse(body), Some(Err(5u8))),
        Err(RequestError::InvalidID(5))
    ));
    assert!(matches!(
        put("{", Some("root")),
        Err(RequestError::SerdeJson(_))
    ));
    match put(body, Some("other")) {
        Err(RequestError::Generic(StatusCode::BadRequest, text)) => {
            assert_eq!(
                text,
                "The id from the path does not match the id from the body!"
            );
            assert_eq!(text, ID_MISMATCH);
        }
        other => panic!("{other:?}"),
    }
    match put(r#"{"fs_id":"root","socket_path":""}"#, Some("root")) {
        Err(RequestError::Generic(StatusCode::BadRequest, text)) => {
            assert_eq!(text, "The virtio-fs socket path cannot be empty.")
        }
        other => panic!("{other:?}"),
    }
    match put(
        r#"{"fs_id":"root","socket_path":"/s","tag":""}"#,
        Some("root"),
    ) {
        Err(RequestError::Generic(StatusCode::BadRequest, text)) => assert_eq!(
            text,
            "The virtio-fs tag must contain between 1 and 36 non-NUL bytes."
        ),
        other => panic!("{other:?}"),
    }
    let config = put(body, Some("root")).unwrap();
    assert_eq!(config.fs_id, "root");
    assert_eq!(config.socket_path, "/run/virtiofsd.sock");
    assert_eq!(config.tag, "sandboxfs");
}

fn config(tag: &str) -> FsConfig {
    FsConfig {
        fs_id: "root".to_string(),
        socket_path: "/run/virtiofsd.sock".to_string(),
        tag: tag.to_string(),
    }
}

#[test]
fn test_validate_tag_and_socket() {
    config(DEFAULT_FS_TAG).validate().unwrap();
    config(&"x".repeat(FS_TAG_MAX_LEN)).validate().unwrap();
    assert!(matches!(
        config(&"x".repeat(FS_TAG_MAX_LEN + 1)).validate(),
        Err(FsConfigError::InvalidTag)
    ));
    assert!(matches!(
        config("bad\0tag").validate(),
        Err(FsConfigError::InvalidTag)
    ));
    let mut cfg = config(DEFAULT_FS_TAG);
    cfg.socket_path.clear();
    assert!(matches!(
        cfg.validate(),
        Err(FsConfigError::EmptySocketPath)
    ));
}

#[test]
fn tags_are_measured_in_bytes() {
    // Eighteen letters of two bytes each.
    config(&"é".repeat(18)).validate().unwrap();
    assert!(matches!(
        config(&"é".repeat(19)).validate(),
        Err(FsConfigError::InvalidTag)
    ));
    assert!(matches!(
        config("").validate(),
        Err(FsConfigError::InvalidTag)
    ));
    assert_eq!(default_tag(), DEFAULT_FS_TAG);
}

#[test]
fn a_second_device_is_named_in_the_message() {
    assert_eq!(
        FsConfigError::DeviceAlreadyExists("root".to_string()).message(),
        "Only one virtio-fs device is supported; already configured as `root`."
    );
    let copy = config("tag").clone();
    assert_eq!(copy, config("tag"));
}
