use lilia_backend::files::file_info_from_parts;

#[test]
fn file_info_formats_timestamps() {
    let info = file_info_from_parts(
        "/p/x.lml".to_string(),
        "x.lml".to_string(),
        42,
        Some((0, 0)),
        None,
    );
    assert_eq!(info.path, "/p/x.lml");
    assert_eq!(info.name, "x.lml");
    assert_eq!(info.size, 42);
    assert_eq!(info.modified, Some("1970-01-01 00:00:00".to_string()));
    assert!(info.created.is_none());
}

#[test]
fn file_info_known_timestamp() {
    let info = file_info_from_parts(
        "/p".to_string(),
        "p".to_string(),
        0,
        Some((1_600_000_000, 500)),
        Some((946_684_800, 0)),
    );
    assert_eq!(info.modified, Some("2020-09-13 12:26:40".to_string()));
    assert_eq!(info.created, Some("2000-01-01 00:00:00".to_string()));
}
