use filemeta::dispatch::{run, MetaError, MetaErrorKind, Style};
use filemeta::record::{EntryType, RawMetadata};
use filemeta::resolve::{
    content_label, extract_data, format_time, from_unix_to_normal_time, inspect, owner_label,
    time_label,
};

fn sample_raw(is_dir: bool, is_symlink: bool) -> RawMetadata {
    RawMetadata {
        size: 127,
        blocks: 8,
        io_block: 4096,
        devices: 64768,
        inod: 393240,
        links: 1,
        uid: 0,
        gid: 0,
        is_dir,
        is_symlink,
        access: "Permissions(FilePermissions { mode: 0o100644 })".to_string(),
        accessed: Some(1704067200),
        modified: Some(1704153600),
        created: None,
        changed: 1704240000,
    }
}

#[test]
fn entry_type_follows_directory_bit() {
    let rec = extract_data(
        &sample_raw(true, false),
        "/tmp",
        None,
        None,
        None,
        None,
        None,
        None,
        None,
    );
    assert_eq!(rec.entry_type, EntryType::Dir);
    let rec = extract_data(
        &sample_raw(false, false),
        "/etc/hostname",
        None,
        None,
        None,
        None,
        None,
        None,
        None,
    );
    assert_eq!(rec.entry_type, EntryType::File);
}

#[test]
fn symlink_flag_is_independent_of_entry_type() {
    let rec = extract_data(
        &sample_raw(true, true),
        "/tmp",
        None,
        None,
        None,
        None,
        None,
        None,
        None,
    );
    assert_eq!(rec.entry_type, EntryType::Dir);
    assert!(rec.sympolic);
    let rec = extract_data(
        &sample_raw(false, true),
        "/x",
        None,
        None,
        None,
        None,
        None,
        None,
        None,
    );
    assert_eq!(rec.entry_type, EntryType::File);
    assert!(rec.sympolic);
}

#[test]
fn unresolved_enrichments_degrade_to_sentinels() {
    let rec = extract_data(
        &sample_raw(false, false),
        "/etc/hostname",
        None,
        None,
        None,
        None,
        None,
        None,
        None,
    );
    assert_eq!(rec.uid, "0");
    assert_eq!(rec.gid, "0");
    assert_eq!(rec.access_date, "Unavailable");
    assert_eq!(rec.modify_date, "Unavailable");
    assert_eq!(rec.change_data, "Unavailable");
    assert_eq!(rec.birth, "Unavailable");
    assert_eq!(rec.file_type, "unknown");
}

#[test]
fn resolved_enrichments_are_kept() {
    let rec = extract_data(
        &sample_raw(false, false),
        "/etc/hostname",
        Some("root".to_string()),
        Some("wheel".to_string()),
        Some("text/plain".to_string()),
        Some("2024-01-01 00:00:00".to_string()),
        Some("2024-01-02 00:00:00".to_string()),
        Some("2024-01-03 00:00:00".to_string()),
        Some("2024-01-04 00:00:00".to_string()),
    );
    assert_eq!(rec.uid, "root");
    assert_eq!(rec.gid, "wheel");
    assert_eq!(rec.file_type, "text/plain");
    assert_eq!(rec.access_date, "2024-01-01 00:00:00");
    assert_eq!(rec.modify_date, "2024-01-02 00:00:00");
    assert_eq!(rec.birth, "2024-01-03 00:00:00");
    assert_eq!(rec.change_data, "2024-01-04 00:00:00");
}

#[test]
fn owner_label_policy() {
    assert_eq!(owner_label(0, Some("root".to_string())), "root");
    assert_eq!(owner_label(4294967295, None), "4294967295");
}

#[test]
fn sentinel_labels() {
    assert_eq!(time_label(None), "Unavailable");
    assert_eq!(time_label(Some("x".to_string())), "x");
    assert_eq!(content_label(None), "unknown");
    assert_eq!(format_time(None), "Unavailable");
}

#[test]
fn unix_epoch_rendering_is_utc() {
    assert_eq!(from_unix_to_normal_time(0), "1970-01-01 00:00:00");
    assert_eq!(from_unix_to_normal_time(1431648000), "2015-05-15 00:00:00");
    assert_eq!(from_unix_to_normal_time(-1), "1969-12-31 23:59:59");
}

#[test]
fn unix_epoch_rendering_at_the_calendar_bounds() {
    assert_eq!(
        from_unix_to_normal_time(8210266876799),
        "+262142-12-31 23:59:59"
    );
    assert_eq!(
        from_unix_to_normal_time(-8334601228800),
        "-262143-01-01 00:00:00"
    );
    assert_eq!(from_unix_to_normal_time(8210266876800), "Unavailable");
    assert_eq!(from_unix_to_normal_time(-8334601228801), "Unavailable");
    assert_eq!(from_unix_to_normal_time(i64::MAX), "Unavailable");
    assert_eq!(from_unix_to_normal_time(i64::MIN), "Unavailable");
}

#[test]
fn local_rendering_range_and_shape() {
    assert_eq!(format_time(Some(i64::MAX)), "Unavailable");
    assert_eq!(format_time(Some(i64::MIN)), "Unavailable");
    let rendered = format_time(Some(0));
    assert_eq!(rendered.len(), 19);
    let bytes = rendered.as_bytes();
    assert_eq!(bytes[4], b'-');
    assert_eq!(bytes[7], b'-');
    assert_eq!(bytes[10], b' ');
    assert_eq!(bytes[13], b':');
    assert_eq!(bytes[16], b':');
}

#[test]
fn inspect_builds_a_full_record() {
    let raw = sample_raw(false, false);
    let rec = inspect(&raw, "/etc/hostname");
    assert_eq!(rec.name, "/etc/hostname");
    assert_eq!(rec.size, 127);
    assert_eq!(rec.blocks, 8);
    assert_eq!(rec.entry_type, EntryType::File);
    assert!(!rec.sympolic);
    assert_eq!(rec.change_data, "2024-01-03 00:00:00");
    assert_eq!(rec.birth, "Unavailable");
}

#[test]
fn dispatcher_renders_on_success() {
    let raw = sample_raw(false, false);
    let out = run("/etc/hostname", Ok(raw), Style::Normal).unwrap();
    assert!(out.starts_with("File Name: /etc/hostname\n"));
    assert!(out.contains("Size: 127 bytes"));
    let raw = sample_raw(false, false);
    let json = run("/etc/hostname", Ok(raw), Style::Json).unwrap();
    let value: serde_json::Value = serde_json::from_str(&json).unwrap();
    assert_eq!(
        value.as_object().unwrap().get("size").unwrap().as_u64().unwrap(),
        127
    );
}

#[test]
fn dispatcher_reports_failure_in_one_line() {
    let err = MetaError {
        kind: MetaErrorKind::NotFound,
        message: "No such file or directory (os error 2)".to_string(),
    };
    let line = run("/no/such/path", Err(err), Style::Normal).unwrap_err();
    assert_eq!(
        line,
        "Failed to get metadata for '/no/such/path': No such file or directory (os error 2)"
    );
    assert!(line.contains("/no/such/path"));
    assert!(!line.contains('\n'));
}

