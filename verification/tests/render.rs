use filemeta::numfmt::u64_to_string;
use filemeta::record::{EntryType, FileRecord};

fn sample_record() -> FileRecord {
    FileRecord {
        name: "/etc/hostname".to_string(),
        size: 127,
        blocks: 8,
        io_block: 4096,
        devices: 64768,
        entry_type: EntryType::File,
        inod: 393240,
        links: 1,
        access: "Permissions(FilePermissions { mode: 0o100644 })".to_string(),
        uid: "root".to_string(),
        gid: "root".to_string(),
        sympolic: false,
        access_date: "2024-01-01 00:00:00".to_string(),
        modify_date: "2024-01-02 10:20:30".to_string(),
        change_data: "2024-01-03 11:22:33".to_string(),
        birth: "Unavailable".to_string(),
        file_type: "text/plain".to_string(),
    }
}

#[test]
fn plain_report_exact() {
    let rec = sample_record();
    let out = rec.render_normal();
    let expected = "File Name: /etc/hostname\n\
                    Size: 127 bytes\n\
                    Blocks: 8\n\
                    IO Block Size: 4096\n\
                    Devices: 64768\n\
                    Entry Type: File\n\
                    Inode: 393240\n\
                    Links: 1\n\
                    Access Permissions: Permissions(FilePermissions { mode: 0o100644 })\n\
                    UID: root\n\
                    GID: root\n\
                    Symbolic Link: false\n\
                    Access Date: 2024-01-01 00:00:00\n\
                    Modify Date: 2024-01-02 10:20:30\n\
                    Change Date: 2024-01-03 11:22:33\n\
                    Birth Date: Unavailable\n\
                    Detected File Type: text/plain\n";
    assert_eq!(out, expected);
}

#[test]
fn plain_report_first_line_and_size() {
    let rec = sample_record();
    let out = rec.render_normal();
    let first = out.lines().next().unwrap();
    assert_eq!(first, "File Name: /etc/hostname");
    assert!(out.contains("Size: 127 bytes"));
}

#[test]
fn json_output_is_parseable_with_matching_size() {
    let rec = sample_record();
    let out = rec.render_json();
    let value: serde_json::Value = serde_json::from_str(&out).unwrap();
    let obj = value.as_object().unwrap();
    assert_eq!(obj.get("size").unwrap().as_u64().unwrap(), 127);
    assert_eq!(obj.get("name").unwrap().as_str().unwrap(), "/etc/hostname");
    assert_eq!(obj.get("entry_type").unwrap().as_str().unwrap(), "File");
    assert_eq!(obj.get("sympolic").unwrap().as_bool().unwrap(), false);
    let normal = rec.render_normal();
    assert!(normal.contains("Size: 127 bytes"));
}

#[test]
fn json_round_trip_reproduces_every_field() {
    let rec = sample_record();
    let out = rec.render_json();
    let back = FileRecord::from_json(&out).unwrap();
    assert_eq!(back.name, rec.name);
    assert_eq!(back.size, rec.size);
    assert_eq!(back.blocks, rec.blocks);
    assert_eq!(back.io_block, rec.io_block);
    assert_eq!(back.devices, rec.devices);
    assert_eq!(back.entry_type, rec.entry_type);
    assert_eq!(back.inod, rec.inod);
    assert_eq!(back.links, rec.links);
    assert_eq!(back.access, rec.access);
    assert_eq!(back.uid, rec.uid);
    assert_eq!(back.gid, rec.gid);
    assert_eq!(back.sympolic, rec.sympolic);
    assert_eq!(back.access_date, rec.access_date);
    assert_eq!(back.modify_date, rec.modify_date);
    assert_eq!(back.change_data, rec.change_data);
    assert_eq!(back.birth, rec.birth);
    assert_eq!(back.file_type, rec.file_type);
}

#[test]
fn json_round_trip_with_escaped_characters() {
    let mut rec = sample_record();
    rec.name = "a \"quoted\" \\ back\nslash\ttab".to_string();
    rec.uid = "odd\u{1}name".to_string();
    let out = rec.render_json();
    let value: serde_json::Value = serde_json::from_str(&out).unwrap();
    assert_eq!(
        value.as_object().unwrap().get("name").unwrap().as_str().unwrap(),
        rec.name
    );
    let back = FileRecord::from_json(&out).unwrap();
    assert_eq!(back.name, rec.name);
    assert_eq!(back.uid, rec.uid);
}

#[test]
fn json_parser_rejects_other_text() {
    assert!(FileRecord::from_json(&"not a record".to_string()).is_none());
    assert!(FileRecord::from_json(&"{}".to_string()).is_none());
    assert!(FileRecord::from_json(&String::new()).is_none());
}

#[test]
fn json_parser_rejects_reordered_fields() {
    let rec = sample_record();
    let out = rec.render_json();
    let reordered = out.replace("\"size\": 127", "\"size\": 0127");
    assert!(FileRecord::from_json(&reordered).is_none());
}

#[test]
fn table_output_holds_headers_and_cells() {
    let rec = sample_record();
    let out = rec.render_table();
    assert!(out.contains("name"));
    assert!(out.contains("file_type"));
    assert!(out.contains("/etc/hostname"));
    assert!(out.contains("127"));
    assert!(out.contains("text/plain"));
    assert!(out.contains("false"));
    assert!(out.contains("\u{2500}"));
}

#[test]
fn all_formatters_render_every_field_value() {
    let rec = sample_record();
    for out in [rec.render_normal(), rec.render_json(), rec.render_table()] {
        assert!(out.contains("/etc/hostname"));
        assert!(out.contains("127"));
        assert!(out.contains("8"));
        assert!(out.contains("4096"));
        assert!(out.contains("64768"));
        assert!(out.contains("File"));
        assert!(out.contains("393240"));
        assert!(out.contains("root"));
        assert!(out.contains("false"));
        assert!(out.contains("2024-01-01 00:00:00"));
        assert!(out.contains("Unavailable"));
        assert!(out.contains("text/plain"));
    }
}

#[test]
fn decimal_rendering_exact() {
    assert_eq!(u64_to_string(0), "0");
    assert_eq!(u64_to_string(7), "7");
    assert_eq!(u64_to_string(1234567890), "1234567890");
    assert_eq!(u64_to_string(u64::MAX), "18446744073709551615");
}
