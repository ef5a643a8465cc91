use rustybox::filemeta::{date_text, final_component, FileMetadata, MetaError};
use rustybox::filetype::FileType;
use rustybox::identity::{Gid, Uid};
use rustybox::permissions::PermissionsMask;

fn entry(name: &str, mode: u32, size: u64) -> FileMetadata {
    FileMetadata::for_stat(name, mode, size, 0, 0, Some(0)).unwrap()
}

#[test]
fn test_current_file_metadata() {
    let uid: u32 = users::get_current_uid();
    let gid: u32 = users::get_current_gid();
    let meta = FileMetadata::for_stat(
        "/tmp/rustybox-filemeta-test1",
        0o100644,
        4,
        uid,
        gid,
        Some(1_600_000_000),
    );
    match meta {
        Ok(meta) => {
            assert_eq!(meta.file_type, FileType::RegularFile);
            assert_eq!(meta.permissions, PermissionsMask::build(0o644));
            assert_eq!(meta.uid.uid, uid);
            assert_eq!(meta.gid.gid, gid);
            assert_eq!(meta.size, 4);
            assert_eq!(meta.name, "rustybox-filemeta-test1");
        }
        Err(_) => assert!(false),
    }
}

#[test]
fn test_for_stat_missing_mtime() {
    assert_eq!(
        FileMetadata::for_stat("/tmp/a", 0o100644, 0, 0, 0, None),
        Err(MetaError::MissingMtime)
    );
}

#[test]
fn test_for_stat_unknown_type() {
    assert_eq!(
        FileMetadata::for_stat("/tmp/a", 0o644, 0, 0, 0, Some(0)),
        Err(MetaError::UnknownType(0o644))
    );
}

#[test]
fn test_for_stat_no_final_component() {
    assert_eq!(
        FileMetadata::for_stat("/", 0o100644, 0, 0, 0, Some(0)),
        Err(MetaError::NoFinalComponent)
    );
    assert_eq!(
        FileMetadata::for_stat("", 0o100644, 0, 0, 0, Some(0)),
        Err(MetaError::NoFinalComponent)
    );
}

#[test]
fn test_final_component_cases() {
    assert_eq!(final_component("a/b/c"), Some("c".to_string()));
    assert_eq!(final_component("/x/"), Some("x".to_string()));
    assert_eq!(final_component("name"), Some("name".to_string()));
    assert_eq!(final_component("///"), None);
    assert_eq!(final_component("/usr//local//"), Some("local".to_string()));
}

#[test]
fn test_final_component_dot_segments() {
    assert_eq!(final_component("a/."), Some("a".to_string()));
    assert_eq!(final_component("a/./."), Some("a".to_string()));
    assert_eq!(final_component("a/./"), Some("a".to_string()));
    assert_eq!(final_component("."), Some(".".to_string()));
    assert_eq!(final_component("./a"), Some("a".to_string()));
    assert_eq!(final_component("a/.."), Some("..".to_string()));
    assert_eq!(final_component("a/.b"), Some(".b".to_string()));
    assert_eq!(final_component("/."), None);
}

#[test]
fn test_date_text_recency() {
    let year = || Some("01 Jan 2024".to_string());
    let time = || Some("01 Jan 14:30".to_string());
    assert_eq!(date_text(year(), time(), 0, 86401), "01 Jan 2024");
    assert_eq!(date_text(year(), time(), 0, 86400), "01 Jan 14:30");
    assert_eq!(date_text(year(), time(), 0, 0), "01 Jan 14:30");
    assert_eq!(date_text(year(), time(), 100, 0), "01 Jan 14:30");
    assert_eq!(date_text(None, time(), 5, 1_000_000), "5");
    assert_eq!(date_text(year(), None, 0, 0), "0");
    assert_eq!(date_text(None, None, -7, 1_000_000), "-7");
}

#[test]
fn test_is_hidden_names() {
    assert!(!entry("name", 0o100644, 0).is_hidden());
    assert!(entry(".name", 0o100644, 0).is_hidden());
    assert!(entry("dir/.name", 0o100644, 0).is_hidden());
    assert!(entry(".", 0o100644, 0).is_hidden());
}

#[test]
fn test_short_name_is_bare_name() {
    let e = entry("/tmp/some/file.txt", 0o100644, 0);
    assert_eq!(e.short_name().as_str(), "file.txt");
}

#[test]
fn test_rendered_line_exact() {
    let e = FileMetadata {
        name: "a".to_string(),
        permissions: PermissionsMask::build(0o644),
        size: 4,
        file_type: FileType::RegularFile,
        mtime_secs: 0,
        uid: Uid { uid: 0 },
        gid: Gid { gid: 0 },
    };
    let line = e.rendered_with("root", "wheel", "01 Jan 2024");
    assert_eq!(line, ".rw-r--r-- 4        root     wheel    01 Jan 2024 a");
}

#[test]
fn test_rendered_line_wide_fields_not_truncated() {
    let e = FileMetadata {
        name: "big".to_string(),
        permissions: PermissionsMask::build(0o755),
        size: 123456789,
        file_type: FileType::Directory,
        mtime_secs: 0,
        uid: Uid { uid: 0 },
        gid: Gid { gid: 0 },
    };
    let line = e.rendered_with("someverylonguser", "g", "01 Jan 14:30");
    assert_eq!(
        line,
        "drwxr-xr-x 123456789 someverylonguser g        01 Jan 14:30 big"
    );
}

#[test]
fn test_to_text_idempotent() {
    let e = entry("steady", 0o100600, 17);
    let first = e.to_text();
    let second = e.to_text();
    assert_eq!(first, second);
}

#[test]
fn test_to_text_shape() {
    let e = entry("shape", 0o100644, 9);
    let line = e.to_text();
    assert!(line.starts_with(".rw-r--r-- 9        "));
    assert!(line.ends_with(" shape"));
}
