use rustybox::filetype::{ClassificationError, FileType};

#[test]
fn test_file_type_try_from() {
    for x in [
        FileType::Socket,
        FileType::RegularFile,
        FileType::Directory,
        FileType::BlockDevice,
        FileType::CharDevice,
        FileType::Fifo,
        FileType::SymbolicLink,
    ]
    .iter()
    {
        let x = *x;
        let y: u32 = x.code();
        let f = FileType::classify(y).ok().unwrap();
        assert_eq!(x, f);
    }
}

#[test]
fn test_classify_unknown_fails() {
    assert_eq!(
        FileType::classify(0),
        Err(ClassificationError::UnknownType(0))
    );
    assert_eq!(
        FileType::classify(0o170000),
        Err(ClassificationError::UnknownType(0o170000))
    );
    assert_eq!(
        FileType::classify(0o160000),
        Err(ClassificationError::UnknownType(0o160000))
    );
}

#[test]
fn test_classify_ignores_permission_bits() {
    assert_eq!(FileType::classify(0o100644), Ok(FileType::RegularFile));
    assert_eq!(FileType::classify(0o040755), Ok(FileType::Directory));
    assert_eq!(FileType::classify(0o120777), Ok(FileType::SymbolicLink));
}

#[test]
fn test_display_tags() {
    assert_eq!(FileType::Socket.display_tag(), 's');
    assert_eq!(FileType::SymbolicLink.display_tag(), 'l');
    assert_eq!(FileType::RegularFile.display_tag(), '.');
    assert_eq!(FileType::BlockDevice.display_tag(), 'b');
    assert_eq!(FileType::Directory.display_tag(), 'd');
    assert_eq!(FileType::CharDevice.display_tag(), 'c');
    assert_eq!(FileType::Fifo.display_tag(), 'f');
}
