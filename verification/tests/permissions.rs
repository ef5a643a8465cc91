use rustybox::permissions::{FilePermissions, PermissionsMask};

#[test]
fn test_file_permissions_values() {
    assert_eq!(FilePermissions::build(0o4).bits, 4);
    assert_eq!(FilePermissions::build(0o1).bits, 1);
    assert_eq!(FilePermissions::build(0o2).bits, 2);
    assert_eq!(
        FilePermissions::build(0o2)
            .union(FilePermissions::build(0o1))
            .union(FilePermissions::build(0o4))
            .bits,
        7
    );
}

#[test]
fn test_file_permissions_format() {
    assert_eq!(FilePermissions::build(0o4).render(), "r--");
    assert_eq!(FilePermissions::build(0o2).render(), "-w-");
    assert_eq!(FilePermissions::build(0o4 | 0o2).render(), "rw-");
    assert_eq!(FilePermissions::build(0o1).render(), "--x");
    assert_eq!(FilePermissions::build(0o4 | 0o1).render(), "r-x");
    assert_eq!(FilePermissions::build(0o2 | 0o1).render(), "-wx");
    assert_eq!(FilePermissions::build(0o4 | 0o2 | 0o1).render(), "rwx");
}

#[test]
fn test_mask_build_truncates() {
    let m = PermissionsMask::build(0o100644);
    assert_eq!(m.bits, 0o644);
    assert_eq!(PermissionsMask::build(0o777).bits, 0o777);
    assert_eq!(PermissionsMask::build(0).bits, 0);
}

#[test]
fn test_decode_classes() {
    let m = PermissionsMask::build(0o754);
    assert_eq!(m.user().bits, 0o7);
    assert_eq!(m.group().bits, 0o5);
    assert_eq!(m.other().bits, 0o4);
}

#[test]
fn test_decode_other_confined_to_low_bits() {
    let full = PermissionsMask::build(0o757);
    let low = PermissionsMask::build(0o757 & 0o007);
    assert_eq!(full.other(), low.other());
}

#[test]
fn test_render_mask_nine_chars() {
    let r = PermissionsMask::build(0o644).render();
    assert_eq!(r, "rw-r--r--");
    assert_eq!(r.len(), 9);
    assert!(r.chars().all(|c| c == 'r' || c == 'w' || c == 'x' || c == '-'));
    assert_eq!(PermissionsMask::build(0o777).render(), "rwxrwxrwx");
    assert_eq!(PermissionsMask::build(0).render(), "---------");
    assert_eq!(PermissionsMask::build(0o751).render(), "rwxr-x--x");
}
