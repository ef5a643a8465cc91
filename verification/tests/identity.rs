use rustybox::identity::{Gid, Uid, UidgidDisplay};

#[test]
fn test_unknown_uid_falls_back_to_decimal() {
    let uid = Uid { uid: u32::MAX };
    let text = uid.display_string();
    assert_eq!(text, "4294967295");
    assert!(!text.is_empty());
}

#[test]
fn test_unknown_gid_falls_back_to_decimal() {
    let gid = Gid { gid: u32::MAX };
    let text = gid.display_string();
    assert_eq!(text, "4294967295");
    assert!(!text.is_empty());
}

#[test]
fn test_value_returns_raw_id() {
    assert_eq!(Uid { uid: 0 }.value(), 0);
    assert_eq!(Gid { gid: 12345 }.value(), 12345);
}

#[test]
fn test_current_user_resolves_nonempty() {
    let uid = Uid {
        uid: users::get_current_uid(),
    };
    let text = uid.display_string();
    assert!(!text.is_empty());
}
