use rustybox::filemeta::FileMetadata;
use rustybox::listing::{render_target, ColorOption, ConfigError, DisplayFormat};

fn entry(name: &str) -> FileMetadata {
    FileMetadata::for_stat(name, 0o100644, 0, 0, 0, Some(0)).unwrap()
}

#[test]
fn test_color_parse() {
    assert_eq!(ColorOption::from_text("never"), Ok(ColorOption::Never));
    assert_eq!(ColorOption::from_text("auto"), Ok(ColorOption::Auto));
    assert_eq!(ColorOption::from_text("always"), Ok(ColorOption::Always));
    assert_eq!(
        ColorOption::from_text("sometimes"),
        Err(ConfigError::UnknownColor)
    );
    assert_eq!(ColorOption::from_text(""), Err(ConfigError::UnknownColor));
}

#[test]
fn test_display_format_build() {
    let fmt = DisplayFormat::build(true, true, "auto").unwrap();
    assert!(fmt.show_hidden);
    assert!(fmt.long_display);
    assert_eq!(fmt.color, ColorOption::Auto);

    let fmt = DisplayFormat::build(false, false, "never").unwrap();
    assert!(!fmt.show_hidden);
    assert!(!fmt.long_display);
    assert_eq!(fmt.color, ColorOption::Never);

    assert_eq!(
        DisplayFormat::build(false, false, "wat"),
        Err(ConfigError::UnknownColor)
    );
}

#[test]
fn test_should_display() {
    let show = DisplayFormat::build(true, false, "auto").unwrap();
    let hide = DisplayFormat::build(false, false, "auto").unwrap();
    let plain = entry("a");
    let hidden = entry(".c");
    assert!(show.should_display(&plain));
    assert!(show.should_display(&hidden));
    assert!(hide.should_display(&plain));
    assert!(!hide.should_display(&hidden));
}

#[test]
fn test_print_dir() {
    let entries = vec![entry("b"), entry("a")];
    let fmt = DisplayFormat::build(false, false, "auto").unwrap();
    let out = render_target(&entries, &fmt);
    assert_eq!(out, "b a ");
}

#[test]
fn test_print_dir_hidden_file() {
    let entries = vec![entry(".c"), entry("b"), entry("a")];
    let all = DisplayFormat::build(true, false, "auto").unwrap();
    let out = render_target(&entries, &all);
    assert_eq!(out, ".c b a ");

    let plain = DisplayFormat::build(false, false, "auto").unwrap();
    let out = render_target(&entries, &plain);
    assert_eq!(out, "b a ");
}

#[test]
fn test_long_listing_lines() {
    let entries = vec![entry("one"), entry(".two"), entry("three")];
    let fmt = DisplayFormat::build(false, true, "auto").unwrap();
    let out = render_target(&entries, &fmt);
    let lines: Vec<&str> = out.lines().collect();
    assert_eq!(lines.len(), 2);
    assert!(out.ends_with('\n'));
    assert!(lines[0].starts_with(".rw-r--r-- "));
    assert!(lines[0].ends_with(" one"));
    assert!(lines[1].ends_with(" three"));
}

#[test]
fn test_empty_listing() {
    let entries: Vec<FileMetadata> = Vec::new();
    let fmt = DisplayFormat::build(false, false, "auto").unwrap();
    assert_eq!(render_target(&entries, &fmt), "");
}
