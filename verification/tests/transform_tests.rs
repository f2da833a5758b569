use renamer::transform::{mode_ok, transform, transform_checked, RenameMode};

#[test]
fn lowercase_folds_whole_name() {
    let mode = RenameMode::Lowercase;
    let out = transform(&"a.TXT".to_string(), &mode);
    assert_eq!(out, "a.txt");
}

#[test]
fn uppercase_folds_whole_name() {
    let mode = RenameMode::Uppercase;
    let out = transform(&"b.txt".to_string(), &mode);
    assert_eq!(out, "B.TXT");
}

#[test]
fn lowercase_fixed_point_stays_put() {
    let mode = RenameMode::Lowercase;
    let out = transform(&"already_lower.txt".to_string(), &mode);
    assert_eq!(out, "already_lower.txt");
}

#[test]
fn capitalize_uppercases_first_and_lowercases_rest() {
    let mode = RenameMode::Capitalize;
    let out = transform(&"hELLO World.TXT".to_string(), &mode);
    assert_eq!(out, "Hello world.txt");
}

#[test]
fn capitalize_empty_name_is_empty() {
    let mode = RenameMode::Capitalize;
    let out = transform(&String::new(), &mode);
    assert_eq!(out, "");
}

#[test]
fn capitalize_leading_dot_name_applies_to_first_char_of_full_name() {
    // The first-character rule applies to the name as given, not to a
    // derived (empty) stem: '.' has no distinct uppercase form, so the
    // name survives unchanged.
    let mode = RenameMode::Capitalize;
    let out = transform(&".gitignore".to_string(), &mode);
    assert_eq!(out, ".gitignore");
}

#[test]
fn capitalize_leading_dot_name_still_lowercases_the_rest() {
    let mode = RenameMode::Capitalize;
    let out = transform(&".GitIgnore".to_string(), &mode);
    assert_eq!(out, ".gitignore");
}

#[test]
fn regex_replaces_every_match() {
    let mode = RenameMode::Regex("o".to_string(), "0".to_string());
    let out = transform(&"photo_root.png".to_string(), &mode);
    assert_eq!(out, "ph0t0_r00t.png");
}

#[test]
fn regex_with_capture_groups() {
    let mode = RenameMode::Regex("([a-z]+)-([0-9]+)".to_string(), "$2-$1".to_string());
    let out = transform(&"file-42.txt".to_string(), &mode);
    assert_eq!(out, "42-file.txt");
}

#[test]
fn regex_without_match_leaves_name_unchanged() {
    let mode = RenameMode::Regex("zzz".to_string(), "yyy".to_string());
    let out = transform(&"photo.jpg".to_string(), &mode);
    assert_eq!(out, "photo.jpg");
}

#[test]
fn mode_ok_accepts_valid_pattern_and_rejects_invalid() {
    assert!(mode_ok(&RenameMode::Regex("[0-9]+".to_string(), "n".to_string())));
    assert!(!mode_ok(&RenameMode::Regex("(".to_string(), "n".to_string())));
    assert!(mode_ok(&RenameMode::Lowercase));
}

#[test]
fn transform_checked_rejects_invalid_pattern() {
    let bad = RenameMode::Regex("(".to_string(), "x".to_string());
    assert!(transform_checked(&"a.txt".to_string(), &bad).is_none());
    let good = RenameMode::Regex("a".to_string(), "b".to_string());
    assert_eq!(transform_checked(&"a.txt".to_string(), &good).unwrap(), "b.txt");
}
