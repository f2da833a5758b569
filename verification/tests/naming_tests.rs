use renamer::naming::{dec_string, numbered_name, split_name};

#[test]
fn decimal_rendering() {
    assert_eq!(dec_string(0), "0");
    assert_eq!(dec_string(7), "7");
    assert_eq!(dec_string(10), "10");
    assert_eq!(dec_string(120340), "120340");
    assert_eq!(dec_string(u64::MAX), "18446744073709551615");
}

#[test]
fn split_plain_extension() {
    let (stem, ext) = split_name(&"photo.jpg".to_string());
    assert_eq!(stem, "photo");
    assert_eq!(ext, "jpg");
}

#[test]
fn split_takes_last_dot() {
    let (stem, ext) = split_name(&"archive.tar.gz".to_string());
    assert_eq!(stem, "archive.tar");
    assert_eq!(ext, "gz");
}

#[test]
fn split_leading_dot_only_is_all_stem() {
    let (stem, ext) = split_name(&".gitignore".to_string());
    assert_eq!(stem, ".gitignore");
    assert_eq!(ext, "");
}

#[test]
fn split_without_dot_has_empty_extension() {
    let (stem, ext) = split_name(&"noext".to_string());
    assert_eq!(stem, "noext");
    assert_eq!(ext, "");
}

#[test]
fn split_trailing_dot_has_empty_extension() {
    let (stem, ext) = split_name(&"dot.".to_string());
    assert_eq!(stem, "dot");
    assert_eq!(ext, "");
}

#[test]
fn split_second_of_two_leading_dots_separates() {
    let (stem, ext) = split_name(&"..x".to_string());
    assert_eq!(stem, ".");
    assert_eq!(ext, "x");
}

#[test]
fn split_empty_name() {
    let (stem, ext) = split_name(&String::new());
    assert_eq!(stem, "");
    assert_eq!(ext, "");
}

#[test]
fn numbered_with_extension() {
    assert_eq!(numbered_name(&"photo".to_string(), 2, &"jpg".to_string()), "photo(2).jpg");
}

#[test]
fn numbered_without_extension() {
    assert_eq!(numbered_name(&"photo".to_string(), 11, &String::new()), "photo(11)");
}
