use image_mirror::action::CompressorAction;
use image_mirror::relative::{accept_relative, is_inside, relativize, translate, RawEvent, TranslateError};

#[test]
fn created_below_root_is_made_relative() {
    let event = RawEvent::Created("/watch/photos/x.jpg".to_string());
    assert_eq!(
        translate(&event, "/watch"),
        Ok(Some(CompressorAction::Create("photos/x.jpg".to_string())))
    );
}

#[test]
fn removed_below_root_is_made_relative() {
    let event = RawEvent::Removed("/watch/photos/x.jpg".to_string());
    assert_eq!(
        translate(&event, "/watch"),
        Ok(Some(CompressorAction::Remove("photos/x.jpg".to_string())))
    );
}

#[test]
fn renamed_below_root_is_made_relative() {
    let event = RawEvent::Renamed("/watch/a.jpg".to_string(), "/watch/sub/b.jpg".to_string());
    assert_eq!(
        translate(&event, "/watch"),
        Ok(Some(CompressorAction::Rename("a.jpg".to_string(), "sub/b.jpg".to_string())))
    );
}

#[test]
fn other_kinds_give_no_action() {
    assert_eq!(translate(&RawEvent::Other, "/watch"), Ok(None));
}

#[test]
fn path_outside_root_is_invalid() {
    let event = RawEvent::Created("/elsewhere/x.jpg".to_string());
    assert_eq!(translate(&event, "/watch"), Err(TranslateError::InvalidPath));
    let sibling = RawEvent::Removed("/watcher/x.jpg".to_string());
    assert_eq!(translate(&sibling, "/watch"), Err(TranslateError::InvalidPath));
}

#[test]
fn rename_with_one_path_outside_is_invalid() {
    let leaving = RawEvent::Renamed("/watch/a.jpg".to_string(), "/tmp/a.jpg".to_string());
    assert_eq!(translate(&leaving, "/watch"), Err(TranslateError::InvalidPath));
    let entering = RawEvent::Renamed("/tmp/a.jpg".to_string(), "/watch/a.jpg".to_string());
    assert_eq!(translate(&entering, "/watch"), Err(TranslateError::InvalidPath));
}

#[test]
fn relative_path_against_absolute_root_is_invalid() {
    assert_eq!(relativize("photos/x.jpg", "/watch"), Err(TranslateError::InvalidPath));
}

#[test]
fn absolute_path_against_relative_root_is_invalid() {
    assert_eq!(relativize("/watch/x.jpg", "watch"), Err(TranslateError::InvalidPath));
}

#[test]
fn relativize_strips_the_root() {
    assert_eq!(relativize("/watch/a/b/c.png", "/watch/a"), Ok("b/c.png".to_string()));
    assert_eq!(relativize("temp/x.jpg", "temp"), Ok("x.jpg".to_string()));
    assert_eq!(relativize("/watch", "/watch"), Ok(String::new()));
}

#[test]
fn relativize_rejects_a_path_that_climbs_back_out() {
    assert_eq!(relativize("/watch/a/../../x.jpg", "/watch"), Err(TranslateError::InvalidPath));
    assert_eq!(relativize("/watch/a/../x.jpg", "/watch"), Ok("a/../x.jpg".to_string()));
}

#[test]
fn inside_means_never_above_the_root() {
    assert!(is_inside(""));
    assert!(is_inside("x.jpg"));
    assert!(is_inside("a/b/../c"));
    assert!(is_inside("./a"));
    assert!(is_inside("a//b"));
    assert!(is_inside("a/.."));
    assert!(is_inside("..."));
    assert!(is_inside("..a/b"));
    assert!(is_inside("a/b/../../c/"));
    assert!(!is_inside(".."));
    assert!(!is_inside("../x"));
    assert!(!is_inside("a/../../x"));
    assert!(!is_inside("a/./../.."));
    assert!(!is_inside("/abs"));
    assert!(!is_inside("/"));
    assert!(!is_inside("a/b/../../../c/d/e"));
}

#[test]
fn inside_handles_characters_beyond_ascii() {
    assert!(is_inside("фото/é.jpg"));
    assert!(!is_inside("фото/../../é.jpg"));
}

#[test]
fn accept_relative_keeps_or_rejects() {
    assert_eq!(accept_relative(Some("a/b.jpg".to_string())), Ok("a/b.jpg".to_string()));
    assert_eq!(accept_relative(Some("../b.jpg".to_string())), Err(TranslateError::InvalidPath));
    assert_eq!(accept_relative(Some("/b.jpg".to_string())), Err(TranslateError::InvalidPath));
    assert_eq!(accept_relative(None), Err(TranslateError::InvalidPath));
}
