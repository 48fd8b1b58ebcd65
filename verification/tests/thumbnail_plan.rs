use image_lib::paths::{extension_of, file_name_of, join_path, parent_of};
use image_lib::plan::{
    default_allowed_extensions, plan_thumbnail, resolve_thumbnail_dir, PathFacts, ThumbnailSpec,
};
use image_lib::ImageError;

fn all_good() -> PathFacts {
    PathFacts { exists: true, is_file: true, parent_exists: true }
}

#[test]
fn test_create_thumbnail_path() {
    let thumbnail_path = resolve_thumbnail_dir("../test-image/22272455.png", true).unwrap();
    assert_eq!(thumbnail_path, "../test-image/thumbnails");
}

#[test]
fn test_create_thumbnail_bad_parent_path() {
    let thumbnail_path = resolve_thumbnail_dir("../path_which_does_not_exist/test2.jpg", false);
    assert_eq!(thumbnail_path.unwrap_err().message(), "Parent path does not exist");
}

#[test]
fn test_create_thumbnail_bad_file_name() {
    let facts = PathFacts { exists: true, is_file: false, parent_exists: true };
    let thumbnail_path = plan_thumbnail("../test-image/", facts, &default_allowed_extensions());
    assert_eq!(thumbnail_path.unwrap_err().message(), "Path is not a file");
}

#[test]
fn test_create_thumbnail_good_file_name() {
    let plan = plan_thumbnail("../test-image/22272455.png", all_good(), &default_allowed_extensions())
        .unwrap();
    assert_eq!(plan.dest_path, "../test-image/thumbnails/22272455.png");
}

#[test]
fn plan_reports_missing_source() {
    let facts = PathFacts { exists: false, is_file: false, parent_exists: true };
    let err = plan_thumbnail("photos/missing.jpg", facts, &default_allowed_extensions())
        .unwrap_err();
    assert!(matches!(err, ImageError::NotFound));
    assert_eq!(err.message(), "Path does not exist");
}

#[test]
fn plan_reports_directory_source() {
    let facts = PathFacts { exists: true, is_file: false, parent_exists: true };
    let err = plan_thumbnail("photos/album", facts, &default_allowed_extensions()).unwrap_err();
    assert!(matches!(err, ImageError::NotAFile));
}

#[test]
fn plan_reports_missing_extension() {
    let err = plan_thumbnail("photos/noext", all_good(), &default_allowed_extensions())
        .unwrap_err();
    assert!(matches!(err, ImageError::NoFileExtension));
    assert_eq!(err.message(), "No file extension found");
}

#[test]
fn plan_reports_unsupported_extension() {
    let err = plan_thumbnail("photos/readme.txt", all_good(), &default_allowed_extensions())
        .unwrap_err();
    assert!(matches!(err, ImageError::UnsupportedExtension));
    assert_eq!(err.message(), "File extension not allowed");
}

#[test]
fn plan_reports_missing_parent_segment() {
    let err = plan_thumbnail("lonely.jpg", all_good(), &default_allowed_extensions()).unwrap_err();
    assert!(matches!(err, ImageError::NoParentPath));
    assert_eq!(err.message(), "No parent path found");
}

#[test]
fn plan_matches_extensions_case_insensitively() {
    let plan = plan_thumbnail("photos/holiday.JPG", all_good(), &default_allowed_extensions())
        .unwrap();
    assert_eq!(plan.dest_path, "photos/thumbnails/holiday.JPG");
    assert_eq!(plan.extension, "JPG");
    assert_eq!(plan.file_name, "holiday.JPG");
}

#[test]
fn plan_is_idempotent_in_its_destination() {
    let allowed = default_allowed_extensions();
    let first = plan_thumbnail("photos/a.png", all_good(), &allowed).unwrap();
    let second = plan_thumbnail("photos/a.png", all_good(), &allowed).unwrap();
    assert_eq!(first.dest_path, second.dest_path);
    assert_eq!(first.thumb_dir, second.thumb_dir);
}

#[test]
fn remaining_error_messages_are_stable() {
    assert_eq!(ImageError::NoFileName.message(), "No file name found");
    assert_eq!(
        ImageError::DecodeFailed(String::from("bad header")).message(),
        "Image decode failed: bad header"
    );
    assert_eq!(
        ImageError::WriteFailed(String::from("disk full")).message(),
        "Thumbnail write failed: disk full"
    );
}

#[test]
fn path_parts_are_computed_from_the_string() {
    assert_eq!(parent_of("a/b/c.png").unwrap(), "a/b");
    assert_eq!(parent_of("/c.png").unwrap(), "/");
    assert!(parent_of("c.png").is_none());
    assert!(parent_of("/").is_none());
    assert_eq!(file_name_of("a/b/c.png").unwrap(), "c.png");
    assert!(file_name_of("a/b/").is_none());
    assert_eq!(extension_of("a/b/c.tar.gz").unwrap(), "gz");
    assert!(extension_of("a/.gitignore").is_none());
    assert!(extension_of("a/noext").is_none());
    assert_eq!(join_path("a/b", "c"), "a/b/c");
    assert_eq!(join_path("a/b/", "c"), "a/b/c");
}

#[test]
fn resolution_without_a_parent_segment_fails() {
    let err = resolve_thumbnail_dir("orphan.jpg", true).unwrap_err();
    assert!(matches!(err, ImageError::NoParentPath));
    let root = resolve_thumbnail_dir("/", true).unwrap_err();
    assert!(matches!(root, ImageError::NoParentPath));
}

#[test]
fn allowed_extensions_are_configuration() {
    let allowed = vec![String::from("webp")];
    let plan = plan_thumbnail("photos/pic.webp", all_good(), &allowed).unwrap();
    assert_eq!(plan.dest_path, "photos/thumbnails/pic.webp");
    let err = plan_thumbnail("photos/pic.jpg", all_good(), &allowed).unwrap_err();
    assert!(matches!(err, ImageError::UnsupportedExtension));
}

#[test]
fn spec_box_defaults_to_128() {
    let spec = ThumbnailSpec::default();
    assert_eq!(spec.max_width, 128);
    assert_eq!(spec.max_height, 128);
    let custom = ThumbnailSpec::new(256, 256);
    assert_eq!(custom.max_width, 256);
    assert_eq!(custom.max_height, 256);
}
