use gen_random_tree::errors::TreeError;
use gen_random_tree::paths::classify_path;

#[test]
fn missing_path_is_acceptable() {
    assert_eq!(classify_path(false, false, false), Ok(()));
}

#[test]
fn existing_directory_is_acceptable() {
    assert_eq!(classify_path(true, false, true), Ok(()));
}

#[test]
fn existing_file_is_refused() {
    assert_eq!(classify_path(true, true, false), Err(TreeError::TargetIsFile));
}

#[test]
fn other_node_is_refused() {
    assert_eq!(
        classify_path(true, false, false),
        Err(TreeError::TargetNotDirectory)
    );
}

#[test]
fn error_messages_match_the_reported_text() {
    assert_eq!(
        TreeError::UsageError.message(),
        "Usage: gen_random_tree <size> <path>"
    );
    assert_eq!(
        TreeError::InvalidSizeFormat.message(),
        "Invalid size format. Use G for Gigabytes or T for Terabytes."
    );
    assert_eq!(
        TreeError::TargetIsFile.message(),
        "Target path already exists as a file."
    );
    assert_eq!(
        TreeError::TargetNotDirectory.message(),
        "Target path is not a directory."
    );
    assert_eq!(
        TreeError::SizeTooSmall.message(),
        "Target size is too small to create a directory tree."
    );
}
