//! The error taxonomy of the generation engine. Every failure that the
//! library itself can report is one of these variants; filesystem errors
//! arise only in the surrounding program and are passed through there.

use vstd::prelude::*;

verus! {

/// A validation failure: wrong argument count, an unparseable size token,
/// a destination that conflicts with an existing node, or a budget below
/// the minimum.
#[derive(Clone, Copy, Debug, PartialEq, Eq, Structural)]
pub enum TreeError {
    /// The command line did not hold exactly a size and a path.
    UsageError,
    /// The size token was not `<integer>G` or `<integer>T`, or its byte
    /// count does not fit in 64 bits.
    InvalidSizeFormat,
    /// The destination path exists and is a regular file.
    TargetIsFile,
    /// The destination path exists and is neither a directory nor a file.
    TargetNotDirectory,
    /// The target size is below the minimum of 100 bytes.
    SizeTooSmall,
}

impl TreeError {
    /// The human-readable message reported for this error.
    pub fn message(&self) -> (r: String)
        ensures
            *self == TreeError::UsageError ==> r@ == "Usage: gen_random_tree <size> <path>"@,
            *self == TreeError::InvalidSizeFormat ==> r@
                == "Invalid size format. Use G for Gigabytes or T for Terabytes."@,
            *self == TreeError::TargetIsFile ==> r@ == "Target path already exists as a file."@,
            *self == TreeError::TargetNotDirectory ==> r@ == "Target path is not a directory."@,
            *self == TreeError::SizeTooSmall ==> r@
                == "Target size is too small to create a directory tree."@,
    {
        match self {
            TreeError::UsageError => String::from_str("Usage: gen_random_tree <size> <path>"),
            TreeError::InvalidSizeFormat => String::from_str(
                "Invalid size format. Use G for Gigabytes or T for Terabytes.",
            ),
            TreeError::TargetIsFile => String::from_str("Target path already exists as a file."),
            TreeError::TargetNotDirectory => String::from_str("Target path is not a directory."),
            TreeError::SizeTooSmall => String::from_str(
                "Target size is too small to create a directory tree.",
            ),
        }
    }
}

} // verus!
