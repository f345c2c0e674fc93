//! The path validator: classifies the destination path from what the
//! filesystem reports about it. The probing itself happens outside the
//! library; the classification rule lives here.

use vstd::prelude::*;

use crate::errors::TreeError;

verus! {

/// Classifies a destination path: a missing path is acceptable (it will
/// be created lazily), an existing directory is acceptable (its contents
/// are left alone), an existing regular file is refused, and any other
/// existing node is refused.
pub fn classify_path(exists: bool, is_file: bool, is_dir: bool) -> (r: Result<(), TreeError>)
    ensures
        !exists ==> r == Ok::<(), TreeError>(()),
        exists && is_file ==> r == Err::<(), TreeError>(TreeError::TargetIsFile),
        exists && !is_file && !is_dir ==> r == Err::<(), TreeError>(TreeError::TargetNotDirectory),
        exists && !is_file && is_dir ==> r == Ok::<(), TreeError>(()),
{
    if exists {
        if is_file {
            Err(TreeError::TargetIsFile)
        } else if !is_dir {
            Err(TreeError::TargetNotDirectory)
        } else {
            Ok(())
        }
    } else {
        Ok(())
    }
}

} // verus!
