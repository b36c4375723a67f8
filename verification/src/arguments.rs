//! What a run is started with.

use crate::fatal::{Fatal, FatalView};
use vstd::prelude::*;

verus! {

/// What is wrong with the arguments of a run: a picture that was named and
/// is no file, or else a root that is a file. `None` where the run can start.
pub open spec fn fault_of(
    root: Seq<char>,
    root_is_file: bool,
    picture: Option<Seq<char>>,
    picture_is_file: bool,
) -> Option<FatalView> {
    if picture is Some && !picture_is_file {
        Some(FatalView::SourceNotAFile(picture->0))
    } else if root_is_file {
        Some(FatalView::RootIsAFile(root))
    } else {
        None
    }
}

/// Checks the arguments of a run: the root of the archive and, where one was
/// named, the one picture to archive, each with what the caller saw at its
/// path. With no picture named, `picture_is_file` counts for nothing.
pub fn check_arguments(
    root: &str,
    root_is_file: bool,
    picture: Option<&str>,
    picture_is_file: bool,
) -> (checked: Result<(), Fatal>)
    ensures
        match checked {
            Ok(_) => fault_of(
                root@,
                root_is_file,
                match picture {
                    Some(path) => Some(path@),
                    None => None,
                },
                picture_is_file,
            ) is None,
            Err(fatal) => fault_of(
                root@,
                root_is_file,
                match picture {
                    Some(path) => Some(path@),
                    None => None,
                },
                picture_is_file,
            ) == Some(fatal@),
        },
{
    match picture {
        Some(path) => {
            if !picture_is_file {
                return Err(Fatal::SourceNotAFile(path.to_owned()));
            }
        },
        None => {},
    }
    if root_is_file {
        return Err(Fatal::RootIsAFile(root.to_owned()));
    }
    Ok(())
}

} // verus!
