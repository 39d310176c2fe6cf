//! Selecting the folder that a by-path lookup returned.

use vstd::prelude::*;

use crate::fetch::FetchError;
use crate::records::Folder;

verus! {

/// Picks the folder that a by-path lookup on `path` names: the last element
/// of the returned sequence. An empty sequence means nothing lives at
/// `path`, which is reported as [`FetchError::NotFound`] — never as a decode
/// or indexing error.
pub fn get_course_folder(path: &str, folders: Vec<Folder>) -> (r: Result<Folder, FetchError>)
    ensures
        folders@.len() == 0 ==> (r matches Err(FetchError::NotFound(p)) && p@ == path@),
        folders@.len() > 0 ==> (r matches Ok(f) && f == folders@.last()),
{
    let mut fs = folders;
    match fs.pop() {
        Some(f) => Ok(f),
        None => Err(FetchError::NotFound(String::from_str(path))),
    }
}

} // verus!
