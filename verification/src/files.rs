//! What the library says of file operations that its user carries out.

use vstd::prelude::*;
use crate::text::joined;

verus! {

/// The message for a file that could not be deleted; `reason` is the
/// system's message.
pub open spec fn delete_failure(reason: Seq<char>) -> Seq<char> {
    "Failed to delete file: "@ + reason
}

/// Words the result of deleting a file. `removal` is what the file system
/// answered: `Ok`, or its message. A failure is passed on under the
/// library's wording.
pub fn delete_file(removal: Result<(), String>) -> (r: Result<(), String>)
    ensures
        match removal {
            Ok(_) => r is Ok,
            Err(reason) => r matches Err(message) && message@ == delete_failure(reason@),
        },
{
    match removal {
        Ok(_) => Ok(()),
        Err(reason) => Err(joined("Failed to delete file: ", reason.as_str())),
    }
}

} // verus!
