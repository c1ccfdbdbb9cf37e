//! Which paths of the command line are accepted.
//!
//! Whether a path names a regular file is for the caller to find out. What
//! follows from the answer is decided here: such a path is accepted, and any
//! other is turned away with a message that names it.

use vstd::prelude::*;
use vstd::string::StringExecFns;

verus! {

/// What is said of a path that names no regular file.
pub const NOT_A_FILE: &'static str = " is not a valid file";

/// The message that turns `path` away.
pub open spec fn rejection(path: Seq<char>) -> Seq<char> {
    path + NOT_A_FILE@
}

/// Accepts `path` if it names a regular file, as `regular` says, and turns
/// it away with a message if it does not.
pub fn is_file(path: &str, regular: bool) -> (r: Result<(), String>)
    ensures
        match r {
            Ok(_) => regular,
            Err(message) => !regular && message@ == rejection(path@),
        },
{
    if regular {
        return Ok(());
    }
    let mut message = String::from_str(path);
    message.append(NOT_A_FILE);
    Err(message)
}

} // verus!
