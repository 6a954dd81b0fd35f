//! Temporary files that hold documents while tools work on them.
use vstd::prelude::*;

use crate::jobs::uid::UID;
use crate::text::lower_hex;

verus! {

/// A temporary file, named by a random identifier.
#[derive(Clone, Debug)]
pub struct TemporaryFile {
    pub path: String,
}

impl TemporaryFile {
    /// The path of the temporary file for an identifier: `/tmp/` and the
    /// identifier in lower case hexadecimal.
    pub fn path_for(uid: &UID) -> (res: TemporaryFile)
        ensures
            res.path@ == "/tmp/"@ + lower_hex(uid.bytes@),
    {
        let mut path = String::from_str("/tmp/");
        let hex = uid.to_lower_hex();
        path.append(hex.as_str());
        TemporaryFile { path }
    }
}

} // verus!
