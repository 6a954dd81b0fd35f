//! Random identifiers of tasks and temporary files.
use vstd::prelude::*;

use crate::external::string_from_chars;
use crate::text::{lower_hex, push_lower_hex};

verus! {

/// An identifier made of random bytes.
#[derive(Debug, Clone)]
pub struct UID {
    pub bytes: Vec<u8>,
}

impl UID {
    /// A copy of the identifier's bytes.
    pub fn get_bytes(&self) -> (res: Vec<u8>)
        ensures
            res@ == self.bytes@,
    {
        let mut res: Vec<u8> = Vec::new();
        let mut i: usize = 0;
        while i < self.bytes.len()
            invariant
                i <= self.bytes.len(),
                res@ =~= self.bytes@.take(i as int),
            decreases self.bytes.len() - i,
        {
            res.push(self.bytes[i]);
            i = i + 1;
        }
        assert(self.bytes@.take(self.bytes.len() as int) =~= self.bytes@);
        res
    }

    /// The identifier in lower case hexadecimal, two digits per byte
    /// (what `{:x}` writes).
    pub fn to_lower_hex(&self) -> (res: String)
        ensures
            res@ == lower_hex(self.bytes@),
    {
        let mut out: Vec<char> = Vec::new();
        push_lower_hex(&mut out, self.bytes.as_slice());
        string_from_chars(&out)
    }
}

impl From<Vec<u8>> for UID {
    fn from(bytes: Vec<u8>) -> (res: UID)
        ensures
            res.bytes == bytes,
    {
        UID { bytes }
    }
}

impl vstd::std_specs::convert::FromSpecImpl<Vec<u8>> for UID {
    open spec fn obeys_from_spec() -> bool {
        true
    }

    open spec fn from_spec(bytes: Vec<u8>) -> UID {
        UID { bytes }
    }
}

} // verus!
