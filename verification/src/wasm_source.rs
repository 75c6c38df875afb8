//! Modules in the binary format, by where they come from.

use vstd::prelude::*;

verus! {

/// A module given as its bytes.
pub struct Bytes {
    data: Vec<u8>,
}

impl Bytes {
    /// The bytes of the module.
    pub closed spec fn view(&self) -> Seq<u8> {
        self.data@
    }

    pub fn as_ref(&self) -> (r: &[u8])
        ensures
            r@ == self.view(),
    {
        self.data.as_slice()
    }
}

/// A module in a file.
pub struct File {
    pub path: String,
}

/// A module in a repository.
pub struct Git {
    pub url: String,
}

pub fn bytes(data: Vec<u8>) -> (r: Bytes)
    ensures
        r.view() == data@,
{
    Bytes { data }
}

} // verus!
