//! Modules in the text format, by where they come from.

use vstd::prelude::*;

verus! {

/// A module given as its text.
pub struct String {
    data: std::string::String,
}

impl String {
    /// The text of the module.
    pub closed spec fn view(&self) -> Seq<char> {
        self.data@
    }

    pub fn as_ref(&self) -> (r: &str)
        ensures
            r@ == self.view(),
    {
        self.data.as_str()
    }
}

pub fn string(data: &str) -> (r: String)
    ensures
        r.view() == data@,
{
    String { data: data.to_owned() }
}

} // verus!
