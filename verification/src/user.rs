//! The user record.

use vstd::prelude::*;

verus! {

/// A user record. It carries no identity of its own: the registry assigns
/// one when the record is stored. Any text is accepted as a name.
#[derive(Debug, PartialEq, Eq)]
pub struct User {
    pub name: String,
}

impl View for User {
    type V = Seq<char>;

    /// A record is modelled by the characters of its name.
    open spec fn view(&self) -> Seq<char> {
        self.name@
    }
}

impl Clone for User {
    fn clone(&self) -> (copy: Self)
        ensures
            copy@ == self@,
    {
        User { name: self.name.clone() }
    }
}

} // verus!
