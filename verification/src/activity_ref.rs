//! Activity reference shared by command and event envelopes.

use vstd::prelude::*;

verus! {

/// Identifies the activity a command or event originates from.
#[derive(Debug, Clone, PartialEq)]
pub struct ActivityRef {
    pub id: String,
}

impl ActivityRef {
    /// A reference to the activity `id`.
    pub fn new(id: String) -> (r: Self)
        ensures
            r.id == id,
    {
        ActivityRef { id }
    }

    /// A copy of the reference.
    pub fn copy(&self) -> (r: Self)
        ensures
            r.id@ == self.id@,
    {
        ActivityRef { id: self.id.clone() }
    }
}

} // verus!
