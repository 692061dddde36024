//! The two directions in which an appearance can be switched.

use vstd::prelude::*;

verus! {

/// An appearance operation.
#[derive(Debug, Clone, Copy, PartialEq, Eq, Structural)]
pub enum Operation {
    Darken,
    Lighten,
}

impl Operation {
    /// The lower-case verb of the operation, as it is shown to the user.
    pub open spec fn spec_name(self) -> Seq<char> {
        match self {
            Operation::Darken => "darken"@,
            Operation::Lighten => "lighten"@,
        }
    }

    /// Returns the verb of the operation: `darken` or `lighten`.
    pub fn name(&self) -> (s: &'static str)
        ensures
            s@ == self.spec_name(),
    {
        match self {
            Operation::Darken => "darken",
            Operation::Lighten => "lighten",
        }
    }
}

} // verus!
