use vstd::prelude::*;

verus! {

/// A yes/no answer in a confirmation popup; `Yes` is picked by default.
#[derive(Debug, Clone, Copy, PartialEq, Eq, Structural)]
pub enum BinaryChoice {
    Yes,
    No,
}

impl BinaryChoice {
    /// `true` for `Yes`, `false` for `No`.
    pub open spec fn spec_as_bool(self) -> bool {
        self is Yes
    }

    #[verifier::when_used_as_spec(spec_as_bool)]
    pub fn as_bool(self) -> (b: bool)
        ensures
            b == self.spec_as_bool(),
    {
        match self {
            BinaryChoice::No => false,
            BinaryChoice::Yes => true,
        }
    }
}

impl Default for BinaryChoice {
    fn default() -> (c: Self)
        ensures
            c == BinaryChoice::Yes,
    {
        BinaryChoice::Yes
    }
}

} // verus!
