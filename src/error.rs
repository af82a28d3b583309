use vstd::prelude::*;

verus! {

/// A length, radius or focal length was given a negative value.
#[derive(Debug, Clone, Copy, PartialEq, Eq, Structural, Hash)]
pub struct DistanceCannotBeNegative;

impl DistanceCannotBeNegative {
    pub open spec fn spec_message(self) -> Seq<char> {
        "Distance cannot be a negative value"@
    }

    pub fn message(&self) -> (r: String)
        ensures
            r@ == self.spec_message(),
    {
        String::from_str("Distance cannot be a negative value")
    }
}

} // verus!
