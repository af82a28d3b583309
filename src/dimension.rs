use vstd::prelude::*;

verus! {

/// A count of pixels (or world units) along one axis. Any `usize` is a valid
/// dimension, so the count is open to read and to change in place.
#[derive(Debug, Clone, Copy, PartialEq, Eq, PartialOrd, Ord)]
pub struct Dimension(pub usize);

impl View for Dimension {
    type V = nat;

    open spec fn view(&self) -> nat {
        self.0 as nat
    }
}

impl Dimension {
    pub fn from_const(value: usize) -> (r: Self)
        ensures
            r@ == value,
    {
        Dimension(value)
    }

    /// The underlying count.
    pub fn value(&self) -> (r: usize)
        ensures
            r == self@,
    {
        self.0
    }

    /// Number of steps that lead from `start` up to `end`, if `end` is not below `start`.
    pub fn steps_between(start: &Self, end: &Self) -> (r: Option<usize>)
        ensures
            end@ >= start@ ==> r == Some((end@ - start@) as usize),
            end@ < start@ ==> r is None,
    {
        if end.0 >= start.0 {
            return Some(end.0 - start.0);
        }
        None
    }

    /// `start` moved `count` steps up, unless that leaves the range of `usize`.
    pub fn forward_checked(start: Self, count: usize) -> (r: Option<Self>)
        ensures
            start@ + count <= usize::MAX ==> r is Some && r->0@ == start@ + count,
            start@ + count > usize::MAX ==> r is None,
    {
        match start.0.checked_add(count) {
            Some(v) => Some(Dimension::from(v)),
            None => None,
        }
    }

    /// `start` moved `count` steps down, unless that goes below zero.
    pub fn backward_checked(start: Self, count: usize) -> (r: Option<Self>)
        ensures
            count <= start@ ==> r is Some && r->0@ == start@ - count,
            count > start@ ==> r is None,
    {
        match start.0.checked_sub(count) {
            Some(v) => Some(Dimension::from(v)),
            None => None,
        }
    }
}

impl core::ops::Deref for Dimension {
    type Target = usize;

    fn deref(&self) -> (r: &usize)
        ensures
            *r == self.0,
    {
        &self.0
    }
}

impl core::ops::DerefMut for Dimension {
    fn deref_mut(&mut self) -> (r: &mut usize)
        ensures
            *r == old(self).0,
            final(self).0 == *final(r),
    {
        &mut self.0
    }
}

impl From<usize> for Dimension {
    fn from(value: usize) -> (r: Self) {
        Dimension(value)
    }
}

impl vstd::std_specs::convert::FromSpecImpl<usize> for Dimension {
    open spec fn obeys_from_spec() -> bool {
        true
    }

    open spec fn from_spec(value: usize) -> Dimension {
        Dimension(value)
    }
}

impl From<Dimension> for usize {
    fn from(value: Dimension) -> (r: Self) {
        value.0
    }
}

impl vstd::std_specs::convert::FromSpecImpl<Dimension> for usize {
    open spec fn obeys_from_spec() -> bool {
        true
    }

    open spec fn from_spec(value: Dimension) -> usize {
        value.0
    }
}

impl core::ops::Add<Dimension> for Dimension {
    type Output = Self;

    fn add(self, right_hand_side: Dimension) -> (r: Self::Output) {
        Dimension(self.0 + right_hand_side.0)
    }
}

impl vstd::std_specs::ops::AddSpecImpl<Dimension> for Dimension {
    open spec fn obeys_add_spec() -> bool {
        true
    }

    open spec fn add_req(self, right_hand_side: Dimension) -> bool {
        self.0 + right_hand_side.0 <= usize::MAX
    }

    open spec fn add_spec(self, right_hand_side: Dimension) -> Dimension {
        Dimension((self.0 + right_hand_side.0) as usize)
    }
}

impl core::ops::Sub<Dimension> for Dimension {
    type Output = Self;

    fn sub(self, right_hand_side: Dimension) -> (r: Self::Output) {
        Dimension(self.0 - right_hand_side.0)
    }
}

impl vstd::std_specs::ops::SubSpecImpl<Dimension> for Dimension {
    open spec fn obeys_sub_spec() -> bool {
        true
    }

    open spec fn sub_req(self, right_hand_side: Dimension) -> bool {
        right_hand_side.0 <= self.0
    }

    open spec fn sub_spec(self, right_hand_side: Dimension) -> Dimension {
        Dimension((self.0 - right_hand_side.0) as usize)
    }
}

} // verus!
