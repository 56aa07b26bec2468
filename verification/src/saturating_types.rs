//! A `u16` whose arithmetic saturates at its bounds instead of panicking,
//! used for cursor coordinates and scroll offsets.

use vstd::prelude::*;

verus! {

use vstd::std_specs::cmp::PartialOrdSpec;

#[derive(Clone, Copy, Debug)]
pub struct SaturatingU16(pub u16);

impl SaturatingU16 {
    pub open spec fn spec_value(self) -> int {
        self.0 as int
    }

    /// The wrapped value.
    #[verifier::when_used_as_spec(spec_value_u16)]
    pub fn value(self) -> (r: u16)
        ensures
            r == self.0,
    {
        self.0
    }

    pub open spec fn spec_value_u16(self) -> u16 {
        self.0
    }

    /// Saturating addition: stops at `u16::MAX`.
    pub fn add(self, rhs: u16) -> (r: SaturatingU16)
        ensures
            r.0 == if self.0 + rhs <= u16::MAX { self.0 + rhs } else { u16::MAX as int },
    {
        SaturatingU16(self.0.saturating_add(rhs))
    }

    /// Saturating subtraction: stops at zero.
    pub fn sub(self, rhs: u16) -> (r: SaturatingU16)
        ensures
            r.0 == if rhs <= self.0 { self.0 - rhs } else { 0 },
    {
        SaturatingU16(self.0.saturating_sub(rhs))
    }

    /// Saturating in-place addition.
    pub fn add_assign(&mut self, rhs: u16)
        ensures
            final(self).0 == if old(self).0 + rhs <= u16::MAX {
                old(self).0 + rhs
            } else {
                u16::MAX as int
            },
    {
        self.0 = self.0.saturating_add(rhs);
    }

    /// Saturating in-place subtraction.
    pub fn sub_assign(&mut self, rhs: u16)
        ensures
            final(self).0 == if rhs <= old(self).0 {
                old(self).0 - rhs
            } else {
                0
            },
    {
        self.0 = self.0.saturating_sub(rhs);
    }
}

impl From<u16> for SaturatingU16 {
    fn from(v: u16) -> (r: SaturatingU16)
        ensures
            r.0 == v,
    {
        SaturatingU16(v)
    }
}

impl vstd::std_specs::convert::FromSpecImpl<u16> for SaturatingU16 {
    open spec fn obeys_from_spec() -> bool {
        true
    }

    open spec fn from_spec(v: u16) -> SaturatingU16 {
        SaturatingU16(v)
    }
}

impl PartialEq<u16> for SaturatingU16 {
    fn eq(&self, other: &u16) -> (r: bool)
        ensures
            r == (self.0 == *other),
    {
        self.0 == *other
    }
}

impl vstd::std_specs::cmp::PartialEqSpecImpl<u16> for SaturatingU16 {
    open spec fn obeys_eq_spec() -> bool {
        true
    }

    open spec fn eq_spec(&self, other: &u16) -> bool {
        self.0 == *other
    }
}

impl PartialOrd<u16> for SaturatingU16 {
    fn partial_cmp(&self, other: &u16) -> (r: Option<core::cmp::Ordering>)
        ensures
            r == (if self.0 < *other {
                Some(core::cmp::Ordering::Less)
            } else if self.0 > *other {
                Some(core::cmp::Ordering::Greater)
            } else {
                Some(core::cmp::Ordering::Equal)
            }),
    {
        if self.0 < *other {
            Some(core::cmp::Ordering::Less)
        } else if self.0 > *other {
            Some(core::cmp::Ordering::Greater)
        } else {
            Some(core::cmp::Ordering::Equal)
        }
    }
}

impl vstd::std_specs::cmp::PartialOrdSpecImpl<u16> for SaturatingU16 {
    open spec fn obeys_partial_cmp_spec() -> bool {
        true
    }

    open spec fn partial_cmp_spec(&self, other: &u16) -> Option<core::cmp::Ordering> {
        if self.0 < *other {
            Some(core::cmp::Ordering::Less)
        } else if self.0 > *other {
            Some(core::cmp::Ordering::Greater)
        } else {
            Some(core::cmp::Ordering::Equal)
        }
    }
}

} // verus!
