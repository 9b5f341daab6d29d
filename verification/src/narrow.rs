//! Narrow-integer value types for sub-byte and odd-width header fields
//! (ECN, sequence numbers, version nibbles, DSCP, fragment offset, flow
//! label). Each wraps the smallest machine integer that holds it, with a
//! validated constructor, so an out-of-range value cannot be produced.

use vstd::prelude::*;

verus! {

/// 2-bit unsigned value.
#[derive(Clone, Copy, Debug, PartialEq, Eq, Structural)]
pub struct U2 {
    value: u8,
}

impl U2 {
    #[verifier::type_invariant]
    closed spec fn inv(self) -> bool {
        self.value < 4
    }

    pub closed spec fn spec_value(self) -> u8 {
        self.value
    }

    pub fn new(value: u8) -> (r: Self)
        requires
            value < 4,
        ensures
            r.spec_value() == value,
    {
        U2 { value }
    }

    pub fn value(self) -> (r: u8)
        ensures
            r == self.spec_value(),
            r < 4,
    {
        proof {
            use_type_invariant(self);
        }
        self.value
    }
}

/// 3-bit unsigned value.
#[derive(Clone, Copy, Debug, PartialEq, Eq, Structural)]
pub struct U3 {
    value: u8,
}

impl U3 {
    #[verifier::type_invariant]
    closed spec fn inv(self) -> bool {
        self.value < 8
    }

    pub closed spec fn spec_value(self) -> u8 {
        self.value
    }

    pub fn new(value: u8) -> (r: Self)
        requires
            value < 8,
        ensures
            r.spec_value() == value,
    {
        U3 { value }
    }

    pub fn value(self) -> (r: u8)
        ensures
            r == self.spec_value(),
            r < 8,
    {
        proof {
            use_type_invariant(self);
        }
        self.value
    }
}

/// 4-bit unsigned value.
#[derive(Clone, Copy, Debug, PartialEq, Eq, Structural)]
pub struct U4 {
    value: u8,
}

impl U4 {
    #[verifier::type_invariant]
    closed spec fn inv(self) -> bool {
        self.value < 16
    }

    pub closed spec fn spec_value(self) -> u8 {
        self.value
    }

    pub fn new(value: u8) -> (r: Self)
        requires
            value < 16,
        ensures
            r.spec_value() == value,
    {
        U4 { value }
    }

    pub fn value(self) -> (r: u8)
        ensures
            r == self.spec_value(),
            r < 16,
    {
        proof {
            use_type_invariant(self);
        }
        self.value
    }
}

/// 6-bit unsigned value.
#[derive(Clone, Copy, Debug, PartialEq, Eq, Structural)]
pub struct U6 {
    value: u8,
}

impl U6 {
    #[verifier::type_invariant]
    closed spec fn inv(self) -> bool {
        self.value < 64
    }

    pub closed spec fn spec_value(self) -> u8 {
        self.value
    }

    pub fn new(value: u8) -> (r: Self)
        requires
            value < 64,
        ensures
            r.spec_value() == value,
    {
        U6 { value }
    }

    pub fn value(self) -> (r: u8)
        ensures
            r == self.spec_value(),
            r < 64,
    {
        proof {
            use_type_invariant(self);
        }
        self.value
    }
}

/// 7-bit unsigned value.
#[derive(Clone, Copy, Debug, PartialEq, Eq, Structural)]
pub struct U7 {
    value: u8,
}

impl U7 {
    #[verifier::type_invariant]
    closed spec fn inv(self) -> bool {
        self.value < 128
    }

    pub closed spec fn spec_value(self) -> u8 {
        self.value
    }

    pub fn new(value: u8) -> (r: Self)
        requires
            value < 128,
        ensures
            r.spec_value() == value,
    {
        U7 { value }
    }

    pub fn value(self) -> (r: u8)
        ensures
            r == self.spec_value(),
            r < 128,
    {
        proof {
            use_type_invariant(self);
        }
        self.value
    }
}

/// 13-bit unsigned value.
#[derive(Clone, Copy, Debug, PartialEq, Eq, Structural)]
pub struct U13 {
    value: u16,
}

impl U13 {
    #[verifier::type_invariant]
    closed spec fn inv(self) -> bool {
        self.value < 0x2000
    }

    pub closed spec fn spec_value(self) -> u16 {
        self.value
    }

    pub fn new(value: u16) -> (r: Self)
        requires
            value < 0x2000,
        ensures
            r.spec_value() == value,
    {
        U13 { value }
    }

    pub fn value(self) -> (r: u16)
        ensures
            r == self.spec_value(),
            r < 0x2000,
    {
        proof {
            use_type_invariant(self);
        }
        self.value
    }
}

/// 20-bit unsigned value.
#[derive(Clone, Copy, Debug, PartialEq, Eq, Structural)]
pub struct U20 {
    value: u32,
}

impl U20 {
    #[verifier::type_invariant]
    closed spec fn inv(self) -> bool {
        self.value < 0x10_0000
    }

    pub closed spec fn spec_value(self) -> u32 {
        self.value
    }

    pub fn new(value: u32) -> (r: Self)
        requires
            value < 0x10_0000,
        ensures
            r.spec_value() == value,
    {
        U20 { value }
    }

    pub fn value(self) -> (r: u32)
        ensures
            r == self.spec_value(),
            r < 0x10_0000,
    {
        proof {
            use_type_invariant(self);
        }
        self.value
    }
}

} // verus!
