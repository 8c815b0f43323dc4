use vstd::prelude::*;

verus! {

/// One atomic wire value of the protocol.
///
/// The calling runtime transports field elements of up to 252 bits; this type
/// holds such a value as four 64-bit limbs, least significant first, so that
/// codecs can reason about it limb by limb. Handler parameter and return
/// types decode from and encode into ordered sequences of these scalars.
#[derive(Clone, Copy, PartialEq, Eq, Structural, Debug)]
pub struct Scalar {
    /// Bits 0..64 of the value.
    pub w0: u64,
    /// Bits 64..128 of the value.
    pub w1: u64,
    /// Bits 128..192 of the value.
    pub w2: u64,
    /// Bits 192..256 of the value.
    pub w3: u64,
}

impl Scalar {
    /// The unsigned integer this scalar stands for.
    pub open spec fn value(self) -> nat {
        (self.w0 + self.w1 * 0x1_0000_0000_0000_0000 + self.w2 * 0x1_0000_0000_0000_0000_0000_0000_0000_0000
            + self.w3 * 0x1_0000_0000_0000_0000_0000_0000_0000_0000_0000_0000_0000_0000) as nat
    }

    /// True when the value fits in a single 64-bit limb.
    pub open spec fn is_small(self) -> bool {
        self.w1 == 0 && self.w2 == 0 && self.w3 == 0
    }

    /// The scalar standing for `x`.
    pub fn from_u64(x: u64) -> (r: Scalar)
        ensures
            r == (Scalar { w0: x, w1: 0, w2: 0, w3: 0 }),
            r.value() == x,
            r.is_small(),
    {
        Scalar { w0: x, w1: 0, w2: 0, w3: 0 }
    }

    /// Reads the scalar back as a `u64`; `None` when the value is too large.
    pub fn to_u64(&self) -> (r: Option<u64>)
        ensures
            r is Some <==> self.is_small(),
            r matches Some(v) ==> v == self.w0 && v == self.value(),
    {
        if self.w1 == 0 && self.w2 == 0 && self.w3 == 0 {
            Some(self.w0)
        } else {
            None
        }
    }

    /// The scalar standing for `x`, held as the two's-complement bit pattern
    /// of `x` in the low limb.
    pub fn from_i64(x: i64) -> (r: Scalar)
        ensures
            r == (Scalar { w0: x as u64, w1: 0, w2: 0, w3: 0 }),
            r.is_small(),
    {
        Scalar { w0: x as u64, w1: 0, w2: 0, w3: 0 }
    }

    /// Reads the scalar back as an `i64` from the two's-complement bit
    /// pattern in the low limb; `None` when the high limbs are occupied.
    pub fn to_i64(&self) -> (r: Option<i64>)
        ensures
            r is Some <==> self.is_small(),
            r matches Some(v) ==> v == self.w0 as i64,
    {
        if self.w1 == 0 && self.w2 == 0 && self.w3 == 0 {
            Some(self.w0 as i64)
        } else {
            None
        }
    }
}

} // verus!
