//! Unsigned integers of the widths that wire fields use and the standard
//! types lack, each held in the narrowest standard container. Each value stays below `2^w`, every
//! operation masks its result to the width, and the bit-cursor reader takes
//! `w` bits MSB-first.
use vstd::prelude::*;
use vstd::arithmetic::power2::{
    pow2, lemma2_to64, lemma2_to64_rest, lemma_pow2_strictly_increases, lemma_pow2_pos,
};
use vstd::bits::{lemma_u64_low_bits_mask_is_mod, lemma_u64_shl_is_mul, lemma_u64_shr_is_div};
use crate::parse::{BitCursor, Error, bits_value, take_bits_wide};

verus! {

/// A value below `2^w` is unchanged by keeping its low `w` bits: a narrow
/// value masked to its width is itself.
pub proof fn lemma_mask_keeps_value(x: u64, w: u64)
    requires
        w < 64,
        (x as nat) < pow2(w as nat),
    ensures
        x & ((1u64 << w) - 1) as u64 == x,
{
    lemma_pow2_pos(w as nat);
    lemma_pow2_strictly_increases(w as nat, 64);
    lemma2_to64();
    lemma_u64_shl_is_mul(1, w);
    lemma_u64_low_bits_mask_is_mod(x, w as nat);
    vstd::arithmetic::div_mod::lemma_small_mod(x as nat, pow2(w as nat));
}

/// The low `w` bits of `x`.
pub fn low_bits(x: u64, w: u64) -> (r: u64)
    requires
        w < 64,
    ensures
        r as nat == x as nat % pow2(w as nat),
{
    proof {
        lemma_pow2_pos(w as nat);
        lemma_pow2_strictly_increases(w as nat, 64);
        lemma2_to64();
        lemma_u64_shl_is_mul(1, w);
        lemma_u64_low_bits_mask_is_mod(x, w as nat);
    }
    x & ((1u64 << w) - 1)
}

/// `2^n` as a machine integer.
fn pow2_u64(n: u64) -> (r: u64)
    requires
        n < 64,
    ensures
        r as nat == pow2(n as nat),
        r > 0,
{
    proof {
        lemma2_to64();
        lemma_pow2_pos(n as nat);
        lemma_pow2_strictly_increases(n as nat, 64);
        lemma_u64_shl_is_mul(1, n);
    }
    1u64 << n
}

/// `x` shifted left by `n` and cut to the low `w` bits.
fn shl_low_bits(x: u64, n: u64, w: u64) -> (r: u64)
    requires
        n < 64,
        w < 64,
    ensures
        r as nat == (x as nat * pow2(n as nat)) % pow2(w as nat),
{
    let p = pow2_u64(n);
    let m = pow2_u64(w);
    assert((x as u128) * (p as u128) <= 0xFFFF_FFFF_FFFF_FFFFu128 * 0xFFFF_FFFF_FFFF_FFFFu128)
        by (nonlinear_arith)
        requires
            x <= 0xFFFF_FFFF_FFFF_FFFFu64,
            p <= 0xFFFF_FFFF_FFFF_FFFFu64,
    ;
    let r = ((x as u128) * (p as u128)) % (m as u128);
    r as u64
}

/// `x` shifted right by `n`.
fn shr_u64(x: u64, n: u64) -> (r: u64)
    requires
        n < 64,
    ensures
        r as nat == x as nat / pow2(n as nat),
        r <= x,
{
    proof {
        lemma_u64_shr_is_div(x, n);
        lemma_pow2_pos(n as nat);
        vstd::arithmetic::div_mod::lemma_div_is_ordered_by_denominator(x as int, 1, pow2(n as nat) as int);
    }
    x >> n
}

/// An unsigned integer of 1 bits, held in a `u8`.
#[derive(Debug, Clone, Copy, PartialEq, Eq, Structural, PartialOrd, Ord, Hash)]
pub struct U1 {
    value: u8,
}

impl View for U1 {
    type V = nat;

    closed spec fn view(&self) -> nat {
        self.value as nat
    }
}

impl U1 {
    /// The width in bits.
    pub const BITS: u64 = 1;

    /// The largest value, `2^1 - 1`, as its container type.
    pub const MAX: u8 = 1;

    /// The smallest value, zero, as its container type.
    pub const MIN: u8 = 0;

    #[verifier::type_invariant]
    spec fn inv(self) -> bool {
        self.value < 2
    }

    /// The value, zero-extended.
    pub fn value(&self) -> (r: u8)
        ensures
            r as nat == self@,
            r < 2,
    {
        proof {
            use_type_invariant(self);
        }
        self.value
    }

    pub fn min_value() -> (r: U1)
        ensures
            r@ == 0,
    {
        U1 { value: 0 }
    }

    pub fn max_value() -> (r: U1)
        ensures
            r@ == 1,
    {
        U1 { value: 1 }
    }

    /// Wraps a value that fits the width.
    pub fn new(value: u8) -> (r: U1)
        requires
            value < 2,
        ensures
            r@ == value,
    {
        U1 { value }
    }

    /// Wraps a value, or reports that it does not fit the width.
    pub fn try_new(value: u8) -> (r: Result<U1, crate::parse::ErrorKind>)
        ensures
            r is Ok <==> value < 2,
            r matches Ok(x) ==> x@ == value,
            r matches Err(k) ==> k == crate::parse::ErrorKind::NumericOverflow,
    {
        if value < 2 {
            Ok(U1 { value })
        } else {
            Err(crate::parse::ErrorKind::NumericOverflow)
        }
    }

    /// Addition modulo `2^1`.
    pub fn wrapping_add(self, rhs: U1) -> (r: U1)
        ensures
            r@ == (self@ + rhs@) % 2,
    {
        proof {
            use_type_invariant(self);
            use_type_invariant(rhs);
            lemma2_to64();
        }
        let v = low_bits(self.value as u64 + rhs.value as u64, 1);
        U1 { value: v as u8 }
    }

    /// Subtraction modulo `2^1`.
    pub fn wrapping_sub(self, rhs: U1) -> (r: U1)
        ensures
            r@ == (self@ + 2 - rhs@) % (2 as int),
    {
        proof {
            use_type_invariant(self);
            use_type_invariant(rhs);
            lemma2_to64();
        }
        let v = low_bits(self.value as u64 + 2 - rhs.value as u64, 1);
        U1 { value: v as u8 }
    }

    /// Bitwise AND.
    pub fn and(self, rhs: U1) -> (r: U1)
        ensures
            r@ == (self@ as u64 & rhs@ as u64) as nat % 2,
    {
        proof {
            use_type_invariant(self);
            use_type_invariant(rhs);
            lemma2_to64();
        }
        let v = low_bits(self.value as u64 & rhs.value as u64, 1);
        U1 { value: v as u8 }
    }

    /// Bitwise OR.
    pub fn or(self, rhs: U1) -> (r: U1)
        ensures
            r@ == (self@ as u64 | rhs@ as u64) as nat % 2,
    {
        proof {
            use_type_invariant(self);
            use_type_invariant(rhs);
            lemma2_to64();
        }
        let v = low_bits(self.value as u64 | rhs.value as u64, 1);
        U1 { value: v as u8 }
    }

    /// Bitwise XOR.
    pub fn xor(self, rhs: U1) -> (r: U1)
        ensures
            r@ == (self@ as u64 ^ rhs@ as u64) as nat % 2,
    {
        proof {
            use_type_invariant(self);
            use_type_invariant(rhs);
            lemma2_to64();
        }
        let v = low_bits(self.value as u64 ^ rhs.value as u64, 1);
        U1 { value: v as u8 }
    }

    /// Bitwise complement within the width.
    pub fn not(self) -> (r: U1)
        ensures
            r@ == 1 - self@,
    {
        proof {
            use_type_invariant(self);
        }
        U1 { value: 1 - self.value }
    }

    /// Shift left by `n` bits, fewer than the container holds, dropping what
    /// leaves the width.
    pub fn shl(self, n: u64) -> (r: U1)
        requires
            n < 8,
        ensures
            r@ == (self@ * pow2(n as nat)) % 2,
    {
        proof {
            use_type_invariant(self);
            lemma2_to64();
        }
        let v = shl_low_bits(self.value as u64, n, 1);
        U1 { value: v as u8 }
    }

    /// Shift right by `n` bits, fewer than the container holds.
    pub fn shr(self, n: u64) -> (r: U1)
        requires
            n < 8,
        ensures
            r@ == self@ / pow2(n as nat),
    {
        proof {
            use_type_invariant(self);
        }
        let v = shr_u64(self.value as u64, n);
        U1 { value: v as u8 }
    }

    /// Takes 1 bits at the cursor, MSB-first.
    pub fn parse(b: &[u8], c: BitCursor) -> (r: Result<(BitCursor, U1), Error>)
        requires
            c.wf(b@),
        ensures
            r is Ok <==> c.index() + 1 <= b.len() * 8,
            r matches Ok((d, x)) ==> d.wf(b@) && d.index() == c.index() + 1
                && x@ == bits_value(b@, c.index(), 1),
            r matches Err(e) ==> crate::parse::is_failure(e, c.byte as int, crate::parse::ErrorKind::NeedMore),
    {
        proof {
            lemma2_to64();
        }
        let (d, x) = take_bits_wide(b, c, 1)?;
        Ok((d, U1 { value: x as u8 }))
    }
}

/// An unsigned integer of 2 bits, held in a `u8`.
#[derive(Debug, Clone, Copy, PartialEq, Eq, Structural, PartialOrd, Ord, Hash)]
pub struct U2 {
    value: u8,
}

impl View for U2 {
    type V = nat;

    closed spec fn view(&self) -> nat {
        self.value as nat
    }
}

impl U2 {
    /// The width in bits.
    pub const BITS: u64 = 2;

    /// The largest value, `2^2 - 1`, as its container type.
    pub const MAX: u8 = 3;

    /// The smallest value, zero, as its container type.
    pub const MIN: u8 = 0;

    #[verifier::type_invariant]
    spec fn inv(self) -> bool {
        self.value < 4
    }

    /// The value, zero-extended.
    pub fn value(&self) -> (r: u8)
        ensures
            r as nat == self@,
            r < 4,
    {
        proof {
            use_type_invariant(self);
        }
        self.value
    }

    pub fn min_value() -> (r: U2)
        ensures
            r@ == 0,
    {
        U2 { value: 0 }
    }

    pub fn max_value() -> (r: U2)
        ensures
            r@ == 3,
    {
        U2 { value: 3 }
    }

    /// Wraps a value that fits the width.
    pub fn new(value: u8) -> (r: U2)
        requires
            value < 4,
        ensures
            r@ == value,
    {
        U2 { value }
    }

    /// Wraps a value, or reports that it does not fit the width.
    pub fn try_new(value: u8) -> (r: Result<U2, crate::parse::ErrorKind>)
        ensures
            r is Ok <==> value < 4,
            r matches Ok(x) ==> x@ == value,
            r matches Err(k) ==> k == crate::parse::ErrorKind::NumericOverflow,
    {
        if value < 4 {
            Ok(U2 { value })
        } else {
            Err(crate::parse::ErrorKind::NumericOverflow)
        }
    }

    /// Addition modulo `2^2`.
    pub fn wrapping_add(self, rhs: U2) -> (r: U2)
        ensures
            r@ == (self@ + rhs@) % 4,
    {
        proof {
            use_type_invariant(self);
            use_type_invariant(rhs);
            lemma2_to64();
        }
        let v = low_bits(self.value as u64 + rhs.value as u64, 2);
        U2 { value: v as u8 }
    }

    /// Subtraction modulo `2^2`.
    pub fn wrapping_sub(self, rhs: U2) -> (r: U2)
        ensures
            r@ == (self@ + 4 - rhs@) % (4 as int),
    {
        proof {
            use_type_invariant(self);
            use_type_invariant(rhs);
            lemma2_to64();
        }
        let v = low_bits(self.value as u64 + 4 - rhs.value as u64, 2);
        U2 { value: v as u8 }
    }

    /// Bitwise AND.
    pub fn and(self, rhs: U2) -> (r: U2)
        ensures
            r@ == (self@ as u64 & rhs@ as u64) as nat % 4,
    {
        proof {
            use_type_invariant(self);
            use_type_invariant(rhs);
            lemma2_to64();
        }
        let v = low_bits(self.value as u64 & rhs.value as u64, 2);
        U2 { value: v as u8 }
    }

    /// Bitwise OR.
    pub fn or(self, rhs: U2) -> (r: U2)
        ensures
            r@ == (self@ as u64 | rhs@ as u64) as nat % 4,
    {
        proof {
            use_type_invariant(self);
            use_type_invariant(rhs);
            lemma2_to64();
        }
        let v = low_bits(self.value as u64 | rhs.value as u64, 2);
        U2 { value: v as u8 }
    }

    /// Bitwise XOR.
    pub fn xor(self, rhs: U2) -> (r: U2)
        ensures
            r@ == (self@ as u64 ^ rhs@ as u64) as nat % 4,
    {
        proof {
            use_type_invariant(self);
            use_type_invariant(rhs);
            lemma2_to64();
        }
        let v = low_bits(self.value as u64 ^ rhs.value as u64, 2);
        U2 { value: v as u8 }
    }

    /// Bitwise complement within the width.
    pub fn not(self) -> (r: U2)
        ensures
            r@ == 3 - self@,
    {
        proof {
            use_type_invariant(self);
        }
        U2 { value: 3 - self.value }
    }

    /// Shift left by `n` bits, fewer than the container holds, dropping what
    /// leaves the width.
    pub fn shl(self, n: u64) -> (r: U2)
        requires
            n < 8,
        ensures
            r@ == (self@ * pow2(n as nat)) % 4,
    {
        proof {
            use_type_invariant(self);
            lemma2_to64();
        }
        let v = shl_low_bits(self.value as u64, n, 2);
        U2 { value: v as u8 }
    }

    /// Shift right by `n` bits, fewer than the container holds.
    pub fn shr(self, n: u64) -> (r: U2)
        requires
            n < 8,
        ensures
            r@ == self@ / pow2(n as nat),
    {
        proof {
            use_type_invariant(self);
        }
        let v = shr_u64(self.value as u64, n);
        U2 { value: v as u8 }
    }

    /// Takes 2 bits at the cursor, MSB-first.
    pub fn parse(b: &[u8], c: BitCursor) -> (r: Result<(BitCursor, U2), Error>)
        requires
            c.wf(b@),
        ensures
            r is Ok <==> c.index() + 2 <= b.len() * 8,
            r matches Ok((d, x)) ==> d.wf(b@) && d.index() == c.index() + 2
                && x@ == bits_value(b@, c.index(), 2),
            r matches Err(e) ==> crate::parse::is_failure(e, c.byte as int, crate::parse::ErrorKind::NeedMore),
    {
        proof {
            lemma2_to64();
        }
        let (d, x) = take_bits_wide(b, c, 2)?;
        Ok((d, U2 { value: x as u8 }))
    }
}

/// An unsigned integer of 3 bits, held in a `u8`.
#[derive(Debug, Clone, Copy, PartialEq, Eq, Structural, PartialOrd, Ord, Hash)]
pub struct U3 {
    value: u8,
}

impl View for U3 {
    type V = nat;

    closed spec fn view(&self) -> nat {
        self.value as nat
    }
}

impl U3 {
    /// The width in bits.
    pub const BITS: u64 = 3;

    /// The largest value, `2^3 - 1`, as its container type.
    pub const MAX: u8 = 7;

    /// The smallest value, zero, as its container type.
    pub const MIN: u8 = 0;

    #[verifier::type_invariant]
    spec fn inv(self) -> bool {
        self.value < 8
    }

    /// The value, zero-extended.
    pub fn value(&self) -> (r: u8)
        ensures
            r as nat == self@,
            r < 8,
    {
        proof {
            use_type_invariant(self);
        }
        self.value
    }

    pub fn min_value() -> (r: U3)
        ensures
            r@ == 0,
    {
        U3 { value: 0 }
    }

    pub fn max_value() -> (r: U3)
        ensures
            r@ == 7,
    {
        U3 { value: 7 }
    }

    /// Wraps a value that fits the width.
    pub fn new(value: u8) -> (r: U3)
        requires
            value < 8,
        ensures
            r@ == value,
    {
        U3 { value }
    }

    /// Wraps a value, or reports that it does not fit the width.
    pub fn try_new(value: u8) -> (r: Result<U3, crate::parse::ErrorKind>)
        ensures
            r is Ok <==> value < 8,
            r matches Ok(x) ==> x@ == value,
            r matches Err(k) ==> k == crate::parse::ErrorKind::NumericOverflow,
    {
        if value < 8 {
            Ok(U3 { value })
        } else {
            Err(crate::parse::ErrorKind::NumericOverflow)
        }
    }

    /// Addition modulo `2^3`.
    pub fn wrapping_add(self, rhs: U3) -> (r: U3)
        ensures
            r@ == (self@ + rhs@) % 8,
    {
        proof {
            use_type_invariant(self);
            use_type_invariant(rhs);
            lemma2_to64();
        }
        let v = low_bits(self.value as u64 + rhs.value as u64, 3);
        U3 { value: v as u8 }
    }

    /// Subtraction modulo `2^3`.
    pub fn wrapping_sub(self, rhs: U3) -> (r: U3)
        ensures
            r@ == (self@ + 8 - rhs@) % (8 as int),
    {
        proof {
            use_type_invariant(self);
            use_type_invariant(rhs);
            lemma2_to64();
        }
        let v = low_bits(self.value as u64 + 8 - rhs.value as u64, 3);
        U3 { value: v as u8 }
    }

    /// Bitwise AND.
    pub fn and(self, rhs: U3) -> (r: U3)
        ensures
            r@ == (self@ as u64 & rhs@ as u64) as nat % 8,
    {
        proof {
            use_type_invariant(self);
            use_type_invariant(rhs);
            lemma2_to64();
        }
        let v = low_bits(self.value as u64 & rhs.value as u64, 3);
        U3 { value: v as u8 }
    }

    /// Bitwise OR.
    pub fn or(self, rhs: U3) -> (r: U3)
        ensures
            r@ == (self@ as u64 | rhs@ as u64) as nat % 8,
    {
        proof {
            use_type_invariant(self);
            use_type_invariant(rhs);
            lemma2_to64();
        }
        let v = low_bits(self.value as u64 | rhs.value as u64, 3);
        U3 { value: v as u8 }
    }

    /// Bitwise XOR.
    pub fn xor(self, rhs: U3) -> (r: U3)
        ensures
            r@ == (self@ as u64 ^ rhs@ as u64) as nat % 8,
    {
        proof {
            use_type_invariant(self);
            use_type_invariant(rhs);
            lemma2_to64();
        }
        let v = low_bits(self.value as u64 ^ rhs.value as u64, 3);
        U3 { value: v as u8 }
    }

    /// Bitwise complement within the width.
    pub fn not(self) -> (r: U3)
        ensures
            r@ == 7 - self@,
    {
        proof {
            use_type_invariant(self);
        }
        U3 { value: 7 - self.value }
    }

    /// Shift left by `n` bits, fewer than the container holds, dropping what
    /// leaves the width.
    pub fn shl(self, n: u64) -> (r: U3)
        requires
            n < 8,
        ensures
            r@ == (self@ * pow2(n as nat)) % 8,
    {
        proof {
            use_type_invariant(self);
            lemma2_to64();
        }
        let v = shl_low_bits(self.value as u64, n, 3);
        U3 { value: v as u8 }
    }

    /// Shift right by `n` bits, fewer than the container holds.
    pub fn shr(self, n: u64) -> (r: U3)
        requires
            n < 8,
        ensures
            r@ == self@ / pow2(n as nat),
    {
        proof {
            use_type_invariant(self);
        }
        let v = shr_u64(self.value as u64, n);
        U3 { value: v as u8 }
    }

    /// Takes 3 bits at the cursor, MSB-first.
    pub fn parse(b: &[u8], c: BitCursor) -> (r: Result<(BitCursor, U3), Error>)
        requires
            c.wf(b@),
        ensures
            r is Ok <==> c.index() + 3 <= b.len() * 8,
            r matches Ok((d, x)) ==> d.wf(b@) && d.index() == c.index() + 3
                && x@ == bits_value(b@, c.index(), 3),
            r matches Err(e) ==> crate::parse::is_failure(e, c.byte as int, crate::parse::ErrorKind::NeedMore),
    {
        proof {
            lemma2_to64();
        }
        let (d, x) = take_bits_wide(b, c, 3)?;
        Ok((d, U3 { value: x as u8 }))
    }
}

/// An unsigned integer of 4 bits, held in a `u8`.
#[derive(Debug, Clone, Copy, PartialEq, Eq, Structural, PartialOrd, Ord, Hash)]
pub struct U4 {
    value: u8,
}

impl View for U4 {
    type V = nat;

    closed spec fn view(&self) -> nat {
        self.value as nat
    }
}

impl U4 {
    /// The width in bits.
    pub const BITS: u64 = 4;

    /// The largest value, `2^4 - 1`, as its container type.
    pub const MAX: u8 = 15;

    /// The smallest value, zero, as its container type.
    pub const MIN: u8 = 0;

    #[verifier::type_invariant]
    spec fn inv(self) -> bool {
        self.value < 16
    }

    /// The value, zero-extended.
    pub fn value(&self) -> (r: u8)
        ensures
            r as nat == self@,
            r < 16,
    {
        proof {
            use_type_invariant(self);
        }
        self.value
    }

    pub fn min_value() -> (r: U4)
        ensures
            r@ == 0,
    {
        U4 { value: 0 }
    }

    pub fn max_value() -> (r: U4)
        ensures
            r@ == 15,
    {
        U4 { value: 15 }
    }

    /// Wraps a value that fits the width.
    pub fn new(value: u8) -> (r: U4)
        requires
            value < 16,
        ensures
            r@ == value,
    {
        U4 { value }
    }

    /// Wraps a value, or reports that it does not fit the width.
    pub fn try_new(value: u8) -> (r: Result<U4, crate::parse::ErrorKind>)
        ensures
            r is Ok <==> value < 16,
            r matches Ok(x) ==> x@ == value,
            r matches Err(k) ==> k == crate::parse::ErrorKind::NumericOverflow,
    {
        if value < 16 {
            Ok(U4 { value })
        } else {
            Err(crate::parse::ErrorKind::NumericOverflow)
        }
    }

    /// Addition modulo `2^4`.
    pub fn wrapping_add(self, rhs: U4) -> (r: U4)
        ensures
            r@ == (self@ + rhs@) % 16,
    {
        proof {
            use_type_invariant(self);
            use_type_invariant(rhs);
            lemma2_to64();
        }
        let v = low_bits(self.value as u64 + rhs.value as u64, 4);
        U4 { value: v as u8 }
    }

    /// Subtraction modulo `2^4`.
    pub fn wrapping_sub(self, rhs: U4) -> (r: U4)
        ensures
            r@ == (self@ + 16 - rhs@) % (16 as int),
    {
        proof {
            use_type_invariant(self);
            use_type_invariant(rhs);
            lemma2_to64();
        }
        let v = low_bits(self.value as u64 + 16 - rhs.value as u64, 4);
        U4 { value: v as u8 }
    }

    /// Bitwise AND.
    pub fn and(self, rhs: U4) -> (r: U4)
        ensures
            r@ == (self@ as u64 & rhs@ as u64) as nat % 16,
    {
        proof {
            use_type_invariant(self);
            use_type_invariant(rhs);
            lemma2_to64();
        }
        let v = low_bits(self.value as u64 & rhs.value as u64, 4);
        U4 { value: v as u8 }
    }

    /// Bitwise OR.
    pub fn or(self, rhs: U4) -> (r: U4)
        ensures
            r@ == (self@ as u64 | rhs@ as u64) as nat % 16,
    {
        proof {
            use_type_invariant(self);
            use_type_invariant(rhs);
            lemma2_to64();
        }
        let v = low_bits(self.value as u64 | rhs.value as u64, 4);
        U4 { value: v as u8 }
    }

    /// Bitwise XOR.
    pub fn xor(self, rhs: U4) -> (r: U4)
        ensures
            r@ == (self@ as u64 ^ rhs@ as u64) as nat % 16,
    {
        proof {
            use_type_invariant(self);
            use_type_invariant(rhs);
            lemma2_to64();
        }
        let v = low_bits(self.value as u64 ^ rhs.value as u64, 4);
        U4 { value: v as u8 }
    }

    /// Bitwise complement within the width.
    pub fn not(self) -> (r: U4)
        ensures
            r@ == 15 - self@,
    {
        proof {
            use_type_invariant(self);
        }
        U4 { value: 15 - self.value }
    }

    /// Shift left by `n` bits, fewer than the container holds, dropping what
    /// leaves the width.
    pub fn shl(self, n: u64) -> (r: U4)
        requires
            n < 8,
        ensures
            r@ == (self@ * pow2(n as nat)) % 16,
    {
        proof {
            use_type_invariant(self);
            lemma2_to64();
        }
        let v = shl_low_bits(self.value as u64, n, 4);
        U4 { value: v as u8 }
    }

    /// Shift right by `n` bits, fewer than the container holds.
    pub fn shr(self, n: u64) -> (r: U4)
        requires
            n < 8,
        ensures
            r@ == self@ / pow2(n as nat),
    {
        proof {
            use_type_invariant(self);
        }
        let v = shr_u64(self.value as u64, n);
        U4 { value: v as u8 }
    }

    /// Takes 4 bits at the cursor, MSB-first.
    pub fn parse(b: &[u8], c: BitCursor) -> (r: Result<(BitCursor, U4), Error>)
        requires
            c.wf(b@),
        ensures
            r is Ok <==> c.index() + 4 <= b.len() * 8,
            r matches Ok((d, x)) ==> d.wf(b@) && d.index() == c.index() + 4
                && x@ == bits_value(b@, c.index(), 4),
            r matches Err(e) ==> crate::parse::is_failure(e, c.byte as int, crate::parse::ErrorKind::NeedMore),
    {
        proof {
            lemma2_to64();
        }
        let (d, x) = take_bits_wide(b, c, 4)?;
        Ok((d, U4 { value: x as u8 }))
    }
}

/// An unsigned integer of 5 bits, held in a `u8`.
#[derive(Debug, Clone, Copy, PartialEq, Eq, Structural, PartialOrd, Ord, Hash)]
pub struct U5 {
    value: u8,
}

impl View for U5 {
    type V = nat;

    closed spec fn view(&self) -> nat {
        self.value as nat
    }
}

impl U5 {
    /// The width in bits.
    pub const BITS: u64 = 5;

    /// The largest value, `2^5 - 1`, as its container type.
    pub const MAX: u8 = 31;

    /// The smallest value, zero, as its container type.
    pub const MIN: u8 = 0;

    #[verifier::type_invariant]
    spec fn inv(self) -> bool {
        self.value < 32
    }

    /// The value, zero-extended.
    pub fn value(&self) -> (r: u8)
        ensures
            r as nat == self@,
            r < 32,
    {
        proof {
            use_type_invariant(self);
        }
        self.value
    }

    pub fn min_value() -> (r: U5)
        ensures
            r@ == 0,
    {
        U5 { value: 0 }
    }

    pub fn max_value() -> (r: U5)
        ensures
            r@ == 31,
    {
        U5 { value: 31 }
    }

    /// Wraps a value that fits the width.
    pub fn new(value: u8) -> (r: U5)
        requires
            value < 32,
        ensures
            r@ == value,
    {
        U5 { value }
    }

    /// Wraps a value, or reports that it does not fit the width.
    pub fn try_new(value: u8) -> (r: Result<U5, crate::parse::ErrorKind>)
        ensures
            r is Ok <==> value < 32,
            r matches Ok(x) ==> x@ == value,
            r matches Err(k) ==> k == crate::parse::ErrorKind::NumericOverflow,
    {
        if value < 32 {
            Ok(U5 { value })
        } else {
            Err(crate::parse::ErrorKind::NumericOverflow)
        }
    }

    /// Addition modulo `2^5`.
    pub fn wrapping_add(self, rhs: U5) -> (r: U5)
        ensures
            r@ == (self@ + rhs@) % 32,
    {
        proof {
            use_type_invariant(self);
            use_type_invariant(rhs);
            lemma2_to64();
        }
        let v = low_bits(self.value as u64 + rhs.value as u64, 5);
        U5 { value: v as u8 }
    }

    /// Subtraction modulo `2^5`.
    pub fn wrapping_sub(self, rhs: U5) -> (r: U5)
        ensures
            r@ == (self@ + 32 - rhs@) % (32 as int),
    {
        proof {
            use_type_invariant(self);
            use_type_invariant(rhs);
            lemma2_to64();
        }
        let v = low_bits(self.value as u64 + 32 - rhs.value as u64, 5);
        U5 { value: v as u8 }
    }

    /// Bitwise AND.
    pub fn and(self, rhs: U5) -> (r: U5)
        ensures
            r@ == (self@ as u64 & rhs@ as u64) as nat % 32,
    {
        proof {
            use_type_invariant(self);
            use_type_invariant(rhs);
            lemma2_to64();
        }
        let v = low_bits(self.value as u64 & rhs.value as u64, 5);
        U5 { value: v as u8 }
    }

    /// Bitwise OR.
    pub fn or(self, rhs: U5) -> (r: U5)
        ensures
            r@ == (self@ as u64 | rhs@ as u64) as nat % 32,
    {
        proof {
            use_type_invariant(self);
            use_type_invariant(rhs);
            lemma2_to64();
        }
        let v = low_bits(self.value as u64 | rhs.value as u64, 5);
        U5 { value: v as u8 }
    }

    /// Bitwise XOR.
    pub fn xor(self, rhs: U5) -> (r: U5)
        ensures
            r@ == (self@ as u64 ^ rhs@ as u64) as nat % 32,
    {
        proof {
            use_type_invariant(self);
            use_type_invariant(rhs);
            lemma2_to64();
        }
        let v = low_bits(self.value as u64 ^ rhs.value as u64, 5);
        U5 { value: v as u8 }
    }

    /// Bitwise complement within the width.
    pub fn not(self) -> (r: U5)
        ensures
            r@ == 31 - self@,
    {
        proof {
            use_type_invariant(self);
        }
        U5 { value: 31 - self.value }
    }

    /// Shift left by `n` bits, fewer than the container holds, dropping what
    /// leaves the width.
    pub fn shl(self, n: u64) -> (r: U5)
        requires
            n < 8,
        ensures
            r@ == (self@ * pow2(n as nat)) % 32,
    {
        proof {
            use_type_invariant(self);
            lemma2_to64();
        }
        let v = shl_low_bits(self.value as u64, n, 5);
        U5 { value: v as u8 }
    }

    /// Shift right by `n` bits, fewer than the container holds.
    pub fn shr(self, n: u64) -> (r: U5)
        requires
            n < 8,
        ensures
            r@ == self@ / pow2(n as nat),
    {
        proof {
            use_type_invariant(self);
        }
        let v = shr_u64(self.value as u64, n);
        U5 { value: v as u8 }
    }

    /// Takes 5 bits at the cursor, MSB-first.
    pub fn parse(b: &[u8], c: BitCursor) -> (r: Result<(BitCursor, U5), Error>)
        requires
            c.wf(b@),
        ensures
            r is Ok <==> c.index() + 5 <= b.len() * 8,
            r matches Ok((d, x)) ==> d.wf(b@) && d.index() == c.index() + 5
                && x@ == bits_value(b@, c.index(), 5),
            r matches Err(e) ==> crate::parse::is_failure(e, c.byte as int, crate::parse::ErrorKind::NeedMore),
    {
        proof {
            lemma2_to64();
        }
        let (d, x) = take_bits_wide(b, c, 5)?;
        Ok((d, U5 { value: x as u8 }))
    }
}

/// An unsigned integer of 6 bits, held in a `u8`.
#[derive(Debug, Clone, Copy, PartialEq, Eq, Structural, PartialOrd, Ord, Hash)]
pub struct U6 {
    value: u8,
}

impl View for U6 {
    type V = nat;

    closed spec fn view(&self) -> nat {
        self.value as nat
    }
}

impl U6 {
    /// The width in bits.
    pub const BITS: u64 = 6;

    /// The largest value, `2^6 - 1`, as its container type.
    pub const MAX: u8 = 63;

    /// The smallest value, zero, as its container type.
    pub const MIN: u8 = 0;

    #[verifier::type_invariant]
    spec fn inv(self) -> bool {
        self.value < 64
    }

    /// The value, zero-extended.
    pub fn value(&self) -> (r: u8)
        ensures
            r as nat == self@,
            r < 64,
    {
        proof {
            use_type_invariant(self);
        }
        self.value
    }

    pub fn min_value() -> (r: U6)
        ensures
            r@ == 0,
    {
        U6 { value: 0 }
    }

    pub fn max_value() -> (r: U6)
        ensures
            r@ == 63,
    {
        U6 { value: 63 }
    }

    /// Wraps a value that fits the width.
    pub fn new(value: u8) -> (r: U6)
        requires
            value < 64,
        ensures
            r@ == value,
    {
        U6 { value }
    }

    /// Wraps a value, or reports that it does not fit the width.
    pub fn try_new(value: u8) -> (r: Result<U6, crate::parse::ErrorKind>)
        ensures
            r is Ok <==> value < 64,
            r matches Ok(x) ==> x@ == value,
            r matches Err(k) ==> k == crate::parse::ErrorKind::NumericOverflow,
    {
        if value < 64 {
            Ok(U6 { value })
        } else {
            Err(crate::parse::ErrorKind::NumericOverflow)
        }
    }

    /// Addition modulo `2^6`.
    pub fn wrapping_add(self, rhs: U6) -> (r: U6)
        ensures
            r@ == (self@ + rhs@) % 64,
    {
        proof {
            use_type_invariant(self);
            use_type_invariant(rhs);
            lemma2_to64();
        }
        let v = low_bits(self.value as u64 + rhs.value as u64, 6);
        U6 { value: v as u8 }
    }

    /// Subtraction modulo `2^6`.
    pub fn wrapping_sub(self, rhs: U6) -> (r: U6)
        ensures
            r@ == (self@ + 64 - rhs@) % (64 as int),
    {
        proof {
            use_type_invariant(self);
            use_type_invariant(rhs);
            lemma2_to64();
        }
        let v = low_bits(self.value as u64 + 64 - rhs.value as u64, 6);
        U6 { value: v as u8 }
    }

    /// Bitwise AND.
    pub fn and(self, rhs: U6) -> (r: U6)
        ensures
            r@ == (self@ as u64 & rhs@ as u64) as nat % 64,
    {
        proof {
            use_type_invariant(self);
            use_type_invariant(rhs);
            lemma2_to64();
        }
        let v = low_bits(self.value as u64 & rhs.value as u64, 6);
        U6 { value: v as u8 }
    }

    /// Bitwise OR.
    pub fn or(self, rhs: U6) -> (r: U6)
        ensures
            r@ == (self@ as u64 | rhs@ as u64) as nat % 64,
    {
        proof {
            use_type_invariant(self);
            use_type_invariant(rhs);
            lemma2_to64();
        }
        let v = low_bits(self.value as u64 | rhs.value as u64, 6);
        U6 { value: v as u8 }
    }

    /// Bitwise XOR.
    pub fn xor(self, rhs: U6) -> (r: U6)
        ensures
            r@ == (self@ as u64 ^ rhs@ as u64) as nat % 64,
    {
        proof {
            use_type_invariant(self);
            use_type_invariant(rhs);
            lemma2_to64();
        }
        let v = low_bits(self.value as u64 ^ rhs.value as u64, 6);
        U6 { value: v as u8 }
    }

    /// Bitwise complement within the width.
    pub fn not(self) -> (r: U6)
        ensures
            r@ == 63 - self@,
    {
        proof {
            use_type_invariant(self);
        }
        U6 { value: 63 - self.value }
    }

    /// Shift left by `n` bits, fewer than the container holds, dropping what
    /// leaves the width.
    pub fn shl(self, n: u64) -> (r: U6)
        requires
            n < 8,
        ensures
            r@ == (self@ * pow2(n as nat)) % 64,
    {
        proof {
            use_type_invariant(self);
            lemma2_to64();
        }
        let v = shl_low_bits(self.value as u64, n, 6);
        U6 { value: v as u8 }
    }

    /// Shift right by `n` bits, fewer than the container holds.
    pub fn shr(self, n: u64) -> (r: U6)
        requires
            n < 8,
        ensures
            r@ == self@ / pow2(n as nat),
    {
        proof {
            use_type_invariant(self);
        }
        let v = shr_u64(self.value as u64, n);
        U6 { value: v as u8 }
    }

    /// Takes 6 bits at the cursor, MSB-first.
    pub fn parse(b: &[u8], c: BitCursor) -> (r: Result<(BitCursor, U6), Error>)
        requires
            c.wf(b@),
        ensures
            r is Ok <==> c.index() + 6 <= b.len() * 8,
            r matches Ok((d, x)) ==> d.wf(b@) && d.index() == c.index() + 6
                && x@ == bits_value(b@, c.index(), 6),
            r matches Err(e) ==> crate::parse::is_failure(e, c.byte as int, crate::parse::ErrorKind::NeedMore),
    {
        proof {
            lemma2_to64();
        }
        let (d, x) = take_bits_wide(b, c, 6)?;
        Ok((d, U6 { value: x as u8 }))
    }
}

/// An unsigned integer of 7 bits, held in a `u8`.
#[derive(Debug, Clone, Copy, PartialEq, Eq, Structural, PartialOrd, Ord, Hash)]
pub struct U7 {
    value: u8,
}

impl View for U7 {
    type V = nat;

    closed spec fn view(&self) -> nat {
        self.value as nat
    }
}

impl U7 {
    /// The width in bits.
    pub const BITS: u64 = 7;

    /// The largest value, `2^7 - 1`, as its container type.
    pub const MAX: u8 = 127;

    /// The smallest value, zero, as its container type.
    pub const MIN: u8 = 0;

    #[verifier::type_invariant]
    spec fn inv(self) -> bool {
        self.value < 128
    }

    /// The value, zero-extended.
    pub fn value(&self) -> (r: u8)
        ensures
            r as nat == self@,
            r < 128,
    {
        proof {
            use_type_invariant(self);
        }
        self.value
    }

    pub fn min_value() -> (r: U7)
        ensures
            r@ == 0,
    {
        U7 { value: 0 }
    }

    pub fn max_value() -> (r: U7)
        ensures
            r@ == 127,
    {
        U7 { value: 127 }
    }

    /// Wraps a value that fits the width.
    pub fn new(value: u8) -> (r: U7)
        requires
            value < 128,
        ensures
            r@ == value,
    {
        U7 { value }
    }

    /// Wraps a value, or reports that it does not fit the width.
    pub fn try_new(value: u8) -> (r: Result<U7, crate::parse::ErrorKind>)
        ensures
            r is Ok <==> value < 128,
            r matches Ok(x) ==> x@ == value,
            r matches Err(k) ==> k == crate::parse::ErrorKind::NumericOverflow,
    {
        if value < 128 {
            Ok(U7 { value })
        } else {
            Err(crate::parse::ErrorKind::NumericOverflow)
        }
    }

    /// Addition modulo `2^7`.
    pub fn wrapping_add(self, rhs: U7) -> (r: U7)
        ensures
            r@ == (self@ + rhs@) % 128,
    {
        proof {
            use_type_invariant(self);
            use_type_invariant(rhs);
            lemma2_to64();
        }
        let v = low_bits(self.value as u64 + rhs.value as u64, 7);
        U7 { value: v as u8 }
    }

    /// Subtraction modulo `2^7`.
    pub fn wrapping_sub(self, rhs: U7) -> (r: U7)
        ensures
            r@ == (self@ + 128 - rhs@) % (128 as int),
    {
        proof {
            use_type_invariant(self);
            use_type_invariant(rhs);
            lemma2_to64();
        }
        let v = low_bits(self.value as u64 + 128 - rhs.value as u64, 7);
        U7 { value: v as u8 }
    }

    /// Bitwise AND.
    pub fn and(self, rhs: U7) -> (r: U7)
        ensures
            r@ == (self@ as u64 & rhs@ as u64) as nat % 128,
    {
        proof {
            use_type_invariant(self);
            use_type_invariant(rhs);
            lemma2_to64();
        }
        let v = low_bits(self.value as u64 & rhs.value as u64, 7);
        U7 { value: v as u8 }
    }

    /// Bitwise OR.
    pub fn or(self, rhs: U7) -> (r: U7)
        ensures
            r@ == (self@ as u64 | rhs@ as u64) as nat % 128,
    {
        proof {
            use_type_invariant(self);
            use_type_invariant(rhs);
            lemma2_to64();
        }
        let v = low_bits(self.value as u64 | rhs.value as u64, 7);
        U7 { value: v as u8 }
    }

    /// Bitwise XOR.
    pub fn xor(self, rhs: U7) -> (r: U7)
        ensures
            r@ == (self@ as u64 ^ rhs@ as u64) as nat % 128,
    {
        proof {
            use_type_invariant(self);
            use_type_invariant(rhs);
            lemma2_to64();
        }
        let v = low_bits(self.value as u64 ^ rhs.value as u64, 7);
        U7 { value: v as u8 }
    }

    /// Bitwise complement within the width.
    pub fn not(self) -> (r: U7)
        ensures
            r@ == 127 - self@,
    {
        proof {
            use_type_invariant(self);
        }
        U7 { value: 127 - self.value }
    }

    /// Shift left by `n` bits, fewer than the container holds, dropping what
    /// leaves the width.
    pub fn shl(self, n: u64) -> (r: U7)
        requires
            n < 8,
        ensures
            r@ == (self@ * pow2(n as nat)) % 128,
    {
        proof {
            use_type_invariant(self);
            lemma2_to64();
        }
        let v = shl_low_bits(self.value as u64, n, 7);
        U7 { value: v as u8 }
    }

    /// Shift right by `n` bits, fewer than the container holds.
    pub fn shr(self, n: u64) -> (r: U7)
        requires
            n < 8,
        ensures
            r@ == self@ / pow2(n as nat),
    {
        proof {
            use_type_invariant(self);
        }
        let v = shr_u64(self.value as u64, n);
        U7 { value: v as u8 }
    }

    /// Takes 7 bits at the cursor, MSB-first.
    pub fn parse(b: &[u8], c: BitCursor) -> (r: Result<(BitCursor, U7), Error>)
        requires
            c.wf(b@),
        ensures
            r is Ok <==> c.index() + 7 <= b.len() * 8,
            r matches Ok((d, x)) ==> d.wf(b@) && d.index() == c.index() + 7
                && x@ == bits_value(b@, c.index(), 7),
            r matches Err(e) ==> crate::parse::is_failure(e, c.byte as int, crate::parse::ErrorKind::NeedMore),
    {
        proof {
            lemma2_to64();
        }
        let (d, x) = take_bits_wide(b, c, 7)?;
        Ok((d, U7 { value: x as u8 }))
    }
}

/// An unsigned integer of 9 bits, held in a `u16`.
#[derive(Debug, Clone, Copy, PartialEq, Eq, Structural, PartialOrd, Ord, Hash)]
pub struct U9 {
    value: u16,
}

impl View for U9 {
    type V = nat;

    closed spec fn view(&self) -> nat {
        self.value as nat
    }
}

impl U9 {
    /// The width in bits.
    pub const BITS: u64 = 9;

    /// The largest value, `2^9 - 1`, as its container type.
    pub const MAX: u16 = 511;

    /// The smallest value, zero, as its container type.
    pub const MIN: u16 = 0;

    #[verifier::type_invariant]
    spec fn inv(self) -> bool {
        self.value < 512
    }

    /// The value, zero-extended.
    pub fn value(&self) -> (r: u16)
        ensures
            r as nat == self@,
            r < 512,
    {
        proof {
            use_type_invariant(self);
        }
        self.value
    }

    pub fn min_value() -> (r: U9)
        ensures
            r@ == 0,
    {
        U9 { value: 0 }
    }

    pub fn max_value() -> (r: U9)
        ensures
            r@ == 511,
    {
        U9 { value: 511 }
    }

    /// Wraps a value that fits the width.
    pub fn new(value: u16) -> (r: U9)
        requires
            value < 512,
        ensures
            r@ == value,
    {
        U9 { value }
    }

    /// Wraps a value, or reports that it does not fit the width.
    pub fn try_new(value: u16) -> (r: Result<U9, crate::parse::ErrorKind>)
        ensures
            r is Ok <==> value < 512,
            r matches Ok(x) ==> x@ == value,
            r matches Err(k) ==> k == crate::parse::ErrorKind::NumericOverflow,
    {
        if value < 512 {
            Ok(U9 { value })
        } else {
            Err(crate::parse::ErrorKind::NumericOverflow)
        }
    }

    /// Addition modulo `2^9`.
    pub fn wrapping_add(self, rhs: U9) -> (r: U9)
        ensures
            r@ == (self@ + rhs@) % 512,
    {
        proof {
            use_type_invariant(self);
            use_type_invariant(rhs);
            lemma2_to64();
        }
        let v = low_bits(self.value as u64 + rhs.value as u64, 9);
        U9 { value: v as u16 }
    }

    /// Subtraction modulo `2^9`.
    pub fn wrapping_sub(self, rhs: U9) -> (r: U9)
        ensures
            r@ == (self@ + 512 - rhs@) % (512 as int),
    {
        proof {
            use_type_invariant(self);
            use_type_invariant(rhs);
            lemma2_to64();
        }
        let v = low_bits(self.value as u64 + 512 - rhs.value as u64, 9);
        U9 { value: v as u16 }
    }

    /// Bitwise AND.
    pub fn and(self, rhs: U9) -> (r: U9)
        ensures
            r@ == (self@ as u64 & rhs@ as u64) as nat % 512,
    {
        proof {
            use_type_invariant(self);
            use_type_invariant(rhs);
            lemma2_to64();
        }
        let v = low_bits(self.value as u64 & rhs.value as u64, 9);
        U9 { value: v as u16 }
    }

    /// Bitwise OR.
    pub fn or(self, rhs: U9) -> (r: U9)
        ensures
            r@ == (self@ as u64 | rhs@ as u64) as nat % 512,
    {
        proof {
            use_type_invariant(self);
            use_type_invariant(rhs);
            lemma2_to64();
        }
        let v = low_bits(self.value as u64 | rhs.value as u64, 9);
        U9 { value: v as u16 }
    }

    /// Bitwise XOR.
    pub fn xor(self, rhs: U9) -> (r: U9)
        ensures
            r@ == (self@ as u64 ^ rhs@ as u64) as nat % 512,
    {
        proof {
            use_type_invariant(self);
            use_type_invariant(rhs);
            lemma2_to64();
        }
        let v = low_bits(self.value as u64 ^ rhs.value as u64, 9);
        U9 { value: v as u16 }
    }

    /// Bitwise complement within the width.
    pub fn not(self) -> (r: U9)
        ensures
            r@ == 511 - self@,
    {
        proof {
            use_type_invariant(self);
        }
        U9 { value: 511 - self.value }
    }

    /// Shift left by `n` bits, fewer than the container holds, dropping what
    /// leaves the width.
    pub fn shl(self, n: u64) -> (r: U9)
        requires
            n < 16,
        ensures
            r@ == (self@ * pow2(n as nat)) % 512,
    {
        proof {
            use_type_invariant(self);
            lemma2_to64();
        }
        let v = shl_low_bits(self.value as u64, n, 9);
        U9 { value: v as u16 }
    }

    /// Shift right by `n` bits, fewer than the container holds.
    pub fn shr(self, n: u64) -> (r: U9)
        requires
            n < 16,
        ensures
            r@ == self@ / pow2(n as nat),
    {
        proof {
            use_type_invariant(self);
        }
        let v = shr_u64(self.value as u64, n);
        U9 { value: v as u16 }
    }

    /// Takes 9 bits at the cursor, MSB-first.
    pub fn parse(b: &[u8], c: BitCursor) -> (r: Result<(BitCursor, U9), Error>)
        requires
            c.wf(b@),
        ensures
            r is Ok <==> c.index() + 9 <= b.len() * 8,
            r matches Ok((d, x)) ==> d.wf(b@) && d.index() == c.index() + 9
                && x@ == bits_value(b@, c.index(), 9),
            r matches Err(e) ==> crate::parse::is_failure(e, c.byte as int, crate::parse::ErrorKind::NeedMore),
    {
        proof {
            lemma2_to64();
        }
        let (d, x) = take_bits_wide(b, c, 9)?;
        Ok((d, U9 { value: x as u16 }))
    }
}

/// An unsigned integer of 10 bits, held in a `u16`.
#[derive(Debug, Clone, Copy, PartialEq, Eq, Structural, PartialOrd, Ord, Hash)]
pub struct U10 {
    value: u16,
}

impl View for U10 {
    type V = nat;

    closed spec fn view(&self) -> nat {
        self.value as nat
    }
}

impl U10 {
    /// The width in bits.
    pub const BITS: u64 = 10;

    /// The largest value, `2^10 - 1`, as its container type.
    pub const MAX: u16 = 1023;

    /// The smallest value, zero, as its container type.
    pub const MIN: u16 = 0;

    #[verifier::type_invariant]
    spec fn inv(self) -> bool {
        self.value < 1024
    }

    /// The value, zero-extended.
    pub fn value(&self) -> (r: u16)
        ensures
            r as nat == self@,
            r < 1024,
    {
        proof {
            use_type_invariant(self);
        }
        self.value
    }

    pub fn min_value() -> (r: U10)
        ensures
            r@ == 0,
    {
        U10 { value: 0 }
    }

    pub fn max_value() -> (r: U10)
        ensures
            r@ == 1023,
    {
        U10 { value: 1023 }
    }

    /// Wraps a value that fits the width.
    pub fn new(value: u16) -> (r: U10)
        requires
            value < 1024,
        ensures
            r@ == value,
    {
        U10 { value }
    }

    /// Wraps a value, or reports that it does not fit the width.
    pub fn try_new(value: u16) -> (r: Result<U10, crate::parse::ErrorKind>)
        ensures
            r is Ok <==> value < 1024,
            r matches Ok(x) ==> x@ == value,
            r matches Err(k) ==> k == crate::parse::ErrorKind::NumericOverflow,
    {
        if value < 1024 {
            Ok(U10 { value })
        } else {
            Err(crate::parse::ErrorKind::NumericOverflow)
        }
    }

    /// Addition modulo `2^10`.
    pub fn wrapping_add(self, rhs: U10) -> (r: U10)
        ensures
            r@ == (self@ + rhs@) % 1024,
    {
        proof {
            use_type_invariant(self);
            use_type_invariant(rhs);
            lemma2_to64();
        }
        let v = low_bits(self.value as u64 + rhs.value as u64, 10);
        U10 { value: v as u16 }
    }

    /// Subtraction modulo `2^10`.
    pub fn wrapping_sub(self, rhs: U10) -> (r: U10)
        ensures
            r@ == (self@ + 1024 - rhs@) % (1024 as int),
    {
        proof {
            use_type_invariant(self);
            use_type_invariant(rhs);
            lemma2_to64();
        }
        let v = low_bits(self.value as u64 + 1024 - rhs.value as u64, 10);
        U10 { value: v as u16 }
    }

    /// Bitwise AND.
    pub fn and(self, rhs: U10) -> (r: U10)
        ensures
            r@ == (self@ as u64 & rhs@ as u64) as nat % 1024,
    {
        proof {
            use_type_invariant(self);
            use_type_invariant(rhs);
            lemma2_to64();
        }
        let v = low_bits(self.value as u64 & rhs.value as u64, 10);
        U10 { value: v as u16 }
    }

    /// Bitwise OR.
    pub fn or(self, rhs: U10) -> (r: U10)
        ensures
            r@ == (self@ as u64 | rhs@ as u64) as nat % 1024,
    {
        proof {
            use_type_invariant(self);
            use_type_invariant(rhs);
            lemma2_to64();
        }
        let v = low_bits(self.value as u64 | rhs.value as u64, 10);
        U10 { value: v as u16 }
    }

    /// Bitwise XOR.
    pub fn xor(self, rhs: U10) -> (r: U10)
        ensures
            r@ == (self@ as u64 ^ rhs@ as u64) as nat % 1024,
    {
        proof {
            use_type_invariant(self);
            use_type_invariant(rhs);
            lemma2_to64();
        }
        let v = low_bits(self.value as u64 ^ rhs.value as u64, 10);
        U10 { value: v as u16 }
    }

    /// Bitwise complement within the width.
    pub fn not(self) -> (r: U10)
        ensures
            r@ == 1023 - self@,
    {
        proof {
            use_type_invariant(self);
        }
        U10 { value: 1023 - self.value }
    }

    /// Shift left by `n` bits, fewer than the container holds, dropping what
    /// leaves the width.
    pub fn shl(self, n: u64) -> (r: U10)
        requires
            n < 16,
        ensures
            r@ == (self@ * pow2(n as nat)) % 1024,
    {
        proof {
            use_type_invariant(self);
            lemma2_to64();
        }
        let v = shl_low_bits(self.value as u64, n, 10);
        U10 { value: v as u16 }
    }

    /// Shift right by `n` bits, fewer than the container holds.
    pub fn shr(self, n: u64) -> (r: U10)
        requires
            n < 16,
        ensures
            r@ == self@ / pow2(n as nat),
    {
        proof {
            use_type_invariant(self);
        }
        let v = shr_u64(self.value as u64, n);
        U10 { value: v as u16 }
    }

    /// Takes 10 bits at the cursor, MSB-first.
    pub fn parse(b: &[u8], c: BitCursor) -> (r: Result<(BitCursor, U10), Error>)
        requires
            c.wf(b@),
        ensures
            r is Ok <==> c.index() + 10 <= b.len() * 8,
            r matches Ok((d, x)) ==> d.wf(b@) && d.index() == c.index() + 10
                && x@ == bits_value(b@, c.index(), 10),
            r matches Err(e) ==> crate::parse::is_failure(e, c.byte as int, crate::parse::ErrorKind::NeedMore),
    {
        proof {
            lemma2_to64();
        }
        let (d, x) = take_bits_wide(b, c, 10)?;
        Ok((d, U10 { value: x as u16 }))
    }
}

/// An unsigned integer of 11 bits, held in a `u16`.
#[derive(Debug, Clone, Copy, PartialEq, Eq, Structural, PartialOrd, Ord, Hash)]
pub struct U11 {
    value: u16,
}

impl View for U11 {
    type V = nat;

    closed spec fn view(&self) -> nat {
        self.value as nat
    }
}

impl U11 {
    /// The width in bits.
    pub const BITS: u64 = 11;

    /// The largest value, `2^11 - 1`, as its container type.
    pub const MAX: u16 = 2047;

    /// The smallest value, zero, as its container type.
    pub const MIN: u16 = 0;

    #[verifier::type_invariant]
    spec fn inv(self) -> bool {
        self.value < 2048
    }

    /// The value, zero-extended.
    pub fn value(&self) -> (r: u16)
        ensures
            r as nat == self@,
            r < 2048,
    {
        proof {
            use_type_invariant(self);
        }
        self.value
    }

    pub fn min_value() -> (r: U11)
        ensures
            r@ == 0,
    {
        U11 { value: 0 }
    }

    pub fn max_value() -> (r: U11)
        ensures
            r@ == 2047,
    {
        U11 { value: 2047 }
    }

    /// Wraps a value that fits the width.
    pub fn new(value: u16) -> (r: U11)
        requires
            value < 2048,
        ensures
            r@ == value,
    {
        U11 { value }
    }

    /// Wraps a value, or reports that it does not fit the width.
    pub fn try_new(value: u16) -> (r: Result<U11, crate::parse::ErrorKind>)
        ensures
            r is Ok <==> value < 2048,
            r matches Ok(x) ==> x@ == value,
            r matches Err(k) ==> k == crate::parse::ErrorKind::NumericOverflow,
    {
        if value < 2048 {
            Ok(U11 { value })
        } else {
            Err(crate::parse::ErrorKind::NumericOverflow)
        }
    }

    /// Addition modulo `2^11`.
    pub fn wrapping_add(self, rhs: U11) -> (r: U11)
        ensures
            r@ == (self@ + rhs@) % 2048,
    {
        proof {
            use_type_invariant(self);
            use_type_invariant(rhs);
            lemma2_to64();
        }
        let v = low_bits(self.value as u64 + rhs.value as u64, 11);
        U11 { value: v as u16 }
    }

    /// Subtraction modulo `2^11`.
    pub fn wrapping_sub(self, rhs: U11) -> (r: U11)
        ensures
            r@ == (self@ + 2048 - rhs@) % (2048 as int),
    {
        proof {
            use_type_invariant(self);
            use_type_invariant(rhs);
            lemma2_to64();
        }
        let v = low_bits(self.value as u64 + 2048 - rhs.value as u64, 11);
        U11 { value: v as u16 }
    }

    /// Bitwise AND.
    pub fn and(self, rhs: U11) -> (r: U11)
        ensures
            r@ == (self@ as u64 & rhs@ as u64) as nat % 2048,
    {
        proof {
            use_type_invariant(self);
            use_type_invariant(rhs);
            lemma2_to64();
        }
        let v = low_bits(self.value as u64 & rhs.value as u64, 11);
        U11 { value: v as u16 }
    }

    /// Bitwise OR.
    pub fn or(self, rhs: U11) -> (r: U11)
        ensures
            r@ == (self@ as u64 | rhs@ as u64) as nat % 2048,
    {
        proof {
            use_type_invariant(self);
            use_type_invariant(rhs);
            lemma2_to64();
        }
        let v = low_bits(self.value as u64 | rhs.value as u64, 11);
        U11 { value: v as u16 }
    }

    /// Bitwise XOR.
    pub fn xor(self, rhs: U11) -> (r: U11)
        ensures
            r@ == (self@ as u64 ^ rhs@ as u64) as nat % 2048,
    {
        proof {
            use_type_invariant(self);
            use_type_invariant(rhs);
            lemma2_to64();
        }
        let v = low_bits(self.value as u64 ^ rhs.value as u64, 11);
        U11 { value: v as u16 }
    }

    /// Bitwise complement within the width.
    pub fn not(self) -> (r: U11)
        ensures
            r@ == 2047 - self@,
    {
        proof {
            use_type_invariant(self);
        }
        U11 { value: 2047 - self.value }
    }

    /// Shift left by `n` bits, fewer than the container holds, dropping what
    /// leaves the width.
    pub fn shl(self, n: u64) -> (r: U11)
        requires
            n < 16,
        ensures
            r@ == (self@ * pow2(n as nat)) % 2048,
    {
        proof {
            use_type_invariant(self);
            lemma2_to64();
        }
        let v = shl_low_bits(self.value as u64, n, 11);
        U11 { value: v as u16 }
    }

    /// Shift right by `n` bits, fewer than the container holds.
    pub fn shr(self, n: u64) -> (r: U11)
        requires
            n < 16,
        ensures
            r@ == self@ / pow2(n as nat),
    {
        proof {
            use_type_invariant(self);
        }
        let v = shr_u64(self.value as u64, n);
        U11 { value: v as u16 }
    }

    /// Takes 11 bits at the cursor, MSB-first.
    pub fn parse(b: &[u8], c: BitCursor) -> (r: Result<(BitCursor, U11), Error>)
        requires
            c.wf(b@),
        ensures
            r is Ok <==> c.index() + 11 <= b.len() * 8,
            r matches Ok((d, x)) ==> d.wf(b@) && d.index() == c.index() + 11
                && x@ == bits_value(b@, c.index(), 11),
            r matches Err(e) ==> crate::parse::is_failure(e, c.byte as int, crate::parse::ErrorKind::NeedMore),
    {
        proof {
            lemma2_to64();
        }
        let (d, x) = take_bits_wide(b, c, 11)?;
        Ok((d, U11 { value: x as u16 }))
    }
}

/// An unsigned integer of 12 bits, held in a `u16`.
#[derive(Debug, Clone, Copy, PartialEq, Eq, Structural, PartialOrd, Ord, Hash)]
pub struct U12 {
    value: u16,
}

impl View for U12 {
    type V = nat;

    closed spec fn view(&self) -> nat {
        self.value as nat
    }
}

impl U12 {
    /// The width in bits.
    pub const BITS: u64 = 12;

    /// The largest value, `2^12 - 1`, as its container type.
    pub const MAX: u16 = 4095;

    /// The smallest value, zero, as its container type.
    pub const MIN: u16 = 0;

    #[verifier::type_invariant]
    spec fn inv(self) -> bool {
        self.value < 4096
    }

    /// The value, zero-extended.
    pub fn value(&self) -> (r: u16)
        ensures
            r as nat == self@,
            r < 4096,
    {
        proof {
            use_type_invariant(self);
        }
        self.value
    }

    pub fn min_value() -> (r: U12)
        ensures
            r@ == 0,
    {
        U12 { value: 0 }
    }

    pub fn max_value() -> (r: U12)
        ensures
            r@ == 4095,
    {
        U12 { value: 4095 }
    }

    /// Wraps a value that fits the width.
    pub fn new(value: u16) -> (r: U12)
        requires
            value < 4096,
        ensures
            r@ == value,
    {
        U12 { value }
    }

    /// Wraps a value, or reports that it does not fit the width.
    pub fn try_new(value: u16) -> (r: Result<U12, crate::parse::ErrorKind>)
        ensures
            r is Ok <==> value < 4096,
            r matches Ok(x) ==> x@ == value,
            r matches Err(k) ==> k == crate::parse::ErrorKind::NumericOverflow,
    {
        if value < 4096 {
            Ok(U12 { value })
        } else {
            Err(crate::parse::ErrorKind::NumericOverflow)
        }
    }

    /// Addition modulo `2^12`.
    pub fn wrapping_add(self, rhs: U12) -> (r: U12)
        ensures
            r@ == (self@ + rhs@) % 4096,
    {
        proof {
            use_type_invariant(self);
            use_type_invariant(rhs);
            lemma2_to64();
        }
        let v = low_bits(self.value as u64 + rhs.value as u64, 12);
        U12 { value: v as u16 }
    }

    /// Subtraction modulo `2^12`.
    pub fn wrapping_sub(self, rhs: U12) -> (r: U12)
        ensures
            r@ == (self@ + 4096 - rhs@) % (4096 as int),
    {
        proof {
            use_type_invariant(self);
            use_type_invariant(rhs);
            lemma2_to64();
        }
        let v = low_bits(self.value as u64 + 4096 - rhs.value as u64, 12);
        U12 { value: v as u16 }
    }

    /// Bitwise AND.
    pub fn and(self, rhs: U12) -> (r: U12)
        ensures
            r@ == (self@ as u64 & rhs@ as u64) as nat % 4096,
    {
        proof {
            use_type_invariant(self);
            use_type_invariant(rhs);
            lemma2_to64();
        }
        let v = low_bits(self.value as u64 & rhs.value as u64, 12);
        U12 { value: v as u16 }
    }

    /// Bitwise OR.
    pub fn or(self, rhs: U12) -> (r: U12)
        ensures
            r@ == (self@ as u64 | rhs@ as u64) as nat % 4096,
    {
        proof {
            use_type_invariant(self);
            use_type_invariant(rhs);
            lemma2_to64();
        }
        let v = low_bits(self.value as u64 | rhs.value as u64, 12);
        U12 { value: v as u16 }
    }

    /// Bitwise XOR.
    pub fn xor(self, rhs: U12) -> (r: U12)
        ensures
            r@ == (self@ as u64 ^ rhs@ as u64) as nat % 4096,
    {
        proof {
            use_type_invariant(self);
            use_type_invariant(rhs);
            lemma2_to64();
        }
        let v = low_bits(self.value as u64 ^ rhs.value as u64, 12);
        U12 { value: v as u16 }
    }

    /// Bitwise complement within the width.
    pub fn not(self) -> (r: U12)
        ensures
            r@ == 4095 - self@,
    {
        proof {
            use_type_invariant(self);
        }
        U12 { value: 4095 - self.value }
    }

    /// Shift left by `n` bits, fewer than the container holds, dropping what
    /// leaves the width.
    pub fn shl(self, n: u64) -> (r: U12)
        requires
            n < 16,
        ensures
            r@ == (self@ * pow2(n as nat)) % 4096,
    {
        proof {
            use_type_invariant(self);
            lemma2_to64();
        }
        let v = shl_low_bits(self.value as u64, n, 12);
        U12 { value: v as u16 }
    }

    /// Shift right by `n` bits, fewer than the container holds.
    pub fn shr(self, n: u64) -> (r: U12)
        requires
            n < 16,
        ensures
            r@ == self@ / pow2(n as nat),
    {
        proof {
            use_type_invariant(self);
        }
        let v = shr_u64(self.value as u64, n);
        U12 { value: v as u16 }
    }

    /// Takes 12 bits at the cursor, MSB-first.
    pub fn parse(b: &[u8], c: BitCursor) -> (r: Result<(BitCursor, U12), Error>)
        requires
            c.wf(b@),
        ensures
            r is Ok <==> c.index() + 12 <= b.len() * 8,
            r matches Ok((d, x)) ==> d.wf(b@) && d.index() == c.index() + 12
                && x@ == bits_value(b@, c.index(), 12),
            r matches Err(e) ==> crate::parse::is_failure(e, c.byte as int, crate::parse::ErrorKind::NeedMore),
    {
        proof {
            lemma2_to64();
        }
        let (d, x) = take_bits_wide(b, c, 12)?;
        Ok((d, U12 { value: x as u16 }))
    }
}

/// An unsigned integer of 13 bits, held in a `u16`.
#[derive(Debug, Clone, Copy, PartialEq, Eq, Structural, PartialOrd, Ord, Hash)]
pub struct U13 {
    value: u16,
}

impl View for U13 {
    type V = nat;

    closed spec fn view(&self) -> nat {
        self.value as nat
    }
}

impl U13 {
    /// The width in bits.
    pub const BITS: u64 = 13;

    /// The largest value, `2^13 - 1`, as its container type.
    pub const MAX: u16 = 8191;

    /// The smallest value, zero, as its container type.
    pub const MIN: u16 = 0;

    #[verifier::type_invariant]
    spec fn inv(self) -> bool {
        self.value < 8192
    }

    /// The value, zero-extended.
    pub fn value(&self) -> (r: u16)
        ensures
            r as nat == self@,
            r < 8192,
    {
        proof {
            use_type_invariant(self);
        }
        self.value
    }

    pub fn min_value() -> (r: U13)
        ensures
            r@ == 0,
    {
        U13 { value: 0 }
    }

    pub fn max_value() -> (r: U13)
        ensures
            r@ == 8191,
    {
        U13 { value: 8191 }
    }

    /// Wraps a value that fits the width.
    pub fn new(value: u16) -> (r: U13)
        requires
            value < 8192,
        ensures
            r@ == value,
    {
        U13 { value }
    }

    /// Wraps a value, or reports that it does not fit the width.
    pub fn try_new(value: u16) -> (r: Result<U13, crate::parse::ErrorKind>)
        ensures
            r is Ok <==> value < 8192,
            r matches Ok(x) ==> x@ == value,
            r matches Err(k) ==> k == crate::parse::ErrorKind::NumericOverflow,
    {
        if value < 8192 {
            Ok(U13 { value })
        } else {
            Err(crate::parse::ErrorKind::NumericOverflow)
        }
    }

    /// Addition modulo `2^13`.
    pub fn wrapping_add(self, rhs: U13) -> (r: U13)
        ensures
            r@ == (self@ + rhs@) % 8192,
    {
        proof {
            use_type_invariant(self);
            use_type_invariant(rhs);
            lemma2_to64();
        }
        let v = low_bits(self.value as u64 + rhs.value as u64, 13);
        U13 { value: v as u16 }
    }

    /// Subtraction modulo `2^13`.
    pub fn wrapping_sub(self, rhs: U13) -> (r: U13)
        ensures
            r@ == (self@ + 8192 - rhs@) % (8192 as int),
    {
        proof {
            use_type_invariant(self);
            use_type_invariant(rhs);
            lemma2_to64();
        }
        let v = low_bits(self.value as u64 + 8192 - rhs.value as u64, 13);
        U13 { value: v as u16 }
    }

    /// Bitwise AND.
    pub fn and(self, rhs: U13) -> (r: U13)
        ensures
            r@ == (self@ as u64 & rhs@ as u64) as nat % 8192,
    {
        proof {
            use_type_invariant(self);
            use_type_invariant(rhs);
            lemma2_to64();
        }
        let v = low_bits(self.value as u64 & rhs.value as u64, 13);
        U13 { value: v as u16 }
    }

    /// Bitwise OR.
    pub fn or(self, rhs: U13) -> (r: U13)
        ensures
            r@ == (self@ as u64 | rhs@ as u64) as nat % 8192,
    {
        proof {
            use_type_invariant(self);
            use_type_invariant(rhs);
            lemma2_to64();
        }
        let v = low_bits(self.value as u64 | rhs.value as u64, 13);
        U13 { value: v as u16 }
    }

    /// Bitwise XOR.
    pub fn xor(self, rhs: U13) -> (r: U13)
        ensures
            r@ == (self@ as u64 ^ rhs@ as u64) as nat % 8192,
    {
        proof {
            use_type_invariant(self);
            use_type_invariant(rhs);
            lemma2_to64();
        }
        let v = low_bits(self.value as u64 ^ rhs.value as u64, 13);
        U13 { value: v as u16 }
    }

    /// Bitwise complement within the width.
    pub fn not(self) -> (r: U13)
        ensures
            r@ == 8191 - self@,
    {
        proof {
            use_type_invariant(self);
        }
        U13 { value: 8191 - self.value }
    }

    /// Shift left by `n` bits, fewer than the container holds, dropping what
    /// leaves the width.
    pub fn shl(self, n: u64) -> (r: U13)
        requires
            n < 16,
        ensures
            r@ == (self@ * pow2(n as nat)) % 8192,
    {
        proof {
            use_type_invariant(self);
            lemma2_to64();
        }
        let v = shl_low_bits(self.value as u64, n, 13);
        U13 { value: v as u16 }
    }

    /// Shift right by `n` bits, fewer than the container holds.
    pub fn shr(self, n: u64) -> (r: U13)
        requires
            n < 16,
        ensures
            r@ == self@ / pow2(n as nat),
    {
        proof {
            use_type_invariant(self);
        }
        let v = shr_u64(self.value as u64, n);
        U13 { value: v as u16 }
    }

    /// Takes 13 bits at the cursor, MSB-first.
    pub fn parse(b: &[u8], c: BitCursor) -> (r: Result<(BitCursor, U13), Error>)
        requires
            c.wf(b@),
        ensures
            r is Ok <==> c.index() + 13 <= b.len() * 8,
            r matches Ok((d, x)) ==> d.wf(b@) && d.index() == c.index() + 13
                && x@ == bits_value(b@, c.index(), 13),
            r matches Err(e) ==> crate::parse::is_failure(e, c.byte as int, crate::parse::ErrorKind::NeedMore),
    {
        proof {
            lemma2_to64();
        }
        let (d, x) = take_bits_wide(b, c, 13)?;
        Ok((d, U13 { value: x as u16 }))
    }
}

/// An unsigned integer of 14 bits, held in a `u16`.
#[derive(Debug, Clone, Copy, PartialEq, Eq, Structural, PartialOrd, Ord, Hash)]
pub struct U14 {
    value: u16,
}

impl View for U14 {
    type V = nat;

    closed spec fn view(&self) -> nat {
        self.value as nat
    }
}

impl U14 {
    /// The width in bits.
    pub const BITS: u64 = 14;

    /// The largest value, `2^14 - 1`, as its container type.
    pub const MAX: u16 = 16383;

    /// The smallest value, zero, as its container type.
    pub const MIN: u16 = 0;

    #[verifier::type_invariant]
    spec fn inv(self) -> bool {
        self.value < 16384
    }

    /// The value, zero-extended.
    pub fn value(&self) -> (r: u16)
        ensures
            r as nat == self@,
            r < 16384,
    {
        proof {
            use_type_invariant(self);
        }
        self.value
    }

    pub fn min_value() -> (r: U14)
        ensures
            r@ == 0,
    {
        U14 { value: 0 }
    }

    pub fn max_value() -> (r: U14)
        ensures
            r@ == 16383,
    {
        U14 { value: 16383 }
    }

    /// Wraps a value that fits the width.
    pub fn new(value: u16) -> (r: U14)
        requires
            value < 16384,
        ensures
            r@ == value,
    {
        U14 { value }
    }

    /// Wraps a value, or reports that it does not fit the width.
    pub fn try_new(value: u16) -> (r: Result<U14, crate::parse::ErrorKind>)
        ensures
            r is Ok <==> value < 16384,
            r matches Ok(x) ==> x@ == value,
            r matches Err(k) ==> k == crate::parse::ErrorKind::NumericOverflow,
    {
        if value < 16384 {
            Ok(U14 { value })
        } else {
            Err(crate::parse::ErrorKind::NumericOverflow)
        }
    }

    /// Addition modulo `2^14`.
    pub fn wrapping_add(self, rhs: U14) -> (r: U14)
        ensures
            r@ == (self@ + rhs@) % 16384,
    {
        proof {
            use_type_invariant(self);
            use_type_invariant(rhs);
            lemma2_to64();
        }
        let v = low_bits(self.value as u64 + rhs.value as u64, 14);
        U14 { value: v as u16 }
    }

    /// Subtraction modulo `2^14`.
    pub fn wrapping_sub(self, rhs: U14) -> (r: U14)
        ensures
            r@ == (self@ + 16384 - rhs@) % (16384 as int),
    {
        proof {
            use_type_invariant(self);
            use_type_invariant(rhs);
            lemma2_to64();
        }
        let v = low_bits(self.value as u64 + 16384 - rhs.value as u64, 14);
        U14 { value: v as u16 }
    }

    /// Bitwise AND.
    pub fn and(self, rhs: U14) -> (r: U14)
        ensures
            r@ == (self@ as u64 & rhs@ as u64) as nat % 16384,
    {
        proof {
            use_type_invariant(self);
            use_type_invariant(rhs);
            lemma2_to64();
        }
        let v = low_bits(self.value as u64 & rhs.value as u64, 14);
        U14 { value: v as u16 }
    }

    /// Bitwise OR.
    pub fn or(self, rhs: U14) -> (r: U14)
        ensures
            r@ == (self@ as u64 | rhs@ as u64) as nat % 16384,
    {
        proof {
            use_type_invariant(self);
            use_type_invariant(rhs);
            lemma2_to64();
        }
        let v = low_bits(self.value as u64 | rhs.value as u64, 14);
        U14 { value: v as u16 }
    }

    /// Bitwise XOR.
    pub fn xor(self, rhs: U14) -> (r: U14)
        ensures
            r@ == (self@ as u64 ^ rhs@ as u64) as nat % 16384,
    {
        proof {
            use_type_invariant(self);
            use_type_invariant(rhs);
            lemma2_to64();
        }
        let v = low_bits(self.value as u64 ^ rhs.value as u64, 14);
        U14 { value: v as u16 }
    }

    /// Bitwise complement within the width.
    pub fn not(self) -> (r: U14)
        ensures
            r@ == 16383 - self@,
    {
        proof {
            use_type_invariant(self);
        }
        U14 { value: 16383 - self.value }
    }

    /// Shift left by `n` bits, fewer than the container holds, dropping what
    /// leaves the width.
    pub fn shl(self, n: u64) -> (r: U14)
        requires
            n < 16,
        ensures
            r@ == (self@ * pow2(n as nat)) % 16384,
    {
        proof {
            use_type_invariant(self);
            lemma2_to64();
        }
        let v = shl_low_bits(self.value as u64, n, 14);
        U14 { value: v as u16 }
    }

    /// Shift right by `n` bits, fewer than the container holds.
    pub fn shr(self, n: u64) -> (r: U14)
        requires
            n < 16,
        ensures
            r@ == self@ / pow2(n as nat),
    {
        proof {
            use_type_invariant(self);
        }
        let v = shr_u64(self.value as u64, n);
        U14 { value: v as u16 }
    }

    /// Takes 14 bits at the cursor, MSB-first.
    pub fn parse(b: &[u8], c: BitCursor) -> (r: Result<(BitCursor, U14), Error>)
        requires
            c.wf(b@),
        ensures
            r is Ok <==> c.index() + 14 <= b.len() * 8,
            r matches Ok((d, x)) ==> d.wf(b@) && d.index() == c.index() + 14
                && x@ == bits_value(b@, c.index(), 14),
            r matches Err(e) ==> crate::parse::is_failure(e, c.byte as int, crate::parse::ErrorKind::NeedMore),
    {
        proof {
            lemma2_to64();
        }
        let (d, x) = take_bits_wide(b, c, 14)?;
        Ok((d, U14 { value: x as u16 }))
    }
}

/// An unsigned integer of 15 bits, held in a `u16`.
#[derive(Debug, Clone, Copy, PartialEq, Eq, Structural, PartialOrd, Ord, Hash)]
pub struct U15 {
    value: u16,
}

impl View for U15 {
    type V = nat;

    closed spec fn view(&self) -> nat {
        self.value as nat
    }
}

impl U15 {
    /// The width in bits.
    pub const BITS: u64 = 15;

    /// The largest value, `2^15 - 1`, as its container type.
    pub const MAX: u16 = 32767;

    /// The smallest value, zero, as its container type.
    pub const MIN: u16 = 0;

    #[verifier::type_invariant]
    spec fn inv(self) -> bool {
        self.value < 32768
    }

    /// The value, zero-extended.
    pub fn value(&self) -> (r: u16)
        ensures
            r as nat == self@,
            r < 32768,
    {
        proof {
            use_type_invariant(self);
        }
        self.value
    }

    pub fn min_value() -> (r: U15)
        ensures
            r@ == 0,
    {
        U15 { value: 0 }
    }

    pub fn max_value() -> (r: U15)
        ensures
            r@ == 32767,
    {
        U15 { value: 32767 }
    }

    /// Wraps a value that fits the width.
    pub fn new(value: u16) -> (r: U15)
        requires
            value < 32768,
        ensures
            r@ == value,
    {
        U15 { value }
    }

    /// Wraps a value, or reports that it does not fit the width.
    pub fn try_new(value: u16) -> (r: Result<U15, crate::parse::ErrorKind>)
        ensures
            r is Ok <==> value < 32768,
            r matches Ok(x) ==> x@ == value,
            r matches Err(k) ==> k == crate::parse::ErrorKind::NumericOverflow,
    {
        if value < 32768 {
            Ok(U15 { value })
        } else {
            Err(crate::parse::ErrorKind::NumericOverflow)
        }
    }

    /// Addition modulo `2^15`.
    pub fn wrapping_add(self, rhs: U15) -> (r: U15)
        ensures
            r@ == (self@ + rhs@) % 32768,
    {
        proof {
            use_type_invariant(self);
            use_type_invariant(rhs);
            lemma2_to64();
        }
        let v = low_bits(self.value as u64 + rhs.value as u64, 15);
        U15 { value: v as u16 }
    }

    /// Subtraction modulo `2^15`.
    pub fn wrapping_sub(self, rhs: U15) -> (r: U15)
        ensures
            r@ == (self@ + 32768 - rhs@) % (32768 as int),
    {
        proof {
            use_type_invariant(self);
            use_type_invariant(rhs);
            lemma2_to64();
        }
        let v = low_bits(self.value as u64 + 32768 - rhs.value as u64, 15);
        U15 { value: v as u16 }
    }

    /// Bitwise AND.
    pub fn and(self, rhs: U15) -> (r: U15)
        ensures
            r@ == (self@ as u64 & rhs@ as u64) as nat % 32768,
    {
        proof {
            use_type_invariant(self);
            use_type_invariant(rhs);
            lemma2_to64();
        }
        let v = low_bits(self.value as u64 & rhs.value as u64, 15);
        U15 { value: v as u16 }
    }

    /// Bitwise OR.
    pub fn or(self, rhs: U15) -> (r: U15)
        ensures
            r@ == (self@ as u64 | rhs@ as u64) as nat % 32768,
    {
        proof {
            use_type_invariant(self);
            use_type_invariant(rhs);
            lemma2_to64();
        }
        let v = low_bits(self.value as u64 | rhs.value as u64, 15);
        U15 { value: v as u16 }
    }

    /// Bitwise XOR.
    pub fn xor(self, rhs: U15) -> (r: U15)
        ensures
            r@ == (self@ as u64 ^ rhs@ as u64) as nat % 32768,
    {
        proof {
            use_type_invariant(self);
            use_type_invariant(rhs);
            lemma2_to64();
        }
        let v = low_bits(self.value as u64 ^ rhs.value as u64, 15);
        U15 { value: v as u16 }
    }

    /// Bitwise complement within the width.
    pub fn not(self) -> (r: U15)
        ensures
            r@ == 32767 - self@,
    {
        proof {
            use_type_invariant(self);
        }
        U15 { value: 32767 - self.value }
    }

    /// Shift left by `n` bits, fewer than the container holds, dropping what
    /// leaves the width.
    pub fn shl(self, n: u64) -> (r: U15)
        requires
            n < 16,
        ensures
            r@ == (self@ * pow2(n as nat)) % 32768,
    {
        proof {
            use_type_invariant(self);
            lemma2_to64();
        }
        let v = shl_low_bits(self.value as u64, n, 15);
        U15 { value: v as u16 }
    }

    /// Shift right by `n` bits, fewer than the container holds.
    pub fn shr(self, n: u64) -> (r: U15)
        requires
            n < 16,
        ensures
            r@ == self@ / pow2(n as nat),
    {
        proof {
            use_type_invariant(self);
        }
        let v = shr_u64(self.value as u64, n);
        U15 { value: v as u16 }
    }

    /// Takes 15 bits at the cursor, MSB-first.
    pub fn parse(b: &[u8], c: BitCursor) -> (r: Result<(BitCursor, U15), Error>)
        requires
            c.wf(b@),
        ensures
            r is Ok <==> c.index() + 15 <= b.len() * 8,
            r matches Ok((d, x)) ==> d.wf(b@) && d.index() == c.index() + 15
                && x@ == bits_value(b@, c.index(), 15),
            r matches Err(e) ==> crate::parse::is_failure(e, c.byte as int, crate::parse::ErrorKind::NeedMore),
    {
        proof {
            lemma2_to64();
        }
        let (d, x) = take_bits_wide(b, c, 15)?;
        Ok((d, U15 { value: x as u16 }))
    }
}

/// An unsigned integer of 17 bits, held in a `u32`.
#[derive(Debug, Clone, Copy, PartialEq, Eq, Structural, PartialOrd, Ord, Hash)]
pub struct U17 {
    value: u32,
}

impl View for U17 {
    type V = nat;

    closed spec fn view(&self) -> nat {
        self.value as nat
    }
}

impl U17 {
    /// The width in bits.
    pub const BITS: u64 = 17;

    /// The largest value, `2^17 - 1`, as its container type.
    pub const MAX: u32 = 131071;

    /// The smallest value, zero, as its container type.
    pub const MIN: u32 = 0;

    #[verifier::type_invariant]
    spec fn inv(self) -> bool {
        self.value < 131072
    }

    /// The value, zero-extended.
    pub fn value(&self) -> (r: u32)
        ensures
            r as nat == self@,
            r < 131072,
    {
        proof {
            use_type_invariant(self);
        }
        self.value
    }

    pub fn min_value() -> (r: U17)
        ensures
            r@ == 0,
    {
        U17 { value: 0 }
    }

    pub fn max_value() -> (r: U17)
        ensures
            r@ == 131071,
    {
        U17 { value: 131071 }
    }

    /// Wraps a value that fits the width.
    pub fn new(value: u32) -> (r: U17)
        requires
            value < 131072,
        ensures
            r@ == value,
    {
        U17 { value }
    }

    /// Wraps a value, or reports that it does not fit the width.
    pub fn try_new(value: u32) -> (r: Result<U17, crate::parse::ErrorKind>)
        ensures
            r is Ok <==> value < 131072,
            r matches Ok(x) ==> x@ == value,
            r matches Err(k) ==> k == crate::parse::ErrorKind::NumericOverflow,
    {
        if value < 131072 {
            Ok(U17 { value })
        } else {
            Err(crate::parse::ErrorKind::NumericOverflow)
        }
    }

    /// Addition modulo `2^17`.
    pub fn wrapping_add(self, rhs: U17) -> (r: U17)
        ensures
            r@ == (self@ + rhs@) % 131072,
    {
        proof {
            use_type_invariant(self);
            use_type_invariant(rhs);
            lemma2_to64();
        }
        let v = low_bits(self.value as u64 + rhs.value as u64, 17);
        U17 { value: v as u32 }
    }

    /// Subtraction modulo `2^17`.
    pub fn wrapping_sub(self, rhs: U17) -> (r: U17)
        ensures
            r@ == (self@ + 131072 - rhs@) % (131072 as int),
    {
        proof {
            use_type_invariant(self);
            use_type_invariant(rhs);
            lemma2_to64();
        }
        let v = low_bits(self.value as u64 + 131072 - rhs.value as u64, 17);
        U17 { value: v as u32 }
    }

    /// Bitwise AND.
    pub fn and(self, rhs: U17) -> (r: U17)
        ensures
            r@ == (self@ as u64 & rhs@ as u64) as nat % 131072,
    {
        proof {
            use_type_invariant(self);
            use_type_invariant(rhs);
            lemma2_to64();
        }
        let v = low_bits(self.value as u64 & rhs.value as u64, 17);
        U17 { value: v as u32 }
    }

    /// Bitwise OR.
    pub fn or(self, rhs: U17) -> (r: U17)
        ensures
            r@ == (self@ as u64 | rhs@ as u64) as nat % 131072,
    {
        proof {
            use_type_invariant(self);
            use_type_invariant(rhs);
            lemma2_to64();
        }
        let v = low_bits(self.value as u64 | rhs.value as u64, 17);
        U17 { value: v as u32 }
    }

    /// Bitwise XOR.
    pub fn xor(self, rhs: U17) -> (r: U17)
        ensures
            r@ == (self@ as u64 ^ rhs@ as u64) as nat % 131072,
    {
        proof {
            use_type_invariant(self);
            use_type_invariant(rhs);
            lemma2_to64();
        }
        let v = low_bits(self.value as u64 ^ rhs.value as u64, 17);
        U17 { value: v as u32 }
    }

    /// Bitwise complement within the width.
    pub fn not(self) -> (r: U17)
        ensures
            r@ == 131071 - self@,
    {
        proof {
            use_type_invariant(self);
        }
        U17 { value: 131071 - self.value }
    }

    /// Shift left by `n` bits, fewer than the container holds, dropping what
    /// leaves the width.
    pub fn shl(self, n: u64) -> (r: U17)
        requires
            n < 32,
        ensures
            r@ == (self@ * pow2(n as nat)) % 131072,
    {
        proof {
            use_type_invariant(self);
            lemma2_to64();
        }
        let v = shl_low_bits(self.value as u64, n, 17);
        U17 { value: v as u32 }
    }

    /// Shift right by `n` bits, fewer than the container holds.
    pub fn shr(self, n: u64) -> (r: U17)
        requires
            n < 32,
        ensures
            r@ == self@ / pow2(n as nat),
    {
        proof {
            use_type_invariant(self);
        }
        let v = shr_u64(self.value as u64, n);
        U17 { value: v as u32 }
    }

    /// Takes 17 bits at the cursor, MSB-first.
    pub fn parse(b: &[u8], c: BitCursor) -> (r: Result<(BitCursor, U17), Error>)
        requires
            c.wf(b@),
        ensures
            r is Ok <==> c.index() + 17 <= b.len() * 8,
            r matches Ok((d, x)) ==> d.wf(b@) && d.index() == c.index() + 17
                && x@ == bits_value(b@, c.index(), 17),
            r matches Err(e) ==> crate::parse::is_failure(e, c.byte as int, crate::parse::ErrorKind::NeedMore),
    {
        proof {
            lemma2_to64();
        }
        let (d, x) = take_bits_wide(b, c, 17)?;
        Ok((d, U17 { value: x as u32 }))
    }
}

/// An unsigned integer of 18 bits, held in a `u32`.
#[derive(Debug, Clone, Copy, PartialEq, Eq, Structural, PartialOrd, Ord, Hash)]
pub struct U18 {
    value: u32,
}

impl View for U18 {
    type V = nat;

    closed spec fn view(&self) -> nat {
        self.value as nat
    }
}

impl U18 {
    /// The width in bits.
    pub const BITS: u64 = 18;

    /// The largest value, `2^18 - 1`, as its container type.
    pub const MAX: u32 = 262143;

    /// The smallest value, zero, as its container type.
    pub const MIN: u32 = 0;

    #[verifier::type_invariant]
    spec fn inv(self) -> bool {
        self.value < 262144
    }

    /// The value, zero-extended.
    pub fn value(&self) -> (r: u32)
        ensures
            r as nat == self@,
            r < 262144,
    {
        proof {
            use_type_invariant(self);
        }
        self.value
    }

    pub fn min_value() -> (r: U18)
        ensures
            r@ == 0,
    {
        U18 { value: 0 }
    }

    pub fn max_value() -> (r: U18)
        ensures
            r@ == 262143,
    {
        U18 { value: 262143 }
    }

    /// Wraps a value that fits the width.
    pub fn new(value: u32) -> (r: U18)
        requires
            value < 262144,
        ensures
            r@ == value,
    {
        U18 { value }
    }

    /// Wraps a value, or reports that it does not fit the width.
    pub fn try_new(value: u32) -> (r: Result<U18, crate::parse::ErrorKind>)
        ensures
            r is Ok <==> value < 262144,
            r matches Ok(x) ==> x@ == value,
            r matches Err(k) ==> k == crate::parse::ErrorKind::NumericOverflow,
    {
        if value < 262144 {
            Ok(U18 { value })
        } else {
            Err(crate::parse::ErrorKind::NumericOverflow)
        }
    }

    /// Addition modulo `2^18`.
    pub fn wrapping_add(self, rhs: U18) -> (r: U18)
        ensures
            r@ == (self@ + rhs@) % 262144,
    {
        proof {
            use_type_invariant(self);
            use_type_invariant(rhs);
            lemma2_to64();
        }
        let v = low_bits(self.value as u64 + rhs.value as u64, 18);
        U18 { value: v as u32 }
    }

    /// Subtraction modulo `2^18`.
    pub fn wrapping_sub(self, rhs: U18) -> (r: U18)
        ensures
            r@ == (self@ + 262144 - rhs@) % (262144 as int),
    {
        proof {
            use_type_invariant(self);
            use_type_invariant(rhs);
            lemma2_to64();
        }
        let v = low_bits(self.value as u64 + 262144 - rhs.value as u64, 18);
        U18 { value: v as u32 }
    }

    /// Bitwise AND.
    pub fn and(self, rhs: U18) -> (r: U18)
        ensures
            r@ == (self@ as u64 & rhs@ as u64) as nat % 262144,
    {
        proof {
            use_type_invariant(self);
            use_type_invariant(rhs);
            lemma2_to64();
        }
        let v = low_bits(self.value as u64 & rhs.value as u64, 18);
        U18 { value: v as u32 }
    }

    /// Bitwise OR.
    pub fn or(self, rhs: U18) -> (r: U18)
        ensures
            r@ == (self@ as u64 | rhs@ as u64) as nat % 262144,
    {
        proof {
            use_type_invariant(self);
            use_type_invariant(rhs);
            lemma2_to64();
        }
        let v = low_bits(self.value as u64 | rhs.value as u64, 18);
        U18 { value: v as u32 }
    }

    /// Bitwise XOR.
    pub fn xor(self, rhs: U18) -> (r: U18)
        ensures
            r@ == (self@ as u64 ^ rhs@ as u64) as nat % 262144,
    {
        proof {
            use_type_invariant(self);
            use_type_invariant(rhs);
            lemma2_to64();
        }
        let v = low_bits(self.value as u64 ^ rhs.value as u64, 18);
        U18 { value: v as u32 }
    }

    /// Bitwise complement within the width.
    pub fn not(self) -> (r: U18)
        ensures
            r@ == 262143 - self@,
    {
        proof {
            use_type_invariant(self);
        }
        U18 { value: 262143 - self.value }
    }

    /// Shift left by `n` bits, fewer than the container holds, dropping what
    /// leaves the width.
    pub fn shl(self, n: u64) -> (r: U18)
        requires
            n < 32,
        ensures
            r@ == (self@ * pow2(n as nat)) % 262144,
    {
        proof {
            use_type_invariant(self);
            lemma2_to64();
        }
        let v = shl_low_bits(self.value as u64, n, 18);
        U18 { value: v as u32 }
    }

    /// Shift right by `n` bits, fewer than the container holds.
    pub fn shr(self, n: u64) -> (r: U18)
        requires
            n < 32,
        ensures
            r@ == self@ / pow2(n as nat),
    {
        proof {
            use_type_invariant(self);
        }
        let v = shr_u64(self.value as u64, n);
        U18 { value: v as u32 }
    }

    /// Takes 18 bits at the cursor, MSB-first.
    pub fn parse(b: &[u8], c: BitCursor) -> (r: Result<(BitCursor, U18), Error>)
        requires
            c.wf(b@),
        ensures
            r is Ok <==> c.index() + 18 <= b.len() * 8,
            r matches Ok((d, x)) ==> d.wf(b@) && d.index() == c.index() + 18
                && x@ == bits_value(b@, c.index(), 18),
            r matches Err(e) ==> crate::parse::is_failure(e, c.byte as int, crate::parse::ErrorKind::NeedMore),
    {
        proof {
            lemma2_to64();
        }
        let (d, x) = take_bits_wide(b, c, 18)?;
        Ok((d, U18 { value: x as u32 }))
    }
}

/// An unsigned integer of 19 bits, held in a `u32`.
#[derive(Debug, Clone, Copy, PartialEq, Eq, Structural, PartialOrd, Ord, Hash)]
pub struct U19 {
    value: u32,
}

impl View for U19 {
    type V = nat;

    closed spec fn view(&self) -> nat {
        self.value as nat
    }
}

impl U19 {
    /// The width in bits.
    pub const BITS: u64 = 19;

    /// The largest value, `2^19 - 1`, as its container type.
    pub const MAX: u32 = 524287;

    /// The smallest value, zero, as its container type.
    pub const MIN: u32 = 0;

    #[verifier::type_invariant]
    spec fn inv(self) -> bool {
        self.value < 524288
    }

    /// The value, zero-extended.
    pub fn value(&self) -> (r: u32)
        ensures
            r as nat == self@,
            r < 524288,
    {
        proof {
            use_type_invariant(self);
        }
        self.value
    }

    pub fn min_value() -> (r: U19)
        ensures
            r@ == 0,
    {
        U19 { value: 0 }
    }

    pub fn max_value() -> (r: U19)
        ensures
            r@ == 524287,
    {
        U19 { value: 524287 }
    }

    /// Wraps a value that fits the width.
    pub fn new(value: u32) -> (r: U19)
        requires
            value < 524288,
        ensures
            r@ == value,
    {
        U19 { value }
    }

    /// Wraps a value, or reports that it does not fit the width.
    pub fn try_new(value: u32) -> (r: Result<U19, crate::parse::ErrorKind>)
        ensures
            r is Ok <==> value < 524288,
            r matches Ok(x) ==> x@ == value,
            r matches Err(k) ==> k == crate::parse::ErrorKind::NumericOverflow,
    {
        if value < 524288 {
            Ok(U19 { value })
        } else {
            Err(crate::parse::ErrorKind::NumericOverflow)
        }
    }

    /// Addition modulo `2^19`.
    pub fn wrapping_add(self, rhs: U19) -> (r: U19)
        ensures
            r@ == (self@ + rhs@) % 524288,
    {
        proof {
            use_type_invariant(self);
            use_type_invariant(rhs);
            lemma2_to64();
        }
        let v = low_bits(self.value as u64 + rhs.value as u64, 19);
        U19 { value: v as u32 }
    }

    /// Subtraction modulo `2^19`.
    pub fn wrapping_sub(self, rhs: U19) -> (r: U19)
        ensures
            r@ == (self@ + 524288 - rhs@) % (524288 as int),
    {
        proof {
            use_type_invariant(self);
            use_type_invariant(rhs);
            lemma2_to64();
        }
        let v = low_bits(self.value as u64 + 524288 - rhs.value as u64, 19);
        U19 { value: v as u32 }
    }

    /// Bitwise AND.
    pub fn and(self, rhs: U19) -> (r: U19)
        ensures
            r@ == (self@ as u64 & rhs@ as u64) as nat % 524288,
    {
        proof {
            use_type_invariant(self);
            use_type_invariant(rhs);
            lemma2_to64();
        }
        let v = low_bits(self.value as u64 & rhs.value as u64, 19);
        U19 { value: v as u32 }
    }

    /// Bitwise OR.
    pub fn or(self, rhs: U19) -> (r: U19)
        ensures
            r@ == (self@ as u64 | rhs@ as u64) as nat % 524288,
    {
        proof {
            use_type_invariant(self);
            use_type_invariant(rhs);
            lemma2_to64();
        }
        let v = low_bits(self.value as u64 | rhs.value as u64, 19);
        U19 { value: v as u32 }
    }

    /// Bitwise XOR.
    pub fn xor(self, rhs: U19) -> (r: U19)
        ensures
            r@ == (self@ as u64 ^ rhs@ as u64) as nat % 524288,
    {
        proof {
            use_type_invariant(self);
            use_type_invariant(rhs);
            lemma2_to64();
        }
        let v = low_bits(self.value as u64 ^ rhs.value as u64, 19);
        U19 { value: v as u32 }
    }

    /// Bitwise complement within the width.
    pub fn not(self) -> (r: U19)
        ensures
            r@ == 524287 - self@,
    {
        proof {
            use_type_invariant(self);
        }
        U19 { value: 524287 - self.value }
    }

    /// Shift left by `n` bits, fewer than the container holds, dropping what
    /// leaves the width.
    pub fn shl(self, n: u64) -> (r: U19)
        requires
            n < 32,
        ensures
            r@ == (self@ * pow2(n as nat)) % 524288,
    {
        proof {
            use_type_invariant(self);
            lemma2_to64();
        }
        let v = shl_low_bits(self.value as u64, n, 19);
        U19 { value: v as u32 }
    }

    /// Shift right by `n` bits, fewer than the container holds.
    pub fn shr(self, n: u64) -> (r: U19)
        requires
            n < 32,
        ensures
            r@ == self@ / pow2(n as nat),
    {
        proof {
            use_type_invariant(self);
        }
        let v = shr_u64(self.value as u64, n);
        U19 { value: v as u32 }
    }

    /// Takes 19 bits at the cursor, MSB-first.
    pub fn parse(b: &[u8], c: BitCursor) -> (r: Result<(BitCursor, U19), Error>)
        requires
            c.wf(b@),
        ensures
            r is Ok <==> c.index() + 19 <= b.len() * 8,
            r matches Ok((d, x)) ==> d.wf(b@) && d.index() == c.index() + 19
                && x@ == bits_value(b@, c.index(), 19),
            r matches Err(e) ==> crate::parse::is_failure(e, c.byte as int, crate::parse::ErrorKind::NeedMore),
    {
        proof {
            lemma2_to64();
        }
        let (d, x) = take_bits_wide(b, c, 19)?;
        Ok((d, U19 { value: x as u32 }))
    }
}

/// An unsigned integer of 20 bits, held in a `u32`.
#[derive(Debug, Clone, Copy, PartialEq, Eq, Structural, PartialOrd, Ord, Hash)]
pub struct U20 {
    value: u32,
}

impl View for U20 {
    type V = nat;

    closed spec fn view(&self) -> nat {
        self.value as nat
    }
}

impl U20 {
    /// The width in bits.
    pub const BITS: u64 = 20;

    /// The largest value, `2^20 - 1`, as its container type.
    pub const MAX: u32 = 1048575;

    /// The smallest value, zero, as its container type.
    pub const MIN: u32 = 0;

    #[verifier::type_invariant]
    spec fn inv(self) -> bool {
        self.value < 1048576
    }

    /// The value, zero-extended.
    pub fn value(&self) -> (r: u32)
        ensures
            r as nat == self@,
            r < 1048576,
    {
        proof {
            use_type_invariant(self);
        }
        self.value
    }

    pub fn min_value() -> (r: U20)
        ensures
            r@ == 0,
    {
        U20 { value: 0 }
    }

    pub fn max_value() -> (r: U20)
        ensures
            r@ == 1048575,
    {
        U20 { value: 1048575 }
    }

    /// Wraps a value that fits the width.
    pub fn new(value: u32) -> (r: U20)
        requires
            value < 1048576,
        ensures
            r@ == value,
    {
        U20 { value }
    }

    /// Wraps a value, or reports that it does not fit the width.
    pub fn try_new(value: u32) -> (r: Result<U20, crate::parse::ErrorKind>)
        ensures
            r is Ok <==> value < 1048576,
            r matches Ok(x) ==> x@ == value,
            r matches Err(k) ==> k == crate::parse::ErrorKind::NumericOverflow,
    {
        if value < 1048576 {
            Ok(U20 { value })
        } else {
            Err(crate::parse::ErrorKind::NumericOverflow)
        }
    }

    /// Addition modulo `2^20`.
    pub fn wrapping_add(self, rhs: U20) -> (r: U20)
        ensures
            r@ == (self@ + rhs@) % 1048576,
    {
        proof {
            use_type_invariant(self);
            use_type_invariant(rhs);
            lemma2_to64();
        }
        let v = low_bits(self.value as u64 + rhs.value as u64, 20);
        U20 { value: v as u32 }
    }

    /// Subtraction modulo `2^20`.
    pub fn wrapping_sub(self, rhs: U20) -> (r: U20)
        ensures
            r@ == (self@ + 1048576 - rhs@) % (1048576 as int),
    {
        proof {
            use_type_invariant(self);
            use_type_invariant(rhs);
            lemma2_to64();
        }
        let v = low_bits(self.value as u64 + 1048576 - rhs.value as u64, 20);
        U20 { value: v as u32 }
    }

    /// Bitwise AND.
    pub fn and(self, rhs: U20) -> (r: U20)
        ensures
            r@ == (self@ as u64 & rhs@ as u64) as nat % 1048576,
    {
        proof {
            use_type_invariant(self);
            use_type_invariant(rhs);
            lemma2_to64();
        }
        let v = low_bits(self.value as u64 & rhs.value as u64, 20);
        U20 { value: v as u32 }
    }

    /// Bitwise OR.
    pub fn or(self, rhs: U20) -> (r: U20)
        ensures
            r@ == (self@ as u64 | rhs@ as u64) as nat % 1048576,
    {
        proof {
            use_type_invariant(self);
            use_type_invariant(rhs);
            lemma2_to64();
        }
        let v = low_bits(self.value as u64 | rhs.value as u64, 20);
        U20 { value: v as u32 }
    }

    /// Bitwise XOR.
    pub fn xor(self, rhs: U20) -> (r: U20)
        ensures
            r@ == (self@ as u64 ^ rhs@ as u64) as nat % 1048576,
    {
        proof {
            use_type_invariant(self);
            use_type_invariant(rhs);
            lemma2_to64();
        }
        let v = low_bits(self.value as u64 ^ rhs.value as u64, 20);
        U20 { value: v as u32 }
    }

    /// Bitwise complement within the width.
    pub fn not(self) -> (r: U20)
        ensures
            r@ == 1048575 - self@,
    {
        proof {
            use_type_invariant(self);
        }
        U20 { value: 1048575 - self.value }
    }

    /// Shift left by `n` bits, fewer than the container holds, dropping what
    /// leaves the width.
    pub fn shl(self, n: u64) -> (r: U20)
        requires
            n < 32,
        ensures
            r@ == (self@ * pow2(n as nat)) % 1048576,
    {
        proof {
            use_type_invariant(self);
            lemma2_to64();
        }
        let v = shl_low_bits(self.value as u64, n, 20);
        U20 { value: v as u32 }
    }

    /// Shift right by `n` bits, fewer than the container holds.
    pub fn shr(self, n: u64) -> (r: U20)
        requires
            n < 32,
        ensures
            r@ == self@ / pow2(n as nat),
    {
        proof {
            use_type_invariant(self);
        }
        let v = shr_u64(self.value as u64, n);
        U20 { value: v as u32 }
    }

    /// Takes 20 bits at the cursor, MSB-first.
    pub fn parse(b: &[u8], c: BitCursor) -> (r: Result<(BitCursor, U20), Error>)
        requires
            c.wf(b@),
        ensures
            r is Ok <==> c.index() + 20 <= b.len() * 8,
            r matches Ok((d, x)) ==> d.wf(b@) && d.index() == c.index() + 20
                && x@ == bits_value(b@, c.index(), 20),
            r matches Err(e) ==> crate::parse::is_failure(e, c.byte as int, crate::parse::ErrorKind::NeedMore),
    {
        proof {
            lemma2_to64();
        }
        let (d, x) = take_bits_wide(b, c, 20)?;
        Ok((d, U20 { value: x as u32 }))
    }
}

/// An unsigned integer of 21 bits, held in a `u32`.
#[derive(Debug, Clone, Copy, PartialEq, Eq, Structural, PartialOrd, Ord, Hash)]
pub struct U21 {
    value: u32,
}

impl View for U21 {
    type V = nat;

    closed spec fn view(&self) -> nat {
        self.value as nat
    }
}

impl U21 {
    /// The width in bits.
    pub const BITS: u64 = 21;

    /// The largest value, `2^21 - 1`, as its container type.
    pub const MAX: u32 = 2097151;

    /// The smallest value, zero, as its container type.
    pub const MIN: u32 = 0;

    #[verifier::type_invariant]
    spec fn inv(self) -> bool {
        self.value < 2097152
    }

    /// The value, zero-extended.
    pub fn value(&self) -> (r: u32)
        ensures
            r as nat == self@,
            r < 2097152,
    {
        proof {
            use_type_invariant(self);
        }
        self.value
    }

    pub fn min_value() -> (r: U21)
        ensures
            r@ == 0,
    {
        U21 { value: 0 }
    }

    pub fn max_value() -> (r: U21)
        ensures
            r@ == 2097151,
    {
        U21 { value: 2097151 }
    }

    /// Wraps a value that fits the width.
    pub fn new(value: u32) -> (r: U21)
        requires
            value < 2097152,
        ensures
            r@ == value,
    {
        U21 { value }
    }

    /// Wraps a value, or reports that it does not fit the width.
    pub fn try_new(value: u32) -> (r: Result<U21, crate::parse::ErrorKind>)
        ensures
            r is Ok <==> value < 2097152,
            r matches Ok(x) ==> x@ == value,
            r matches Err(k) ==> k == crate::parse::ErrorKind::NumericOverflow,
    {
        if value < 2097152 {
            Ok(U21 { value })
        } else {
            Err(crate::parse::ErrorKind::NumericOverflow)
        }
    }

    /// Addition modulo `2^21`.
    pub fn wrapping_add(self, rhs: U21) -> (r: U21)
        ensures
            r@ == (self@ + rhs@) % 2097152,
    {
        proof {
            use_type_invariant(self);
            use_type_invariant(rhs);
            lemma2_to64();
        }
        let v = low_bits(self.value as u64 + rhs.value as u64, 21);
        U21 { value: v as u32 }
    }

    /// Subtraction modulo `2^21`.
    pub fn wrapping_sub(self, rhs: U21) -> (r: U21)
        ensures
            r@ == (self@ + 2097152 - rhs@) % (2097152 as int),
    {
        proof {
            use_type_invariant(self);
            use_type_invariant(rhs);
            lemma2_to64();
        }
        let v = low_bits(self.value as u64 + 2097152 - rhs.value as u64, 21);
        U21 { value: v as u32 }
    }

    /// Bitwise AND.
    pub fn and(self, rhs: U21) -> (r: U21)
        ensures
            r@ == (self@ as u64 & rhs@ as u64) as nat % 2097152,
    {
        proof {
            use_type_invariant(self);
            use_type_invariant(rhs);
            lemma2_to64();
        }
        let v = low_bits(self.value as u64 & rhs.value as u64, 21);
        U21 { value: v as u32 }
    }

    /// Bitwise OR.
    pub fn or(self, rhs: U21) -> (r: U21)
        ensures
            r@ == (self@ as u64 | rhs@ as u64) as nat % 2097152,
    {
        proof {
            use_type_invariant(self);
            use_type_invariant(rhs);
            lemma2_to64();
        }
        let v = low_bits(self.value as u64 | rhs.value as u64, 21);
        U21 { value: v as u32 }
    }

    /// Bitwise XOR.
    pub fn xor(self, rhs: U21) -> (r: U21)
        ensures
            r@ == (self@ as u64 ^ rhs@ as u64) as nat % 2097152,
    {
        proof {
            use_type_invariant(self);
            use_type_invariant(rhs);
            lemma2_to64();
        }
        let v = low_bits(self.value as u64 ^ rhs.value as u64, 21);
        U21 { value: v as u32 }
    }

    /// Bitwise complement within the width.
    pub fn not(self) -> (r: U21)
        ensures
            r@ == 2097151 - self@,
    {
        proof {
            use_type_invariant(self);
        }
        U21 { value: 2097151 - self.value }
    }

    /// Shift left by `n` bits, fewer than the container holds, dropping what
    /// leaves the width.
    pub fn shl(self, n: u64) -> (r: U21)
        requires
            n < 32,
        ensures
            r@ == (self@ * pow2(n as nat)) % 2097152,
    {
        proof {
            use_type_invariant(self);
            lemma2_to64();
        }
        let v = shl_low_bits(self.value as u64, n, 21);
        U21 { value: v as u32 }
    }

    /// Shift right by `n` bits, fewer than the container holds.
    pub fn shr(self, n: u64) -> (r: U21)
        requires
            n < 32,
        ensures
            r@ == self@ / pow2(n as nat),
    {
        proof {
            use_type_invariant(self);
        }
        let v = shr_u64(self.value as u64, n);
        U21 { value: v as u32 }
    }

    /// Takes 21 bits at the cursor, MSB-first.
    pub fn parse(b: &[u8], c: BitCursor) -> (r: Result<(BitCursor, U21), Error>)
        requires
            c.wf(b@),
        ensures
            r is Ok <==> c.index() + 21 <= b.len() * 8,
            r matches Ok((d, x)) ==> d.wf(b@) && d.index() == c.index() + 21
                && x@ == bits_value(b@, c.index(), 21),
            r matches Err(e) ==> crate::parse::is_failure(e, c.byte as int, crate::parse::ErrorKind::NeedMore),
    {
        proof {
            lemma2_to64();
        }
        let (d, x) = take_bits_wide(b, c, 21)?;
        Ok((d, U21 { value: x as u32 }))
    }
}

/// An unsigned integer of 22 bits, held in a `u32`.
#[derive(Debug, Clone, Copy, PartialEq, Eq, Structural, PartialOrd, Ord, Hash)]
pub struct U22 {
    value: u32,
}

impl View for U22 {
    type V = nat;

    closed spec fn view(&self) -> nat {
        self.value as nat
    }
}

impl U22 {
    /// The width in bits.
    pub const BITS: u64 = 22;

    /// The largest value, `2^22 - 1`, as its container type.
    pub const MAX: u32 = 4194303;

    /// The smallest value, zero, as its container type.
    pub const MIN: u32 = 0;

    #[verifier::type_invariant]
    spec fn inv(self) -> bool {
        self.value < 4194304
    }

    /// The value, zero-extended.
    pub fn value(&self) -> (r: u32)
        ensures
            r as nat == self@,
            r < 4194304,
    {
        proof {
            use_type_invariant(self);
        }
        self.value
    }

    pub fn min_value() -> (r: U22)
        ensures
            r@ == 0,
    {
        U22 { value: 0 }
    }

    pub fn max_value() -> (r: U22)
        ensures
            r@ == 4194303,
    {
        U22 { value: 4194303 }
    }

    /// Wraps a value that fits the width.
    pub fn new(value: u32) -> (r: U22)
        requires
            value < 4194304,
        ensures
            r@ == value,
    {
        U22 { value }
    }

    /// Wraps a value, or reports that it does not fit the width.
    pub fn try_new(value: u32) -> (r: Result<U22, crate::parse::ErrorKind>)
        ensures
            r is Ok <==> value < 4194304,
            r matches Ok(x) ==> x@ == value,
            r matches Err(k) ==> k == crate::parse::ErrorKind::NumericOverflow,
    {
        if value < 4194304 {
            Ok(U22 { value })
        } else {
            Err(crate::parse::ErrorKind::NumericOverflow)
        }
    }

    /// Addition modulo `2^22`.
    pub fn wrapping_add(self, rhs: U22) -> (r: U22)
        ensures
            r@ == (self@ + rhs@) % 4194304,
    {
        proof {
            use_type_invariant(self);
            use_type_invariant(rhs);
            lemma2_to64();
        }
        let v = low_bits(self.value as u64 + rhs.value as u64, 22);
        U22 { value: v as u32 }
    }

    /// Subtraction modulo `2^22`.
    pub fn wrapping_sub(self, rhs: U22) -> (r: U22)
        ensures
            r@ == (self@ + 4194304 - rhs@) % (4194304 as int),
    {
        proof {
            use_type_invariant(self);
            use_type_invariant(rhs);
            lemma2_to64();
        }
        let v = low_bits(self.value as u64 + 4194304 - rhs.value as u64, 22);
        U22 { value: v as u32 }
    }

    /// Bitwise AND.
    pub fn and(self, rhs: U22) -> (r: U22)
        ensures
            r@ == (self@ as u64 & rhs@ as u64) as nat % 4194304,
    {
        proof {
            use_type_invariant(self);
            use_type_invariant(rhs);
            lemma2_to64();
        }
        let v = low_bits(self.value as u64 & rhs.value as u64, 22);
        U22 { value: v as u32 }
    }

    /// Bitwise OR.
    pub fn or(self, rhs: U22) -> (r: U22)
        ensures
            r@ == (self@ as u64 | rhs@ as u64) as nat % 4194304,
    {
        proof {
            use_type_invariant(self);
            use_type_invariant(rhs);
            lemma2_to64();
        }
        let v = low_bits(self.value as u64 | rhs.value as u64, 22);
        U22 { value: v as u32 }
    }

    /// Bitwise XOR.
    pub fn xor(self, rhs: U22) -> (r: U22)
        ensures
            r@ == (self@ as u64 ^ rhs@ as u64) as nat % 4194304,
    {
        proof {
            use_type_invariant(self);
            use_type_invariant(rhs);
            lemma2_to64();
        }
        let v = low_bits(self.value as u64 ^ rhs.value as u64, 22);
        U22 { value: v as u32 }
    }

    /// Bitwise complement within the width.
    pub fn not(self) -> (r: U22)
        ensures
            r@ == 4194303 - self@,
    {
        proof {
            use_type_invariant(self);
        }
        U22 { value: 4194303 - self.value }
    }

    /// Shift left by `n` bits, fewer than the container holds, dropping what
    /// leaves the width.
    pub fn shl(self, n: u64) -> (r: U22)
        requires
            n < 32,
        ensures
            r@ == (self@ * pow2(n as nat)) % 4194304,
    {
        proof {
            use_type_invariant(self);
            lemma2_to64();
        }
        let v = shl_low_bits(self.value as u64, n, 22);
        U22 { value: v as u32 }
    }

    /// Shift right by `n` bits, fewer than the container holds.
    pub fn shr(self, n: u64) -> (r: U22)
        requires
            n < 32,
        ensures
            r@ == self@ / pow2(n as nat),
    {
        proof {
            use_type_invariant(self);
        }
        let v = shr_u64(self.value as u64, n);
        U22 { value: v as u32 }
    }

    /// Takes 22 bits at the cursor, MSB-first.
    pub fn parse(b: &[u8], c: BitCursor) -> (r: Result<(BitCursor, U22), Error>)
        requires
            c.wf(b@),
        ensures
            r is Ok <==> c.index() + 22 <= b.len() * 8,
            r matches Ok((d, x)) ==> d.wf(b@) && d.index() == c.index() + 22
                && x@ == bits_value(b@, c.index(), 22),
            r matches Err(e) ==> crate::parse::is_failure(e, c.byte as int, crate::parse::ErrorKind::NeedMore),
    {
        proof {
            lemma2_to64();
        }
        let (d, x) = take_bits_wide(b, c, 22)?;
        Ok((d, U22 { value: x as u32 }))
    }
}

/// An unsigned integer of 23 bits, held in a `u32`.
#[derive(Debug, Clone, Copy, PartialEq, Eq, Structural, PartialOrd, Ord, Hash)]
pub struct U23 {
    value: u32,
}

impl View for U23 {
    type V = nat;

    closed spec fn view(&self) -> nat {
        self.value as nat
    }
}

impl U23 {
    /// The width in bits.
    pub const BITS: u64 = 23;

    /// The largest value, `2^23 - 1`, as its container type.
    pub const MAX: u32 = 8388607;

    /// The smallest value, zero, as its container type.
    pub const MIN: u32 = 0;

    #[verifier::type_invariant]
    spec fn inv(self) -> bool {
        self.value < 8388608
    }

    /// The value, zero-extended.
    pub fn value(&self) -> (r: u32)
        ensures
            r as nat == self@,
            r < 8388608,
    {
        proof {
            use_type_invariant(self);
        }
        self.value
    }

    pub fn min_value() -> (r: U23)
        ensures
            r@ == 0,
    {
        U23 { value: 0 }
    }

    pub fn max_value() -> (r: U23)
        ensures
            r@ == 8388607,
    {
        U23 { value: 8388607 }
    }

    /// Wraps a value that fits the width.
    pub fn new(value: u32) -> (r: U23)
        requires
            value < 8388608,
        ensures
            r@ == value,
    {
        U23 { value }
    }

    /// Wraps a value, or reports that it does not fit the width.
    pub fn try_new(value: u32) -> (r: Result<U23, crate::parse::ErrorKind>)
        ensures
            r is Ok <==> value < 8388608,
            r matches Ok(x) ==> x@ == value,
            r matches Err(k) ==> k == crate::parse::ErrorKind::NumericOverflow,
    {
        if value < 8388608 {
            Ok(U23 { value })
        } else {
            Err(crate::parse::ErrorKind::NumericOverflow)
        }
    }

    /// Addition modulo `2^23`.
    pub fn wrapping_add(self, rhs: U23) -> (r: U23)
        ensures
            r@ == (self@ + rhs@) % 8388608,
    {
        proof {
            use_type_invariant(self);
            use_type_invariant(rhs);
            lemma2_to64();
        }
        let v = low_bits(self.value as u64 + rhs.value as u64, 23);
        U23 { value: v as u32 }
    }

    /// Subtraction modulo `2^23`.
    pub fn wrapping_sub(self, rhs: U23) -> (r: U23)
        ensures
            r@ == (self@ + 8388608 - rhs@) % (8388608 as int),
    {
        proof {
            use_type_invariant(self);
            use_type_invariant(rhs);
            lemma2_to64();
        }
        let v = low_bits(self.value as u64 + 8388608 - rhs.value as u64, 23);
        U23 { value: v as u32 }
    }

    /// Bitwise AND.
    pub fn and(self, rhs: U23) -> (r: U23)
        ensures
            r@ == (self@ as u64 & rhs@ as u64) as nat % 8388608,
    {
        proof {
            use_type_invariant(self);
            use_type_invariant(rhs);
            lemma2_to64();
        }
        let v = low_bits(self.value as u64 & rhs.value as u64, 23);
        U23 { value: v as u32 }
    }

    /// Bitwise OR.
    pub fn or(self, rhs: U23) -> (r: U23)
        ensures
            r@ == (self@ as u64 | rhs@ as u64) as nat % 8388608,
    {
        proof {
            use_type_invariant(self);
            use_type_invariant(rhs);
            lemma2_to64();
        }
        let v = low_bits(self.value as u64 | rhs.value as u64, 23);
        U23 { value: v as u32 }
    }

    /// Bitwise XOR.
    pub fn xor(self, rhs: U23) -> (r: U23)
        ensures
            r@ == (self@ as u64 ^ rhs@ as u64) as nat % 8388608,
    {
        proof {
            use_type_invariant(self);
            use_type_invariant(rhs);
            lemma2_to64();
        }
        let v = low_bits(self.value as u64 ^ rhs.value as u64, 23);
        U23 { value: v as u32 }
    }

    /// Bitwise complement within the width.
    pub fn not(self) -> (r: U23)
        ensures
            r@ == 8388607 - self@,
    {
        proof {
            use_type_invariant(self);
        }
        U23 { value: 8388607 - self.value }
    }

    /// Shift left by `n` bits, fewer than the container holds, dropping what
    /// leaves the width.
    pub fn shl(self, n: u64) -> (r: U23)
        requires
            n < 32,
        ensures
            r@ == (self@ * pow2(n as nat)) % 8388608,
    {
        proof {
            use_type_invariant(self);
            lemma2_to64();
        }
        let v = shl_low_bits(self.value as u64, n, 23);
        U23 { value: v as u32 }
    }

    /// Shift right by `n` bits, fewer than the container holds.
    pub fn shr(self, n: u64) -> (r: U23)
        requires
            n < 32,
        ensures
            r@ == self@ / pow2(n as nat),
    {
        proof {
            use_type_invariant(self);
        }
        let v = shr_u64(self.value as u64, n);
        U23 { value: v as u32 }
    }

    /// Takes 23 bits at the cursor, MSB-first.
    pub fn parse(b: &[u8], c: BitCursor) -> (r: Result<(BitCursor, U23), Error>)
        requires
            c.wf(b@),
        ensures
            r is Ok <==> c.index() + 23 <= b.len() * 8,
            r matches Ok((d, x)) ==> d.wf(b@) && d.index() == c.index() + 23
                && x@ == bits_value(b@, c.index(), 23),
            r matches Err(e) ==> crate::parse::is_failure(e, c.byte as int, crate::parse::ErrorKind::NeedMore),
    {
        proof {
            lemma2_to64();
        }
        let (d, x) = take_bits_wide(b, c, 23)?;
        Ok((d, U23 { value: x as u32 }))
    }
}

/// An unsigned integer of 24 bits, held in a `u32`.
#[derive(Debug, Clone, Copy, PartialEq, Eq, Structural, PartialOrd, Ord, Hash)]
pub struct U24 {
    value: u32,
}

impl View for U24 {
    type V = nat;

    closed spec fn view(&self) -> nat {
        self.value as nat
    }
}

impl U24 {
    /// The width in bits.
    pub const BITS: u64 = 24;

    /// The largest value, `2^24 - 1`, as its container type.
    pub const MAX: u32 = 16777215;

    /// The smallest value, zero, as its container type.
    pub const MIN: u32 = 0;

    #[verifier::type_invariant]
    spec fn inv(self) -> bool {
        self.value < 16777216
    }

    /// The value, zero-extended.
    pub fn value(&self) -> (r: u32)
        ensures
            r as nat == self@,
            r < 16777216,
    {
        proof {
            use_type_invariant(self);
        }
        self.value
    }

    pub fn min_value() -> (r: U24)
        ensures
            r@ == 0,
    {
        U24 { value: 0 }
    }

    pub fn max_value() -> (r: U24)
        ensures
            r@ == 16777215,
    {
        U24 { value: 16777215 }
    }

    /// Wraps a value that fits the width.
    pub fn new(value: u32) -> (r: U24)
        requires
            value < 16777216,
        ensures
            r@ == value,
    {
        U24 { value }
    }

    /// Wraps a value, or reports that it does not fit the width.
    pub fn try_new(value: u32) -> (r: Result<U24, crate::parse::ErrorKind>)
        ensures
            r is Ok <==> value < 16777216,
            r matches Ok(x) ==> x@ == value,
            r matches Err(k) ==> k == crate::parse::ErrorKind::NumericOverflow,
    {
        if value < 16777216 {
            Ok(U24 { value })
        } else {
            Err(crate::parse::ErrorKind::NumericOverflow)
        }
    }

    /// Addition modulo `2^24`.
    pub fn wrapping_add(self, rhs: U24) -> (r: U24)
        ensures
            r@ == (self@ + rhs@) % 16777216,
    {
        proof {
            use_type_invariant(self);
            use_type_invariant(rhs);
            lemma2_to64();
        }
        let v = low_bits(self.value as u64 + rhs.value as u64, 24);
        U24 { value: v as u32 }
    }

    /// Subtraction modulo `2^24`.
    pub fn wrapping_sub(self, rhs: U24) -> (r: U24)
        ensures
            r@ == (self@ + 16777216 - rhs@) % (16777216 as int),
    {
        proof {
            use_type_invariant(self);
            use_type_invariant(rhs);
            lemma2_to64();
        }
        let v = low_bits(self.value as u64 + 16777216 - rhs.value as u64, 24);
        U24 { value: v as u32 }
    }

    /// Bitwise AND.
    pub fn and(self, rhs: U24) -> (r: U24)
        ensures
            r@ == (self@ as u64 & rhs@ as u64) as nat % 16777216,
    {
        proof {
            use_type_invariant(self);
            use_type_invariant(rhs);
            lemma2_to64();
        }
        let v = low_bits(self.value as u64 & rhs.value as u64, 24);
        U24 { value: v as u32 }
    }

    /// Bitwise OR.
    pub fn or(self, rhs: U24) -> (r: U24)
        ensures
            r@ == (self@ as u64 | rhs@ as u64) as nat % 16777216,
    {
        proof {
            use_type_invariant(self);
            use_type_invariant(rhs);
            lemma2_to64();
        }
        let v = low_bits(self.value as u64 | rhs.value as u64, 24);
        U24 { value: v as u32 }
    }

    /// Bitwise XOR.
    pub fn xor(self, rhs: U24) -> (r: U24)
        ensures
            r@ == (self@ as u64 ^ rhs@ as u64) as nat % 16777216,
    {
        proof {
            use_type_invariant(self);
            use_type_invariant(rhs);
            lemma2_to64();
        }
        let v = low_bits(self.value as u64 ^ rhs.value as u64, 24);
        U24 { value: v as u32 }
    }

    /// Bitwise complement within the width.
    pub fn not(self) -> (r: U24)
        ensures
            r@ == 16777215 - self@,
    {
        proof {
            use_type_invariant(self);
        }
        U24 { value: 16777215 - self.value }
    }

    /// Shift left by `n` bits, fewer than the container holds, dropping what
    /// leaves the width.
    pub fn shl(self, n: u64) -> (r: U24)
        requires
            n < 32,
        ensures
            r@ == (self@ * pow2(n as nat)) % 16777216,
    {
        proof {
            use_type_invariant(self);
            lemma2_to64();
        }
        let v = shl_low_bits(self.value as u64, n, 24);
        U24 { value: v as u32 }
    }

    /// Shift right by `n` bits, fewer than the container holds.
    pub fn shr(self, n: u64) -> (r: U24)
        requires
            n < 32,
        ensures
            r@ == self@ / pow2(n as nat),
    {
        proof {
            use_type_invariant(self);
        }
        let v = shr_u64(self.value as u64, n);
        U24 { value: v as u32 }
    }

    /// Takes 24 bits at the cursor, MSB-first.
    pub fn parse(b: &[u8], c: BitCursor) -> (r: Result<(BitCursor, U24), Error>)
        requires
            c.wf(b@),
        ensures
            r is Ok <==> c.index() + 24 <= b.len() * 8,
            r matches Ok((d, x)) ==> d.wf(b@) && d.index() == c.index() + 24
                && x@ == bits_value(b@, c.index(), 24),
            r matches Err(e) ==> crate::parse::is_failure(e, c.byte as int, crate::parse::ErrorKind::NeedMore),
    {
        proof {
            lemma2_to64();
        }
        let (d, x) = take_bits_wide(b, c, 24)?;
        Ok((d, U24 { value: x as u32 }))
    }
}

/// An unsigned integer of 48 bits, held in a `u64`.
#[derive(Debug, Clone, Copy, PartialEq, Eq, Structural, PartialOrd, Ord, Hash)]
pub struct U48 {
    value: u64,
}

impl View for U48 {
    type V = nat;

    closed spec fn view(&self) -> nat {
        self.value as nat
    }
}

impl U48 {
    /// The width in bits.
    pub const BITS: u64 = 48;

    /// The largest value, `2^48 - 1`, as its container type.
    pub const MAX: u64 = 281474976710655;

    /// The smallest value, zero, as its container type.
    pub const MIN: u64 = 0;

    #[verifier::type_invariant]
    spec fn inv(self) -> bool {
        self.value < 281474976710656
    }

    /// The value, zero-extended.
    pub fn value(&self) -> (r: u64)
        ensures
            r as nat == self@,
            r < 281474976710656,
    {
        proof {
            use_type_invariant(self);
        }
        self.value
    }

    pub fn min_value() -> (r: U48)
        ensures
            r@ == 0,
    {
        U48 { value: 0 }
    }

    pub fn max_value() -> (r: U48)
        ensures
            r@ == 281474976710655,
    {
        U48 { value: 281474976710655 }
    }

    /// Wraps a value that fits the width.
    pub fn new(value: u64) -> (r: U48)
        requires
            value < 281474976710656,
        ensures
            r@ == value,
    {
        U48 { value }
    }

    /// Wraps a value, or reports that it does not fit the width.
    pub fn try_new(value: u64) -> (r: Result<U48, crate::parse::ErrorKind>)
        ensures
            r is Ok <==> value < 281474976710656,
            r matches Ok(x) ==> x@ == value,
            r matches Err(k) ==> k == crate::parse::ErrorKind::NumericOverflow,
    {
        if value < 281474976710656 {
            Ok(U48 { value })
        } else {
            Err(crate::parse::ErrorKind::NumericOverflow)
        }
    }

    /// Addition modulo `2^48`.
    pub fn wrapping_add(self, rhs: U48) -> (r: U48)
        ensures
            r@ == (self@ + rhs@) % 281474976710656,
    {
        proof {
            use_type_invariant(self);
            use_type_invariant(rhs);
            lemma2_to64();
            lemma2_to64_rest();
        }
        let v = low_bits(self.value as u64 + rhs.value as u64, 48);
        U48 { value: v as u64 }
    }

    /// Subtraction modulo `2^48`.
    pub fn wrapping_sub(self, rhs: U48) -> (r: U48)
        ensures
            r@ == (self@ + 281474976710656 - rhs@) % (281474976710656 as int),
    {
        proof {
            use_type_invariant(self);
            use_type_invariant(rhs);
            lemma2_to64();
            lemma2_to64_rest();
        }
        let v = low_bits(self.value as u64 + 281474976710656 - rhs.value as u64, 48);
        U48 { value: v as u64 }
    }

    /// Bitwise AND.
    pub fn and(self, rhs: U48) -> (r: U48)
        ensures
            r@ == (self@ as u64 & rhs@ as u64) as nat % 281474976710656,
    {
        proof {
            use_type_invariant(self);
            use_type_invariant(rhs);
            lemma2_to64();
            lemma2_to64_rest();
        }
        let v = low_bits(self.value as u64 & rhs.value as u64, 48);
        U48 { value: v as u64 }
    }

    /// Bitwise OR.
    pub fn or(self, rhs: U48) -> (r: U48)
        ensures
            r@ == (self@ as u64 | rhs@ as u64) as nat % 281474976710656,
    {
        proof {
            use_type_invariant(self);
            use_type_invariant(rhs);
            lemma2_to64();
            lemma2_to64_rest();
        }
        let v = low_bits(self.value as u64 | rhs.value as u64, 48);
        U48 { value: v as u64 }
    }

    /// Bitwise XOR.
    pub fn xor(self, rhs: U48) -> (r: U48)
        ensures
            r@ == (self@ as u64 ^ rhs@ as u64) as nat % 281474976710656,
    {
        proof {
            use_type_invariant(self);
            use_type_invariant(rhs);
            lemma2_to64();
            lemma2_to64_rest();
        }
        let v = low_bits(self.value as u64 ^ rhs.value as u64, 48);
        U48 { value: v as u64 }
    }

    /// Bitwise complement within the width.
    pub fn not(self) -> (r: U48)
        ensures
            r@ == 281474976710655 - self@,
    {
        proof {
            use_type_invariant(self);
        }
        U48 { value: 281474976710655 - self.value }
    }

    /// Shift left by `n` bits, fewer than the container holds, dropping what
    /// leaves the width.
    pub fn shl(self, n: u64) -> (r: U48)
        requires
            n < 64,
        ensures
            r@ == (self@ * pow2(n as nat)) % 281474976710656,
    {
        proof {
            use_type_invariant(self);
            lemma2_to64();
            lemma2_to64_rest();
        }
        let v = shl_low_bits(self.value as u64, n, 48);
        U48 { value: v as u64 }
    }

    /// Shift right by `n` bits, fewer than the container holds.
    pub fn shr(self, n: u64) -> (r: U48)
        requires
            n < 64,
        ensures
            r@ == self@ / pow2(n as nat),
    {
        proof {
            use_type_invariant(self);
        }
        let v = shr_u64(self.value as u64, n);
        U48 { value: v as u64 }
    }

    /// Takes 48 bits at the cursor, MSB-first.
    pub fn parse(b: &[u8], c: BitCursor) -> (r: Result<(BitCursor, U48), Error>)
        requires
            c.wf(b@),
        ensures
            r is Ok <==> c.index() + 48 <= b.len() * 8,
            r matches Ok((d, x)) ==> d.wf(b@) && d.index() == c.index() + 48
                && x@ == bits_value(b@, c.index(), 48),
            r matches Err(e) ==> crate::parse::is_failure(e, c.byte as int, crate::parse::ErrorKind::NeedMore),
    {
        proof {
            lemma2_to64();
            lemma2_to64_rest();
        }
        let (d, x) = take_bits_wide(b, c, 48)?;
        Ok((d, U48 { value: x as u64 }))
    }
}

/// An unsigned integer of 56 bits, held in a `u64`.
#[derive(Debug, Clone, Copy, PartialEq, Eq, Structural, PartialOrd, Ord, Hash)]
pub struct U56 {
    value: u64,
}

impl View for U56 {
    type V = nat;

    closed spec fn view(&self) -> nat {
        self.value as nat
    }
}

impl U56 {
    /// The width in bits.
    pub const BITS: u64 = 56;

    /// The largest value, `2^56 - 1`, as its container type.
    pub const MAX: u64 = 72057594037927935;

    /// The smallest value, zero, as its container type.
    pub const MIN: u64 = 0;

    #[verifier::type_invariant]
    spec fn inv(self) -> bool {
        self.value < 72057594037927936
    }

    /// The value, zero-extended.
    pub fn value(&self) -> (r: u64)
        ensures
            r as nat == self@,
            r < 72057594037927936,
    {
        proof {
            use_type_invariant(self);
        }
        self.value
    }

    pub fn min_value() -> (r: U56)
        ensures
            r@ == 0,
    {
        U56 { value: 0 }
    }

    pub fn max_value() -> (r: U56)
        ensures
            r@ == 72057594037927935,
    {
        U56 { value: 72057594037927935 }
    }

    /// Wraps a value that fits the width.
    pub fn new(value: u64) -> (r: U56)
        requires
            value < 72057594037927936,
        ensures
            r@ == value,
    {
        U56 { value }
    }

    /// Wraps a value, or reports that it does not fit the width.
    pub fn try_new(value: u64) -> (r: Result<U56, crate::parse::ErrorKind>)
        ensures
            r is Ok <==> value < 72057594037927936,
            r matches Ok(x) ==> x@ == value,
            r matches Err(k) ==> k == crate::parse::ErrorKind::NumericOverflow,
    {
        if value < 72057594037927936 {
            Ok(U56 { value })
        } else {
            Err(crate::parse::ErrorKind::NumericOverflow)
        }
    }

    /// Addition modulo `2^56`.
    pub fn wrapping_add(self, rhs: U56) -> (r: U56)
        ensures
            r@ == (self@ + rhs@) % 72057594037927936,
    {
        proof {
            use_type_invariant(self);
            use_type_invariant(rhs);
            lemma2_to64();
            lemma2_to64_rest();
        }
        let v = low_bits(self.value as u64 + rhs.value as u64, 56);
        U56 { value: v as u64 }
    }

    /// Subtraction modulo `2^56`.
    pub fn wrapping_sub(self, rhs: U56) -> (r: U56)
        ensures
            r@ == (self@ + 72057594037927936 - rhs@) % (72057594037927936 as int),
    {
        proof {
            use_type_invariant(self);
            use_type_invariant(rhs);
            lemma2_to64();
            lemma2_to64_rest();
        }
        let v = low_bits(self.value as u64 + 72057594037927936 - rhs.value as u64, 56);
        U56 { value: v as u64 }
    }

    /// Bitwise AND.
    pub fn and(self, rhs: U56) -> (r: U56)
        ensures
            r@ == (self@ as u64 & rhs@ as u64) as nat % 72057594037927936,
    {
        proof {
            use_type_invariant(self);
            use_type_invariant(rhs);
            lemma2_to64();
            lemma2_to64_rest();
        }
        let v = low_bits(self.value as u64 & rhs.value as u64, 56);
        U56 { value: v as u64 }
    }

    /// Bitwise OR.
    pub fn or(self, rhs: U56) -> (r: U56)
        ensures
            r@ == (self@ as u64 | rhs@ as u64) as nat % 72057594037927936,
    {
        proof {
            use_type_invariant(self);
            use_type_invariant(rhs);
            lemma2_to64();
            lemma2_to64_rest();
        }
        let v = low_bits(self.value as u64 | rhs.value as u64, 56);
        U56 { value: v as u64 }
    }

    /// Bitwise XOR.
    pub fn xor(self, rhs: U56) -> (r: U56)
        ensures
            r@ == (self@ as u64 ^ rhs@ as u64) as nat % 72057594037927936,
    {
        proof {
            use_type_invariant(self);
            use_type_invariant(rhs);
            lemma2_to64();
            lemma2_to64_rest();
        }
        let v = low_bits(self.value as u64 ^ rhs.value as u64, 56);
        U56 { value: v as u64 }
    }

    /// Bitwise complement within the width.
    pub fn not(self) -> (r: U56)
        ensures
            r@ == 72057594037927935 - self@,
    {
        proof {
            use_type_invariant(self);
        }
        U56 { value: 72057594037927935 - self.value }
    }

    /// Shift left by `n` bits, fewer than the container holds, dropping what
    /// leaves the width.
    pub fn shl(self, n: u64) -> (r: U56)
        requires
            n < 64,
        ensures
            r@ == (self@ * pow2(n as nat)) % 72057594037927936,
    {
        proof {
            use_type_invariant(self);
            lemma2_to64();
            lemma2_to64_rest();
        }
        let v = shl_low_bits(self.value as u64, n, 56);
        U56 { value: v as u64 }
    }

    /// Shift right by `n` bits, fewer than the container holds.
    pub fn shr(self, n: u64) -> (r: U56)
        requires
            n < 64,
        ensures
            r@ == self@ / pow2(n as nat),
    {
        proof {
            use_type_invariant(self);
        }
        let v = shr_u64(self.value as u64, n);
        U56 { value: v as u64 }
    }

    /// Takes 56 bits at the cursor, MSB-first.
    pub fn parse(b: &[u8], c: BitCursor) -> (r: Result<(BitCursor, U56), Error>)
        requires
            c.wf(b@),
        ensures
            r is Ok <==> c.index() + 56 <= b.len() * 8,
            r matches Ok((d, x)) ==> d.wf(b@) && d.index() == c.index() + 56
                && x@ == bits_value(b@, c.index(), 56),
            r matches Err(e) ==> crate::parse::is_failure(e, c.byte as int, crate::parse::ErrorKind::NeedMore),
    {
        proof {
            lemma2_to64();
            lemma2_to64_rest();
        }
        let (d, x) = take_bits_wide(b, c, 56)?;
        Ok((d, U56 { value: x as u64 }))
    }
}

} // verus!
