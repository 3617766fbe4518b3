//! The 32-bit Morton-code layout: 10 levels of 3 bits, one flag bit.
//!
//! For layout compatibility with the 64-bit variant, the bit just below the
//! flag (bit 30) is a spare: it belongs to no axis and is never touched.

use vstd::prelude::*;

verus! {

/// Bit width of the packed word.
pub const NUM_BITS: usize = 32;

/// Number of usable levels: one bit per axis and level, below the flag bit.
pub const MAX_DEPTH: usize = (NUM_BITS - 1) / 3;

/// Every third bit set, starting at bit 0: the x-axis mask (10 bits).
pub const MASK: u32 = 0x0924_9249;

/// The most-significant bit: the flag, orthogonal to the coordinate payload.
pub const FLAG: u32 = 0x8000_0000;

/// Bit 30, unused by every axis and by the flag.
pub const SPARE: u32 = 0x4000_0000;

/// Largest coordinate an axis can hold: `2^MAX_DEPTH - 1`.
pub const COORD_MAX: u32 = 0x3FF;

/// The mask selecting the bits of axis `a` (0: x, 1: y, 2: z).
pub open spec fn axis_mask(a: u32) -> u32
    recommends
        a < 3,
{
    MASK << a
}

/// Gathers every third bit of `v` (bits 0, 3, ..., 27) into a contiguous
/// 10-bit value: the inverse of dilating a coordinate into axis 0.
pub open spec fn compact(v: u32) -> u32 {
    (v & 1) | (((v >> 3) & 1) << 1) | (((v >> 6) & 1) << 2) | (((v >> 9) & 1) << 3)
        | (((v >> 12) & 1) << 4) | (((v >> 15) & 1) << 5) | (((v >> 18) & 1) << 6)
        | (((v >> 21) & 1) << 7) | (((v >> 24) & 1) << 8) | (((v >> 27) & 1) << 9)
}

/// The coordinate encoded in axis `a` of the packed value `v`.
pub open spec fn coord(v: u32, a: u32) -> u32
    recommends
        a < 3,
{
    compact(v >> a)
}

/// Whether the flag bit of `v` is set.
pub open spec fn flag_set(v: u32) -> bool {
    (v >> 31) == 1
}

/// The packed value with axis `a` incremented by one in dilated arithmetic.
/// Setting every foreign bit to 1 before adding lets the carry ripple
/// through them (they are masked away afterwards) until it reaches the next
/// bit owned by the axis.  Wraps silently when the axis is at `COORD_MAX`.
pub open spec fn increased(v: u32, a: u32) -> u32
    recommends
        a < 3,
{
    let m = axis_mask(a);
    ((((v | !m) + 1) as u32) & m) | (v & !m)
}

/// The packed value with axis `a` decremented by one in dilated arithmetic.
/// Zeroing every foreign bit first lets the borrow ripple through them
/// until it reaches the next bit owned by the axis.  Wraps silently when
/// the axis is at 0.
pub open spec fn decreased(v: u32, a: u32) -> u32
    recommends
        a < 3,
{
    let m = axis_mask(a);
    ((((v & m) - 1) as u32) & m) | (v & !m)
}

/// A 3-dimension Morton code (z, y, x), 10 levels; the most-significant bit
/// is a 1-bit flag, and bit 30 is an unused spare.  A plain value type: any
/// `u32` is a valid code, and equality, hashing and ordering are
/// bit-for-bit on the word.
#[derive(Debug, Clone, Copy, Hash, PartialEq, Eq, PartialOrd, Ord, Structural)]
pub struct Morton3D32(pub u32);

impl Morton3D32 {
    /// Reads the flag: true exactly when the most-significant bit is set.
    pub fn is_flag_set(self) -> (r: bool)
        ensures
            r == flag_set(self.0),
    {
        (self.0 >> 31) == 1
    }

    /// Sets the flag bit; every coordinate bit is left unchanged.
    pub fn set_flag(&mut self)
        ensures
            final(self).0 == old(self).0 | FLAG,
            flag_set(final(self).0),
            forall|a: u32| a < 3 ==> coord(final(self).0, a) == coord(old(self).0, a),
    {
        self.0 = self.0 | FLAG;
        proof {
            lemma_flag_coord_independent(old(self).0, 0);
            assert forall|a: u32| a < 3 implies coord(self.0, a) == coord(old(self).0, a) by {
                lemma_flag_coord_independent(old(self).0, a);
            }
        }
    }

    /// Clears the flag bit; every coordinate bit is left unchanged.
    pub fn unset_flag(&mut self)
        ensures
            final(self).0 == old(self).0 & !FLAG,
            !flag_set(final(self).0),
            forall|a: u32| a < 3 ==> coord(final(self).0, a) == coord(old(self).0, a),
    {
        self.0 = self.0 & !FLAG;
        proof {
            lemma_flag_coord_independent(old(self).0, 0);
            assert forall|a: u32| a < 3 implies coord(self.0, a) == coord(old(self).0, a) by {
                lemma_flag_coord_independent(old(self).0, a);
            }
        }
    }

    /// The mask of the bits owned by axis `n % 3`.
    pub fn mask_n(n: usize) -> (r: u32)
        ensures
            r == axis_mask((n % 3) as u32),
    {
        MASK << (n % 3)
    }

    /// Increments axis `n % 3` (0: x, 1: y, 2: z) by one in dilated
    /// arithmetic: that axis's coordinate grows by one (wrapping to 0 past
    /// `COORD_MAX`), while the other two axes, the flag bit and the spare
    /// bit are left bit-for-bit unchanged.
    pub fn increase_nth_dim(self, n: usize) -> (r: Self)
        ensures
            r.0 == increased(self.0, (n % 3) as u32),
            r.0 & !axis_mask((n % 3) as u32) == self.0 & !axis_mask((n % 3) as u32),
            coord(r.0, (n % 3) as u32) == (if coord(self.0, (n % 3) as u32) == COORD_MAX {
                0u32
            } else {
                (coord(self.0, (n % 3) as u32) + 1) as u32
            }),
            forall|b: u32| b < 3 && b != (n % 3) as u32 ==> coord(r.0, b) == coord(self.0, b),
            flag_set(r.0) == flag_set(self.0),
    {
        let m = Self::mask_n(n);
        let t = self.0 | !m;
        let bumped: u32 = if t == u32::MAX {
            0
        } else {
            t + 1
        };
        let r = Morton3D32((bumped & m) | (self.0 & !m));
        proof {
            let a = (n % 3) as u32;
            assert(((t + 1) as u32) == (if t == u32::MAX {
                0u32
            } else {
                (t + 1) as u32
            })) by (bit_vector);
            lemma_increased_coord(self.0, a);
            assert forall|b: u32| b < 3 && b != a implies coord(r.0, b) == coord(self.0, b) by {
                lemma_non_interference(self.0, a, b);
            }
        }
        r
    }

    /// Decrements axis `n % 3` (0: x, 1: y, 2: z) by one in dilated
    /// arithmetic: that axis's coordinate shrinks by one (wrapping to
    /// `COORD_MAX` below 0), while the other two axes, the flag bit and
    /// the spare bit are left bit-for-bit unchanged.
    pub fn decrease_nth_dim(self, n: usize) -> (r: Self)
        ensures
            r.0 == decreased(self.0, (n % 3) as u32),
            r.0 & !axis_mask((n % 3) as u32) == self.0 & !axis_mask((n % 3) as u32),
            coord(r.0, (n % 3) as u32) == (if coord(self.0, (n % 3) as u32) == 0 {
                COORD_MAX
            } else {
                (coord(self.0, (n % 3) as u32) - 1) as u32
            }),
            forall|b: u32| b < 3 && b != (n % 3) as u32 ==> coord(r.0, b) == coord(self.0, b),
            flag_set(r.0) == flag_set(self.0),
    {
        let m = Self::mask_n(n);
        let t = self.0 & m;
        let dropped: u32 = if t == 0 {
            u32::MAX
        } else {
            t - 1
        };
        let r = Morton3D32((dropped & m) | (self.0 & !m));
        proof {
            let a = (n % 3) as u32;
            assert(((t - 1) as u32) == (if t == 0 {
                u32::MAX
            } else {
                (t - 1) as u32
            })) by (bit_vector);
            lemma_decreased_coord(self.0, a);
            assert forall|b: u32| b < 3 && b != a implies coord(r.0, b) == coord(self.0, b) by {
                lemma_non_interference(self.0, a, b);
            }
        }
        r
    }

    /// Increments the x coordinate by one (wrapping to 0 past `COORD_MAX`);
    /// the y and z coordinates and the flag bit are unchanged.
    pub fn increase_x(self) -> (r: Self)
        ensures
            r.0 == increased(self.0, 0),
            coord(r.0, 0) == (if coord(self.0, 0) == COORD_MAX {
                0u32
            } else {
                (coord(self.0, 0) + 1) as u32
            }),
            coord(r.0, 1) == coord(self.0, 1),
            coord(r.0, 2) == coord(self.0, 2),
            flag_set(r.0) == flag_set(self.0),
    {
        self.increase_nth_dim(0)
    }

    /// Increments the y coordinate by one (wrapping to 0 past `COORD_MAX`);
    /// the x and z coordinates and the flag bit are unchanged.
    pub fn increase_y(self) -> (r: Self)
        ensures
            r.0 == increased(self.0, 1),
            coord(r.0, 1) == (if coord(self.0, 1) == COORD_MAX {
                0u32
            } else {
                (coord(self.0, 1) + 1) as u32
            }),
            coord(r.0, 0) == coord(self.0, 0),
            coord(r.0, 2) == coord(self.0, 2),
            flag_set(r.0) == flag_set(self.0),
    {
        self.increase_nth_dim(1)
    }

    /// Increments the z coordinate by one (wrapping to 0 past `COORD_MAX`);
    /// the x and y coordinates and the flag bit are unchanged.
    pub fn increase_z(self) -> (r: Self)
        ensures
            r.0 == increased(self.0, 2),
            coord(r.0, 2) == (if coord(self.0, 2) == COORD_MAX {
                0u32
            } else {
                (coord(self.0, 2) + 1) as u32
            }),
            coord(r.0, 0) == coord(self.0, 0),
            coord(r.0, 1) == coord(self.0, 1),
            flag_set(r.0) == flag_set(self.0),
    {
        self.increase_nth_dim(2)
    }

    /// Decrements the x coordinate by one (wrapping to `COORD_MAX` below
    /// 0); the y and z coordinates and the flag bit are unchanged.
    pub fn decrease_x(self) -> (r: Self)
        ensures
            r.0 == decreased(self.0, 0),
            coord(r.0, 0) == (if coord(self.0, 0) == 0 {
                COORD_MAX
            } else {
                (coord(self.0, 0) - 1) as u32
            }),
            coord(r.0, 1) == coord(self.0, 1),
            coord(r.0, 2) == coord(self.0, 2),
            flag_set(r.0) == flag_set(self.0),
    {
        self.decrease_nth_dim(0)
    }

    /// Decrements the y coordinate by one (wrapping to `COORD_MAX` below
    /// 0); the x and z coordinates and the flag bit are unchanged.
    pub fn decrease_y(self) -> (r: Self)
        ensures
            r.0 == decreased(self.0, 1),
            coord(r.0, 1) == (if coord(self.0, 1) == 0 {
                COORD_MAX
            } else {
                (coord(self.0, 1) - 1) as u32
            }),
            coord(r.0, 0) == coord(self.0, 0),
            coord(r.0, 2) == coord(self.0, 2),
            flag_set(r.0) == flag_set(self.0),
    {
        self.decrease_nth_dim(1)
    }

    /// Decrements the z coordinate by one (wrapping to `COORD_MAX` below
    /// 0); the x and y coordinates and the flag bit are unchanged.
    pub fn decrease_z(self) -> (r: Self)
        ensures
            r.0 == decreased(self.0, 2),
            coord(r.0, 2) == (if coord(self.0, 2) == 0 {
                COORD_MAX
            } else {
                (coord(self.0, 2) - 1) as u32
            }),
            coord(r.0, 0) == coord(self.0, 0),
            coord(r.0, 1) == coord(self.0, 1),
            flag_set(r.0) == flag_set(self.0),
    {
        self.decrease_nth_dim(2)
    }
}

impl Default for Morton3D32 {
    /// The all-zero code: every coordinate 0, flag clear.
    fn default() -> (r: Self)
        ensures
            r.0 == 0,
    {
        Morton3D32(0)
    }
}

impl From<u32> for Morton3D32 {
    /// Identity conversion from the raw word: no transformation, no
    /// validation.
    fn from(v: u32) -> (r: Self)
        ensures
            r.0 == v,
    {
        Morton3D32(v)
    }
}

impl vstd::std_specs::convert::FromSpecImpl<u32> for Morton3D32 {
    open spec fn obeys_from_spec() -> bool {
        true
    }

    open spec fn from_spec(v: u32) -> Self {
        Morton3D32(v)
    }
}

impl From<Morton3D32> for u32 {
    /// Identity conversion to the raw word: the seam through which an
    /// external encoder or decoder consumes packed codes.
    fn from(m: Morton3D32) -> (r: u32)
        ensures
            r == m.0,
    {
        m.0
    }
}

impl vstd::std_specs::convert::FromSpecImpl<Morton3D32> for u32 {
    open spec fn obeys_from_spec() -> bool {
        true
    }

    open spec fn from_spec(m: Morton3D32) -> u32 {
        m.0
    }
}

/// Setting or clearing the flag bit changes no coordinate, and the flag
/// reads as expected afterwards.
pub proof fn lemma_flag_coord_independent(v: u32, a: u32)
    by (bit_vector)
    requires
        a < 3,
    ensures
        coord(v | FLAG, a) == coord(v, a),
        coord(v & !FLAG, a) == coord(v, a),
        flag_set(v | FLAG),
        !flag_set(v & !FLAG),
{
}

/// Every coordinate fits in `MAX_DEPTH` bits.
pub proof fn lemma_coord_bound(v: u32, a: u32)
    by (bit_vector)
    ensures
        coord(v, a) <= COORD_MAX,
{
}

/// Incrementing an axis adds one to that axis's coordinate, wrapping to 0
/// past `COORD_MAX`, and leaves every bit outside the axis's mask (the
/// other axes, the flag, the spare) unchanged.
pub proof fn lemma_increased_coord(v: u32, a: u32)
    by (bit_vector)
    requires
        a < 3,
    ensures
        increased(v, a) & !axis_mask(a) == v & !axis_mask(a),
        coord(increased(v, a), a) == (if coord(v, a) == COORD_MAX {
            0u32
        } else {
            (coord(v, a) + 1) as u32
        }),
        flag_set(increased(v, a)) == flag_set(v),
{
}

/// Decrementing an axis subtracts one from that axis's coordinate,
/// wrapping to `COORD_MAX` below 0, and leaves every bit outside the
/// axis's mask unchanged.
pub proof fn lemma_decreased_coord(v: u32, a: u32)
    by (bit_vector)
    requires
        a < 3,
    ensures
        decreased(v, a) & !axis_mask(a) == v & !axis_mask(a),
        coord(decreased(v, a), a) == (if coord(v, a) == 0 {
            COORD_MAX
        } else {
            (coord(v, a) - 1) as u32
        }),
        flag_set(decreased(v, a)) == flag_set(v),
{
}

/// Every axis mask is disjoint from every other, and together the three
/// masks cover exactly the bits below the spare and flag bits.
pub proof fn lemma_mask_partition()
    by (bit_vector)
    ensures
        axis_mask(0) & axis_mask(1) == 0,
        axis_mask(0) & axis_mask(2) == 0,
        axis_mask(1) & axis_mask(2) == 0,
        axis_mask(0) | axis_mask(1) | axis_mask(2) == !(FLAG | SPARE),
{
}

/// Non-interference: incrementing or decrementing axis `a` agrees with the
/// original value on every bit of any other axis `b`, on that axis's
/// coordinate, and on the flag and spare bits.
pub proof fn lemma_non_interference(v: u32, a: u32, b: u32)
    by (bit_vector)
    requires
        a < 3,
        b < 3,
        a != b,
    ensures
        increased(v, a) & axis_mask(b) == v & axis_mask(b),
        decreased(v, a) & axis_mask(b) == v & axis_mask(b),
        coord(increased(v, a), b) == coord(v, b),
        coord(decreased(v, a), b) == coord(v, b),
        increased(v, a) & (FLAG | SPARE) == v & (FLAG | SPARE),
        decreased(v, a) & (FLAG | SPARE) == v & (FLAG | SPARE),
        flag_set(increased(v, a)) == flag_set(v),
        flag_set(decreased(v, a)) == flag_set(v),
{
}

/// Round trip, upward first: on a value whose axis `a` is not at the upper
/// boundary `COORD_MAX`, incrementing and then decrementing that axis
/// restores the value bit-for-bit.
pub proof fn lemma_increase_then_decrease(v: u32, a: u32)
    by (bit_vector)
    requires
        a < 3,
        coord(v, a) != COORD_MAX,
    ensures
        decreased(increased(v, a), a) == v,
{
}

/// Round trip, downward first: on a value whose axis `a` is not at the
/// lower boundary 0, decrementing and then incrementing that axis restores
/// the value bit-for-bit.
pub proof fn lemma_decrease_then_increase(v: u32, a: u32)
    by (bit_vector)
    requires
        a < 3,
        coord(v, a) != 0,
    ensures
        increased(decreased(v, a), a) == v,
{
}

} // verus!
