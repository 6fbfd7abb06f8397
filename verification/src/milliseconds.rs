//! Instants and durations, 32 bits wide, with millisecond precision.
//!
//! Instants do not refer to a well-defined epoch; only differences carry
//! meaning. Two instants can be subtracted, giving a signed duration, and a
//! duration can be added to an instant. All arithmetic wraps around at the
//! 32-bit boundary, so differences are meaningful as long as the true time
//! span between any two compared instants stays below roughly 24 days
//! (the range of a signed 32-bit millisecond count). Keeping spans within
//! that range is the caller's obligation; the type itself never fails.

use vstd::prelude::*;

verus! {

/// The underlying integer type representing an instant.
pub type InstantMillisInner = u32;

/// The underlying integer type representing a duration in milliseconds.
/// Durations can be negative, meaning "already elapsed".
pub type DurationMillis = i32;

/// The wrapping difference `a - b` of two 32-bit instants, read as a
/// two's-complement signed value: the unique integer congruent to
/// `a - b` modulo 2^32 that lies in the `i32` range.
pub open spec fn wrapping_diff(a: u32, b: u32) -> i32 {
    if a - b >= 0x8000_0000 {
        (a - b - 0x1_0000_0000) as i32
    } else if a - b < -0x8000_0000 {
        (a - b + 0x1_0000_0000) as i32
    } else {
        (a - b) as i32
    }
}

/// The instant `d` milliseconds after `a`, wrapping around at 2^32.
pub open spec fn wrapping_offset(a: u32, d: i32) -> u32 {
    if a + d > u32::MAX {
        (a + d - 0x1_0000_0000) as u32
    } else if a + d < 0 {
        (a + d + 0x1_0000_0000) as u32
    } else {
        (a + d) as u32
    }
}

/// The wrapping difference `a - b` of two signed 32-bit durations: the
/// unique integer congruent to `a - b` modulo 2^32 that lies in the `i32`
/// range. It equals the plain difference whenever that stays in range.
pub open spec fn wrapping_sub_millis(a: DurationMillis, b: DurationMillis) -> DurationMillis {
    if a - b > i32::MAX {
        (a - b - 0x1_0000_0000) as i32
    } else if a - b < i32::MIN {
        (a - b + 0x1_0000_0000) as i32
    } else {
        (a - b) as i32
    }
}

/// An instant in time, with millisecond precision and 32 bit width.
///
/// See the module level documentation for the arithmetic rules.
#[derive(Clone, Copy, Debug, PartialEq, Eq)]
pub struct InstantMillis(InstantMillisInner);

impl View for InstantMillis {
    type V = u32;

    closed spec fn view(&self) -> u32 {
        self.0
    }
}

impl InstantMillis {
    /// Constructs an instant from a given integer value.
    ///
    /// The value must refer to the same reference point as all the other
    /// instants it is ever compared with.
    pub fn from_absolute(millis: InstantMillisInner) -> (r: Self)
        ensures
            r@ == millis,
    {
        InstantMillis(millis)
    }

    /// Converts to the underlying integer representation.
    pub fn into_inner(self) -> (r: InstantMillisInner)
        ensures
            r == self@,
    {
        self.0
    }

    /// Subtracts another instant, giving the signed millisecond difference.
    ///
    /// Because of the two's-complement reading of the wrapping difference,
    /// the result is negative when `rhs` lies after `self` in time, provided
    /// the true time difference does not exceed the `i32` range.
    pub fn sub(self, rhs: Self) -> (r: DurationMillis)
        ensures
            r == wrapping_diff(self@, rhs@),
    {
        let diff = self.0.wrapping_sub(rhs.0);
        proof {
            lemma_u32_reinterpret(diff);
        }
        #[verifier::truncate] (diff as DurationMillis)
    }

    /// Adds a signed duration, wrapping around at the 32-bit boundary.
    pub fn add(self, rhs: DurationMillis) -> (r: Self)
        ensures
            r@ == wrapping_offset(self@, rhs),
    {
        InstantMillis(self.0.wrapping_add_signed(rhs))
    }

    /// Adds a signed duration in place, wrapping around at the 32-bit boundary.
    pub fn add_assign(&mut self, rhs: DurationMillis)
        ensures
            final(self)@ == wrapping_offset(old(self)@, rhs),
    {
        self.0 = self.0.wrapping_add_signed(rhs);
    }
}

/// Reading a `u32` as an `i32` subtracts 2^32 from values at or above 2^31
/// and keeps smaller values as they are.
proof fn lemma_u32_reinterpret(d: u32)
    ensures
        d >= 0x8000_0000 ==> (d as i32) == d - 0x1_0000_0000,
        d < 0x8000_0000 ==> (d as i32) == d as int,
{
    assert(d >= 0x8000_0000 ==> (d as i32) == d - 0x1_0000_0000) by (bit_vector);
    assert(d < 0x8000_0000 ==> (d as i32) == d as int) by (bit_vector);
}

/// Adding the difference of two instants to the first gives back the second:
/// `t1 + (t2 - t1) == t2`, for every pair of instants.
pub proof fn lemma_offset_by_diff(t1: u32, t2: u32)
    ensures
        wrapping_offset(t1, wrapping_diff(t2, t1)) == t2,
{
}

/// Subtracting an instant from the same instant moved by `d` gives back `d`:
/// `(t + d) - t == d`, for every instant and every duration.
pub proof fn lemma_diff_of_offset(t: u32, d: i32)
    ensures
        wrapping_diff(wrapping_offset(t, d), t) == d,
{
}

/// The 32-bit instant that stands for a true (unbounded) millisecond count.
pub open spec fn instant_of_real(t: int) -> u32 {
    (t % 0x1_0000_0000) as u32
}

/// As long as the true difference of two real times lies within the duration
/// range, subtracting their instants yields exactly that difference.
pub proof fn lemma_diff_is_real_diff(t1: int, t2: int)
    requires
        0 <= t1,
        0 <= t2,
        -0x8000_0000 <= t2 - t1 < 0x8000_0000,
    ensures
        wrapping_diff(instant_of_real(t2), instant_of_real(t1)) == t2 - t1,
{
    let m = 0x1_0000_0000int;
    let a = t2 % m;
    let b = t1 % m;
    vstd::arithmetic::div_mod::lemma_mod_bound(t1, m);
    vstd::arithmetic::div_mod::lemma_mod_bound(t2, m);
    vstd::arithmetic::div_mod::lemma_sub_mod_noop(t2, t1, m);
    vstd::arithmetic::div_mod::lemma_mod_twice(t2 - t1, m);
    // a - b and t2 - t1 are congruent modulo 2^32 and both lie in (-2^32, 2^32),
    // so they differ by -2^32, 0, or 2^32; the range bound picks the right one.
    assert((a - b) % m == (t2 - t1) % m);
    if a - b == t2 - t1 {
    } else if a - b == t2 - t1 + m {
        assert(a - b >= 0x8000_0000);
    } else if a - b == t2 - t1 - m {
        assert(a - b < -0x8000_0000);
    } else {
        vstd::arithmetic::div_mod::lemma_mod_equivalence(a - b, t2 - t1, m);
        assert(false);
    }
}

} // verus!
