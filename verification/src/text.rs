//! Small helpers on strings and integers that the rest of the library shares.

use vstd::prelude::*;

verus! {

/// The text `prefix` followed by `rest`.
pub fn prefixed(prefix: &str, rest: &str) -> (r: String)
    ensures
        r@ == prefix@ + rest@,
{
    let mut r = prefix.to_owned();
    r.append(rest);
    r
}

/// A copy of a list of strings.
pub fn copy_strings(v: &Vec<String>) -> (r: Vec<String>)
    ensures
        r@ == v@,
{
    let mut r: Vec<String> = Vec::new();
    for i in 0..v.len()
        invariant
            r@ == v@.take(i as int),
    {
        r.push(v[i].clone());
        assert(v@.take(i + 1) == v@.take(i as int).push(v@[i as int]));
    }
    assert(v@.take(v@.len() as int) == v@);
    r
}

/// A copy of an optional string.
pub fn copy_option(s: &Option<String>) -> (r: Option<String>)
    ensures
        r == *s,
{
    match s {
        Some(t) => Some(t.clone()),
        None => None,
    }
}

/// The `u32` that is congruent to `n` modulo two to the power of 32.
pub open spec fn low_u32(n: int) -> int {
    n % 0x1_0000_0000
}

/// The `i32` that is congruent to `n` modulo two to the power of 32.
pub open spec fn low_i32(n: int) -> int {
    if low_u32(n) < 0x8000_0000 {
        low_u32(n)
    } else {
        low_u32(n) - 0x1_0000_0000
    }
}

/// The `usize` that is congruent to `x` modulo one more than the largest `usize`.
pub open spec fn wrapped_usize(x: int) -> int {
    if x >= 0 {
        x
    } else {
        x + usize::MAX + 1
    }
}

/// Keeps the low 32 bits of `n`.
pub fn to_low_u32(n: usize) -> (r: u32)
    ensures
        r == low_u32(n as int),
        (n - r) % 0x1_0000_0000 == 0,
{
    let wide: u64 = n as u64;
    assert(wide as u32 == wide % 0x1_0000_0000) by (bit_vector);
    #[verifier::truncate]
    (wide as u32)
}

/// Keeps the low 32 bits of `n`, the highest of them as the sign.
pub fn to_low_i32(n: usize) -> (r: i32)
    ensures
        r == low_i32(n as int),
        (n - r) % 0x1_0000_0000 == 0,
{
    let low: u32 = to_low_u32(n);
    assert(low < 0x8000_0000u32 ==> low as i32 == low) by (bit_vector);
    assert(low >= 0x8000_0000u32 ==> low as i32 == low - 0x1_0000_0000) by (bit_vector);
    #[verifier::truncate]
    (low as i32)
}

/// Reads `x` as a `usize`; a negative number wraps around.
pub fn to_wrapped_usize(x: i32) -> (r: usize)
    ensures
        r == wrapped_usize(x as int),
        r == x || (x < 0 && r == x + usize::MAX + 1),
{
    if x >= 0 {
        x as usize
    } else {
        let distance: i64 = -(x as i64);
        usize::MAX - (distance - 1) as usize
    }
}

/// A number and its low 32 bits differ by a multiple of two to the power of 32, and a
/// number that fits is kept. With its range, that fixes what is kept of a number.
pub proof fn law_low_bits(n: int)
    ensures
        0 <= low_u32(n) <= u32::MAX,
        (n - low_u32(n)) % 0x1_0000_0000 == 0,
        0 <= n <= u32::MAX ==> low_u32(n) == n,
        low_u32(n + 0x1_0000_0000) == low_u32(n),
        i32::MIN <= low_i32(n) <= i32::MAX,
        (n - low_i32(n)) % 0x1_0000_0000 == 0,
        i32::MIN <= n <= i32::MAX ==> low_i32(n) == n,
        low_i32(n + 0x1_0000_0000) == low_i32(n),
{
}

/// A number that is not negative is kept, and one that is wraps around: it is as far
/// below the end of the range as it was below zero.
pub proof fn law_wrapped(x: i32)
    ensures
        0 <= wrapped_usize(x as int) <= usize::MAX,
        x >= 0 ==> wrapped_usize(x as int) == x,
        x < 0 ==> usize::MAX - wrapped_usize(x as int) == -1 - x,
{
}

} // verus!
