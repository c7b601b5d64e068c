//! A `(status, length)` pair packed into one `u64`, so that a single wasm return
//! value can carry both: the status in the upper 32 bits, the length in the lower.
use vstd::prelude::*;

verus! {

/// `2^32`, the weight of the status half.
pub open spec fn high_unit() -> int {
    0x1_0000_0000
}

/// The packed value of `(result, len)`.
pub open spec fn packed(result: u32, len: u32) -> int {
    result * high_unit() + len
}

/// The status half of a packed value, read as a boolean: nonzero means success.
pub open spec fn packed_ok(value: u64) -> bool {
    value / (high_unit() as u64) != 0
}

/// The length half of a packed value.
pub open spec fn packed_len(value: u64) -> u32 {
    (value % (high_unit() as u64)) as u32
}

/// Packs `result` into the upper and `len` into the lower 32 bits.
pub fn new(result: u32, len: u32) -> (r: u64)
    ensures
        r == packed(result, len),
{
    let r: u64 = (result as u64) << 32 | len as u64;
    assert(r == result * 0x1_0000_0000 + len) by (bit_vector)
        requires
            r == (result as u64) << 32 | len as u64,
    ;
    r
}

/// Unpacks a value made by [`new`]: whether its status is nonzero, and its length.
pub fn split(value: u64) -> (r: (bool, u32))
    ensures
        r.0 == packed_ok(value),
        r.1 == packed_len(value),
{
    let ok = value >> 32 != 0;
    let len = value as u32;
    assert((value >> 32 != 0) == (value / 0x1_0000_0000 != 0)) by (bit_vector);
    assert(value as u32 == value % 0x1_0000_0000) by (bit_vector);
    (ok, len)
}

/// Unpacking what was packed gives back the length, and success exactly when the
/// status was nonzero.
pub proof fn law_split_new(result: u32, len: u32)
    ensures
        packed(result, len) <= u64::MAX,
        packed_ok(packed(result, len) as u64) == (result != 0),
        packed_len(packed(result, len) as u64) == len,
{
    let v = packed(result, len);
    assert(v <= u64::MAX) by (nonlinear_arith)
        requires
            v == result * 0x1_0000_0000 + len,
            result <= u32::MAX,
            len <= u32::MAX,
    ;
    assert(v / 0x1_0000_0000 == result && v % 0x1_0000_0000 == len) by (nonlinear_arith)
        requires
            v == result * 0x1_0000_0000 + len,
            0 <= len < 0x1_0000_0000,
    ;
}

} // verus!
