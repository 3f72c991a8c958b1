//! The condition flags held in the status byte: bit 1 is the Zero flag and
//! bit 7 the Negative flag; the remaining bits are reserved and never touched
//! by the current operation set.

use vstd::prelude::*;

verus! {

/// The status bit that holds the Zero flag.
pub const ZERO_FLAG_BIT: u8 = 0x02;

/// The status bit that holds the Negative flag.
pub const NEGATIVE_FLAG_BIT: u8 = 0x80;

/// Whether the Zero flag is set in a status byte.
pub open spec fn zero_flag(status: u8) -> bool {
    status & ZERO_FLAG_BIT != 0
}

/// Whether the Negative flag is set in a status byte.
pub open spec fn negative_flag(status: u8) -> bool {
    status & NEGATIVE_FLAG_BIT != 0
}

/// The status byte after recording `result` in the Zero flag: the flag is set
/// iff `result` is zero, the other bits keep their value.
pub open spec fn spec_set_zero(status: u8, result: u8) -> u8 {
    if result == 0 {
        status | ZERO_FLAG_BIT
    } else {
        status & !ZERO_FLAG_BIT
    }
}

/// The status byte after recording `result` in the Negative flag: the flag is
/// set iff bit 7 of `result` is 1, the other bits keep their value.
pub open spec fn spec_set_negative(status: u8, result: u8) -> u8 {
    if result & NEGATIVE_FLAG_BIT != 0 {
        status | NEGATIVE_FLAG_BIT
    } else {
        status & !NEGATIVE_FLAG_BIT
    }
}

/// The status byte after a flag-affecting operation produced `result`: both
/// the Zero and the Negative flag are recomputed from `result`.
pub open spec fn spec_set_flags(status: u8, result: u8) -> u8 {
    spec_set_negative(spec_set_zero(status, result), result)
}

/// What updating both flags means bit by bit: the Zero flag of the new status
/// says whether `result` is zero, the Negative flag says whether bit 7 of
/// `result` is 1, and the reserved bits are unchanged.
pub proof fn lemma_set_flags(status: u8, result: u8)
    ensures
        zero_flag(spec_set_flags(status, result)) <==> result == 0,
        negative_flag(spec_set_flags(status, result)) <==> result & 0x80 != 0,
        spec_set_flags(status, result) & 0x7D == status & 0x7D,
{
    assert(zero_flag(spec_set_flags(status, result)) <==> result == 0) by (bit_vector);
    assert(negative_flag(spec_set_flags(status, result)) <==> result & 0x80 != 0)
        by (bit_vector);
    assert(spec_set_flags(status, result) & 0x7D == status & 0x7D) by (bit_vector);
}

} // verus!
