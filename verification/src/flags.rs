//! The status register: eight condition bits, of which the instructions of this crate
//! use two.
//!
//! A flag is named by its mask, a byte with exactly that bit set. Reading a flag tests the
//! bit; changing a flag replaces that bit and keeps the other seven.
use vstd::prelude::*;

verus! {

/// Mask of the Zero flag (bit 1): the last result was zero.
pub const ZERO_FLAG: u8 = 0b0000_0010;

/// Mask of the Negative flag (bit 7): bit 7 of the last result was set.
pub const NEGATIVE_FLAG: u8 = 0b1000_0000;

/// Whether the flag `mask` is set in `status`.
pub open spec fn flag_is_set(status: u8, mask: u8) -> bool {
    status & mask != 0
}

/// `status` with the flag `mask` set if `on` holds and cleared if not.
pub open spec fn with_flag(status: u8, mask: u8, on: bool) -> u8 {
    if on {
        status | mask
    } else {
        status & !mask
    }
}

/// Whether bit 7 of `value` is set, which is to say whether `value` is negative when read
/// as a signed byte.
pub open spec fn sign_bit(value: u8) -> bool {
    value >= 0x80
}

/// `status` after an instruction has produced `value`: Zero is set exactly if the value
/// is zero, Negative exactly if bit 7 of the value is set.
pub open spec fn with_zero_and_negative(status: u8, value: u8) -> u8 {
    with_flag(with_flag(status, ZERO_FLAG, value == 0), NEGATIVE_FLAG, sign_bit(value))
}

/// Changing a flag gives the bits under its mask the wanted value and keeps every bit
/// outside the mask.
pub proof fn lemma_with_flag(status: u8, mask: u8, on: bool)
    by (bit_vector)
    ensures
        with_flag(status, mask, on) & mask == (if on { mask } else { 0 }),
        with_flag(status, mask, on) & !mask == status & !mask,
{
}

/// After an update from `value`, Zero says whether the value is zero, Negative repeats
/// bit 7 of the value, and the six other bits of the status are the ones it had before.
pub proof fn lemma_with_zero_and_negative(status: u8, value: u8)
    by (bit_vector)
    ensures
        flag_is_set(with_zero_and_negative(status, value), ZERO_FLAG) <==> value == 0,
        flag_is_set(with_zero_and_negative(status, value), NEGATIVE_FLAG) <==> sign_bit(value),
        with_zero_and_negative(status, value) & !(ZERO_FLAG | NEGATIVE_FLAG) == status & !(
        ZERO_FLAG | NEGATIVE_FLAG),
{
}

/// Updating the flags twice from the same value is the same as updating them once.
pub proof fn lemma_with_zero_and_negative_twice(status: u8, value: u8)
    by (bit_vector)
    ensures
        with_zero_and_negative(with_zero_and_negative(status, value), value)
            == with_zero_and_negative(status, value),
{
}

/// Bit 7 of a byte is the bit under the mask of the Negative flag.
pub proof fn lemma_sign_bit(value: u8)
    by (bit_vector)
    ensures
        sign_bit(value) <==> flag_is_set(value, NEGATIVE_FLAG),
{
}

/// Whether the flag `mask` is set in `status`.
pub fn is_set(status: u8, mask: u8) -> (set: bool)
    ensures
        set == flag_is_set(status, mask),
{
    status & mask != 0
}

/// `status` with the flag `mask` set if `on` holds and cleared if not; the bits outside
/// the mask are kept.
pub fn set_flag(status: u8, mask: u8, on: bool) -> (updated: u8)
    ensures
        updated == with_flag(status, mask, on),
        updated & mask == (if on { mask } else { 0 }),
        updated & !mask == status & !mask,
{
    proof {
        lemma_with_flag(status, mask, on);
    }
    if on {
        status | mask
    } else {
        status & !mask
    }
}

} // verus!
