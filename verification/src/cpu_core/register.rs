use vstd::prelude::*;

verus! {

/// Outcome of an arithmetic register operation: whether the operation
/// overflowed the 16-bit range, and whether the nibble rule (see
/// `spec_half_carry`) reports a half-carry.
pub struct CarryState {
    pub carry: bool,
    pub half_carry: bool,
}

/// The most-significant byte of a 16-bit word.
pub open spec fn upper8(value: u16) -> u8 {
    (value / 0x100) as u8
}

/// The least-significant byte of a 16-bit word.
pub open spec fn lower8(value: u16) -> u8 {
    (value % 0x100) as u8
}

/// The 16-bit word whose most-significant byte is `upper` and whose
/// least-significant byte is `lower`.
pub open spec fn combine16(upper: u8, lower: u8) -> u16 {
    (upper * 0x100 + lower) as u16
}

/// Addition modulo 2^16.
pub open spec fn spec_wrap_add(value: u16, delta: u16) -> u16 {
    ((value + delta) % 0x10000) as u16
}

/// Subtraction modulo 2^16.
pub open spec fn spec_wrap_sub(value: u16, delta: u16) -> u16 {
    if delta <= value {
        (value - delta) as u16
    } else {
        (value + 0x10000 - delta) as u16
    }
}

/// The half-carry rule: the low nibble of the upper byte of the register's
/// prior value, added to the low nibble of the low byte of the delta,
/// carries out of bit 3 (the nibble sum reaches 0x10).
pub open spec fn spec_half_carry(value: u16, delta: u16) -> bool {
    upper8(value) % 0x10 + lower8(delta) % 0x10 >= 0x10
}

/// Word with bit `bit_index` set; out-of-range indices leave it unchanged.
pub open spec fn spec_set_bit(value: u16, bit_index: u8) -> u16 {
    if bit_index > 15 {
        value
    } else {
        value | (1u16 << bit_index)
    }
}

/// Word with bit `bit_index` cleared; out-of-range indices leave it unchanged.
pub open spec fn spec_clear_bit(value: u16, bit_index: u8) -> u16 {
    if bit_index > 15 {
        value
    } else {
        value & !(1u16 << bit_index)
    }
}

/// Word with logical bit `bit_index` of its upper byte set, the lower byte
/// untouched; out-of-range indices leave it unchanged.
pub open spec fn spec_set_bit_upper(value: u16, bit_index: u8) -> u16 {
    if bit_index > 7 {
        value
    } else {
        combine16(upper8(value) | (1u8 << bit_index), lower8(value))
    }
}

/// Word with bit `bit_index` of its lower byte set, the upper byte untouched;
/// out-of-range indices leave it unchanged.
pub open spec fn spec_set_bit_lower(value: u16, bit_index: u8) -> u16 {
    if bit_index > 7 {
        value
    } else {
        combine16(upper8(value), lower8(value) | (1u8 << bit_index))
    }
}

/// Word with logical bit `bit_index` of its upper byte cleared, the lower
/// byte untouched; out-of-range indices leave it unchanged.
pub open spec fn spec_clear_bit_upper(value: u16, bit_index: u8) -> u16 {
    if bit_index > 7 {
        value
    } else {
        combine16(upper8(value) & !(1u8 << bit_index), lower8(value))
    }
}

/// Word with bit `bit_index` of its lower byte cleared, the upper byte
/// untouched; out-of-range indices leave it unchanged.
pub open spec fn spec_clear_bit_lower(value: u16, bit_index: u8) -> u16 {
    if bit_index > 7 {
        value
    } else {
        combine16(upper8(value), lower8(value) & !(1u8 << bit_index))
    }
}

fn _read_upper(value: u16) -> (r: u8)
    ensures
        r == upper8(value),
{
    let masked = value & 0b1111_1111_0000_0000;
    proof {
        assert((value & 0b1111_1111_0000_0000) >> 8 == value / 0x100) by (bit_vector);
    }
    (masked >> 8) as u8
}

fn _read_lower(value: u16) -> (r: u8)
    ensures
        r == lower8(value),
{
    // Shift the bits to the most-significant end to zero out the upper byte,
    // then shift them back down.
    let shifted = value << 8;
    let masked = shifted & 0b1111_1111_0000_0000;
    proof {
        assert(((value << 8) & 0b1111_1111_0000_0000) >> 8 == value % 0x100) by (bit_vector);
    }
    (masked >> 8) as u8
}

/// The operations every 16-bit register cell offers: full-word and half-word
/// access, absolute and byte-logical bit mutation, and wrapping arithmetic
/// that reports carries.
pub trait RegisterOperation {
    /// The 16-bit word currently stored.
    spec fn val(&self) -> u16;

    fn read(&self) -> (r: u16)
        ensures
            r == self.val(),
    ;

    fn read_upper(&self) -> (r: u8)
        ensures
            r == upper8(self.val()),
    ;

    fn read_lower(&self) -> (r: u8)
        ensures
            r == lower8(self.val()),
    ;

    fn write(&mut self, value: u16)
        ensures
            final(self).val() == value,
    ;

    fn write_upper(&mut self, value: u8)
        ensures
            final(self).val() == combine16(value, lower8(old(self).val())),
    ;

    fn write_lower(&mut self, value: u8)
        ensures
            final(self).val() == combine16(upper8(old(self).val()), value),
    ;

    fn set_bit(&mut self, bit_index: u8)
        ensures
            final(self).val() == spec_set_bit(old(self).val(), bit_index),
    ;

    fn set_bit_upper(&mut self, bit_index: u8)
        ensures
            final(self).val() == spec_set_bit_upper(old(self).val(), bit_index),
    ;

    fn set_bit_lower(&mut self, bit_index: u8)
        ensures
            final(self).val() == spec_set_bit_lower(old(self).val(), bit_index),
    ;

    fn clear_bit(&mut self, bit_index: u8)
        ensures
            final(self).val() == spec_clear_bit(old(self).val(), bit_index),
    ;

    fn clear_bit_upper(&mut self, bit_index: u8)
        ensures
            final(self).val() == spec_clear_bit_upper(old(self).val(), bit_index),
    ;

    fn clear_bit_lower(&mut self, bit_index: u8)
        ensures
            final(self).val() == spec_clear_bit_lower(old(self).val(), bit_index),
    ;

    fn is_half_carry(&self, delta: u16) -> (r: bool)
        ensures
            r == spec_half_carry(self.val(), delta),
    ;

    fn increment(&mut self, delta: u16) -> (r: CarryState)
        ensures
            final(self).val() == spec_wrap_add(old(self).val(), delta),
            r.carry == (old(self).val() + delta > 0xFFFF),
            r.half_carry == spec_half_carry(old(self).val(), delta),
    ;

    fn decrement(&mut self, delta: u16) -> (r: CarryState)
        ensures
            final(self).val() == spec_wrap_sub(old(self).val(), delta),
            r.carry == (delta > old(self).val()),
            r.half_carry == spec_half_carry(old(self).val(), delta),
    ;
}

/// A 16-bit register cell.
pub struct Register {
    value: u16,
}

impl Default for Register {
    /// A fresh register holds zero.
    fn default() -> (r: Register)
        ensures
            r.val() == 0,
    {
        Register { value: 0 }
    }
}

/// Splitting a word into its two bytes loses nothing: the bytes reassemble
/// to the original word.
pub proof fn lemma_round_trip(value: u16)
    by (bit_vector)
    ensures
        combine16(upper8(value), lower8(value)) == value,
{
}

/// Assembling a word from two bytes puts each byte where the split finds it,
/// and equals the shift-or form.
pub proof fn lemma_combine_parts(upper: u8, lower: u8)
    by (bit_vector)
    ensures
        upper8(combine16(upper, lower)) == upper,
        lower8(combine16(upper, lower)) == lower,
        combine16(upper, lower) == ((upper as u16) << 8) | (lower as u16),
{
}

/// Setting a logical bit of the upper byte is the same as setting the
/// absolute bit eight positions higher.
pub proof fn lemma_set_bit_upper_is_absolute(value: u16, bit_index: u8)
    by (bit_vector)
    requires
        bit_index <= 7,
    ensures
        spec_set_bit_upper(value, bit_index) == spec_set_bit(value, (bit_index + 8) as u8),
{
}

/// Clearing a logical bit of the upper byte is the same as clearing the
/// absolute bit eight positions higher.
pub proof fn lemma_clear_bit_upper_is_absolute(value: u16, bit_index: u8)
    by (bit_vector)
    requires
        bit_index <= 7,
    ensures
        spec_clear_bit_upper(value, bit_index) == spec_clear_bit(value, (bit_index + 8) as u8),
{
}

/// A bit operation confined to the lower byte equals the absolute form at
/// the same index.
proof fn lemma_bit_lower_is_absolute(value: u16, bit_index: u8)
    by (bit_vector)
    requires
        bit_index <= 7,
    ensures
        spec_set_bit_lower(value, bit_index) == spec_set_bit(value, bit_index),
        spec_clear_bit_lower(value, bit_index) == spec_clear_bit(value, bit_index),
{
}

impl RegisterOperation for Register {
    closed spec fn val(&self) -> u16 {
        self.value
    }

    fn read(&self) -> u16 {
        self.value
    }

    fn read_upper(&self) -> u8 {
        _read_upper(self.value)
    }

    fn read_lower(&self) -> u8 {
        _read_lower(self.value)
    }

    fn write(&mut self, value: u16) {
        self.value = value;
    }

    fn write_upper(&mut self, value: u8) {
        let prior = self.value;
        // Zero out the most-significant byte, then put the new byte there.
        self.value = (prior & 0b0000_0000_1111_1111) | ((value as u16) << 8);
        proof {
            assert((prior & 0b0000_0000_1111_1111) | ((value as u16) << 8) == combine16(
                value,
                lower8(prior),
            )) by (bit_vector);
        }
    }

    fn write_lower(&mut self, value: u8) {
        let prior = self.value;
        // Zero out the least-significant byte, then put the new byte there.
        self.value = (prior & 0b1111_1111_0000_0000) | (value as u16);
        proof {
            assert((prior & 0b1111_1111_0000_0000) | (value as u16) == combine16(
                upper8(prior),
                value,
            )) by (bit_vector);
        }
    }

    fn set_bit(&mut self, bit_index: u8) {
        if bit_index > 15 {
            // Out of range for a 16-bit word: reject without mutation.
            return;
        }
        let mask = 1u16 << bit_index;
        self.value = self.value | mask;
    }

    fn set_bit_upper(&mut self, bit_index: u8) {
        if bit_index > 7 {
            // Out of range for one byte: reject without mutation.
            return;
        }
        proof {
            lemma_set_bit_upper_is_absolute(self.value, bit_index);
        }
        self.set_bit(bit_index + 8);
    }

    fn set_bit_lower(&mut self, bit_index: u8) {
        if bit_index > 7 {
            // Out of range for one byte: reject without mutation.
            return;
        }
        proof {
            lemma_bit_lower_is_absolute(self.value, bit_index);
        }
        self.set_bit(bit_index);
    }

    fn clear_bit(&mut self, bit_index: u8) {
        if bit_index > 15 {
            // Out of range for a 16-bit word: reject without mutation.
            return;
        }
        let mask = 1u16 << bit_index;
        self.value = self.value & !mask;
    }

    fn clear_bit_upper(&mut self, bit_index: u8) {
        if bit_index > 7 {
            // Out of range for one byte: reject without mutation.
            return;
        }
        proof {
            lemma_clear_bit_upper_is_absolute(self.value, bit_index);
        }
        self.clear_bit(bit_index + 8);
    }

    fn clear_bit_lower(&mut self, bit_index: u8) {
        if bit_index > 7 {
            // Out of range for one byte: reject without mutation.
            return;
        }
        proof {
            lemma_bit_lower_is_absolute(self.value, bit_index);
        }
        self.clear_bit(bit_index);
    }

    fn is_half_carry(&self, delta: u16) -> (r: bool) {
        let a: u8 = self.read_upper();
        let b: u8 = _read_lower(delta);
        proof {
            assert(a & 0x0F < 0x10 && b & 0x0F < 0x10) by (bit_vector);
            assert((((a & 0x0F) + (b & 0x0F)) as u8) & 0x10 == 0x10 <==> a % 0x10 + b % 0x10
                >= 0x10) by (bit_vector);
        }
        // The low nibbles sum to exactly 0x10 in bit 4: a carry out of bit 3.
        ((a & 0x0F) + (b & 0x0F)) & 0x10 == 0x10
    }

    fn increment(&mut self, delta: u16) -> (r: CarryState) {
        let half_carry = self.is_half_carry(delta);
        let carry = delta > 0xFFFF - self.value;
        self.value = ((self.value as u32 + delta as u32) % 0x10000) as u16;
        CarryState { carry, half_carry }
    }

    fn decrement(&mut self, delta: u16) -> (r: CarryState) {
        let half_carry = self.is_half_carry(delta);
        let carry = delta > self.value;
        if carry {
            self.value = ((self.value as u32 + 0x10000 - delta as u32)) as u16;
        } else {
            self.value = self.value - delta;
        }
        CarryState { carry, half_carry }
    }
}

} // verus!
