use vstd::prelude::*;

verus! {

/// How one instruction affects one condition flag.
pub enum FlagEffect {
    /// The flag is forced to zero.
    Reset,
    /// The flag is forced to one.
    Raised,
    /// The flag is left as it was.
    Unchanged,
    /// The flag depends on the result of the operation.
    ByResult,
}

impl Default for FlagEffect {
    /// By default an instruction leaves a flag as it was.
    fn default() -> (r: Self)
        ensures
            r is Unchanged,
    {
        FlagEffect::Unchanged
    }
}

/// The condition flags held in the lower byte of AF, each named after its
/// bit position there.
#[derive(Clone, Copy, Debug)]
pub enum FlagRegister {
    /// Bit 6: the last arithmetic operation was a subtraction.
    Subtract,
    /// Bit 5: the last arithmetic operation produced a half-carry.
    HalfCarry,
    /// Bit 4: the last arithmetic operation overflowed.
    Carry,
}

impl FlagRegister {
    /// The flag's bit position within the flag byte.
    pub open spec fn spec_bit_index(self) -> u8 {
        match self {
            FlagRegister::Subtract => 6,
            FlagRegister::HalfCarry => 5,
            FlagRegister::Carry => 4,
        }
    }

    /// The flag's bit position within the flag byte.
    pub fn bit_index(self) -> (r: u8)
        ensures
            r == self.spec_bit_index(),
    {
        match self {
            FlagRegister::Subtract => 6,
            FlagRegister::HalfCarry => 5,
            FlagRegister::Carry => 4,
        }
    }
}

} // verus!
