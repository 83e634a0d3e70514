use vstd::prelude::*;
use crate::cpu_core::flag_register::FlagEffect;

verus! {

/// Static description of one instruction: its encoded length, its duration,
/// and how it affects the four condition flags (in Z, N, H, C order).
pub struct Insn {
    pub size: u16,
    pub cycles: u16,
    pub flags: [FlagEffect; 4],
}

impl Default for Insn {
    /// The neutral description: no bytes, no cycles, no flag effects.
    fn default() -> (r: Self)
        ensures
            r.size == 0,
            r.cycles == 0,
            r.flags@ =~= seq![FlagEffect::Unchanged, FlagEffect::Unchanged, FlagEffect::Unchanged, FlagEffect::Unchanged],
    {
        Insn {
            size: 0,
            cycles: 0,
            flags: [FlagEffect::Unchanged, FlagEffect::Unchanged, FlagEffect::Unchanged, FlagEffect::Unchanged],
        }
    }
}

impl Insn {
    /// The description of an undefined opcode: nothing to advance past and
    /// nothing touched.
    pub fn invalid() -> (r: Insn)
        ensures
            r.size == 0,
            r.cycles == 0,
            r.flags@ =~= seq![FlagEffect::Unchanged, FlagEffect::Unchanged, FlagEffect::Unchanged, FlagEffect::Unchanged],
    {
        Insn { ..Default::default() }
    }

    /// The description of the no-operation instruction: one byte, four
    /// cycles, no flag effects.
    pub fn nop() -> (r: Insn)
        ensures
            r.size == 1,
            r.cycles == 4,
            r.flags@ =~= seq![FlagEffect::Unchanged, FlagEffect::Unchanged, FlagEffect::Unchanged, FlagEffect::Unchanged],
    {
        Insn { size: 1, cycles: 4, ..Default::default() }
    }
}

} // verus!
