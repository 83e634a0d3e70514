use vstd::prelude::*;
use crate::cli::Subcommand;
use crate::cpu_core::decoder::{OpcodeDecoder, OpcodeFields, spec_decode};
use crate::cpu_core::flag_register::FlagRegister;
use crate::cpu_core::register::{
    CarryState, Register, RegisterOperation, combine16, lower8, spec_clear_bit_lower,
    spec_half_carry, spec_set_bit_lower, spec_wrap_add, upper8,
};

verus! {

/// Symbolic index of one register in the register file.
#[derive(Clone, Copy, Debug, PartialEq, Eq, Structural)]
pub enum RegIndex {
    /// Accumulator and flags.
    AF,
    /// General-purpose pairs.
    BC,
    DE,
    HL,
    /// Stack pointer.
    SP,
    /// Program counter.
    PC,
}

/// Why one decode-dispatch-execute step could not complete.
#[derive(Clone, Copy, Debug, PartialEq, Eq, Structural)]
pub enum CpuError {
    /// The byte matches no defined field combination.
    InvalidOpcode { opcode: u8, pc: u16 },
    /// The byte names a recognized instruction that this core does not
    /// implement yet.
    UnimplementedOpcode { opcode: u8, pc: u16, fields: OpcodeFields },
    /// A register-pair field did not resolve to a register.
    RegisterIndexOutOfRange { index: u8 },
    /// A bit mutation named a bit outside the targeted word or byte.
    BitIndexOutOfRange { index: u8 },
    /// The program counter, or a byte the instruction reaches from it, lies
    /// outside the loaded image or the 16-bit address range.
    ProgramCounterOutOfBounds { pc: u16, image_len: usize },
}

/// The six 16-bit registers, addressed by `RegIndex`.
pub struct RegisterFile {
    af: Register,
    bc: Register,
    de: Register,
    hl: Register,
    sp: Register,
    pc: Register,
}

/// Mathematical view of a register file: the word each register holds.
#[derive(PartialEq, Eq, Structural)]
pub struct RegisterFileView {
    pub af: u16,
    pub bc: u16,
    pub de: u16,
    pub hl: u16,
    pub sp: u16,
    pub pc: u16,
}

impl RegisterFileView {
    /// The register file with every register zero.
    pub open spec fn zeroed() -> RegisterFileView {
        RegisterFileView { af: 0, bc: 0, de: 0, hl: 0, sp: 0, pc: 0 }
    }

    /// The word held by the register `index` names.
    pub open spec fn reg(self, index: RegIndex) -> u16 {
        match index {
            RegIndex::AF => self.af,
            RegIndex::BC => self.bc,
            RegIndex::DE => self.de,
            RegIndex::HL => self.hl,
            RegIndex::SP => self.sp,
            RegIndex::PC => self.pc,
        }
    }

    /// The register file with the register `index` names replaced by
    /// `value`, every other register untouched.
    pub open spec fn with_reg(self, index: RegIndex, value: u16) -> RegisterFileView {
        match index {
            RegIndex::AF => RegisterFileView { af: value, ..self },
            RegIndex::BC => RegisterFileView { bc: value, ..self },
            RegIndex::DE => RegisterFileView { de: value, ..self },
            RegIndex::HL => RegisterFileView { hl: value, ..self },
            RegIndex::SP => RegisterFileView { sp: value, ..self },
            RegIndex::PC => RegisterFileView { pc: value, ..self },
        }
    }
}

impl View for RegisterFile {
    type V = RegisterFileView;

    closed spec fn view(&self) -> RegisterFileView {
        RegisterFileView {
            af: self.af.val(),
            bc: self.bc.val(),
            de: self.de.val(),
            hl: self.hl.val(),
            sp: self.sp.val(),
            pc: self.pc.val(),
        }
    }
}

impl RegisterFile {
    /// A register file with every register zero.
    pub fn new() -> (r: RegisterFile)
        ensures
            r@ == RegisterFileView::zeroed(),
    {
        RegisterFile {
            af: Register::default(),
            bc: Register::default(),
            de: Register::default(),
            hl: Register::default(),
            sp: Register::default(),
            pc: Register::default(),
        }
    }

    /// Full-word read of one register.
    pub fn read(&self, index: RegIndex) -> (r: u16)
        ensures
            r == self@.reg(index),
    {
        match index {
            RegIndex::AF => self.af.read(),
            RegIndex::BC => self.bc.read(),
            RegIndex::DE => self.de.read(),
            RegIndex::HL => self.hl.read(),
            RegIndex::SP => self.sp.read(),
            RegIndex::PC => self.pc.read(),
        }
    }

    /// The most-significant byte of one register.
    pub fn read_upper(&self, index: RegIndex) -> (r: u8)
        ensures
            r == upper8(self@.reg(index)),
    {
        match index {
            RegIndex::AF => self.af.read_upper(),
            RegIndex::BC => self.bc.read_upper(),
            RegIndex::DE => self.de.read_upper(),
            RegIndex::HL => self.hl.read_upper(),
            RegIndex::SP => self.sp.read_upper(),
            RegIndex::PC => self.pc.read_upper(),
        }
    }

    /// The least-significant byte of one register.
    pub fn read_lower(&self, index: RegIndex) -> (r: u8)
        ensures
            r == lower8(self@.reg(index)),
    {
        match index {
            RegIndex::AF => self.af.read_lower(),
            RegIndex::BC => self.bc.read_lower(),
            RegIndex::DE => self.de.read_lower(),
            RegIndex::HL => self.hl.read_lower(),
            RegIndex::SP => self.sp.read_lower(),
            RegIndex::PC => self.pc.read_lower(),
        }
    }

    /// Full-word write of one register.
    pub fn write(&mut self, index: RegIndex, value: u16)
        ensures
            final(self)@ == old(self)@.with_reg(index, value),
    {
        match index {
            RegIndex::AF => self.af.write(value),
            RegIndex::BC => self.bc.write(value),
            RegIndex::DE => self.de.write(value),
            RegIndex::HL => self.hl.write(value),
            RegIndex::SP => self.sp.write(value),
            RegIndex::PC => self.pc.write(value),
        }
    }

    /// Replace the least-significant byte of one register.
    pub fn write_lower(&mut self, index: RegIndex, value: u8)
        ensures
            final(self)@ == old(self)@.with_reg(
                index,
                combine16(upper8(old(self)@.reg(index)), value),
            ),
    {
        match index {
            RegIndex::AF => self.af.write_lower(value),
            RegIndex::BC => self.bc.write_lower(value),
            RegIndex::DE => self.de.write_lower(value),
            RegIndex::HL => self.hl.write_lower(value),
            RegIndex::SP => self.sp.write_lower(value),
            RegIndex::PC => self.pc.write_lower(value),
        }
    }

    /// Wrapping increment of one register, reporting carry and half-carry.
    pub fn increment(&mut self, index: RegIndex, delta: u16) -> (r: CarryState)
        ensures
            final(self)@ == old(self)@.with_reg(index, spec_wrap_add(old(self)@.reg(index), delta)),
            r.carry == (old(self)@.reg(index) + delta > 0xFFFF),
            r.half_carry == spec_half_carry(old(self)@.reg(index), delta),
    {
        match index {
            RegIndex::AF => self.af.increment(delta),
            RegIndex::BC => self.bc.increment(delta),
            RegIndex::DE => self.de.increment(delta),
            RegIndex::HL => self.hl.increment(delta),
            RegIndex::SP => self.sp.increment(delta),
            RegIndex::PC => self.pc.increment(delta),
        }
    }

    /// Set one bit of the least-significant byte of one register.
    pub fn set_bit_lower(&mut self, index: RegIndex, bit_index: u8)
        ensures
            final(self)@ == old(self)@.with_reg(
                index,
                spec_set_bit_lower(old(self)@.reg(index), bit_index),
            ),
    {
        match index {
            RegIndex::AF => self.af.set_bit_lower(bit_index),
            RegIndex::BC => self.bc.set_bit_lower(bit_index),
            RegIndex::DE => self.de.set_bit_lower(bit_index),
            RegIndex::HL => self.hl.set_bit_lower(bit_index),
            RegIndex::SP => self.sp.set_bit_lower(bit_index),
            RegIndex::PC => self.pc.set_bit_lower(bit_index),
        }
    }

    /// Clear one bit of the least-significant byte of one register.
    pub fn clear_bit_lower(&mut self, index: RegIndex, bit_index: u8)
        ensures
            final(self)@ == old(self)@.with_reg(
                index,
                spec_clear_bit_lower(old(self)@.reg(index), bit_index),
            ),
    {
        match index {
            RegIndex::AF => self.af.clear_bit_lower(bit_index),
            RegIndex::BC => self.bc.clear_bit_lower(bit_index),
            RegIndex::DE => self.de.clear_bit_lower(bit_index),
            RegIndex::HL => self.hl.clear_bit_lower(bit_index),
            RegIndex::SP => self.sp.clear_bit_lower(bit_index),
            RegIndex::PC => self.pc.clear_bit_lower(bit_index),
        }
    }
}

/// The processor: its register file, the cycles spent so far, and the
/// loaded program image.
pub struct Cpu {
    regs: RegisterFile,
    cycle: u16,
    rom: Vec<u8>,
}

/// Mathematical view of the whole processor.
#[verifier::ext_equal]
pub struct CpuView {
    pub regs: RegisterFileView,
    pub cycle: u16,
    pub rom: Seq<u8>,
}

impl View for Cpu {
    type V = CpuView;

    closed spec fn view(&self) -> CpuView {
        CpuView { regs: self.regs@, cycle: self.cycle, rom: self.rom@ }
    }
}

impl Cpu {
    /// A processor with zeroed registers, zero elapsed cycles, and no
    /// program loaded.
    pub fn new() -> (r: Cpu)
        ensures
            r@ == (CpuView { regs: RegisterFileView::zeroed(), cycle: 0, rom: Seq::<u8>::empty() }),
    {
        let cpu = Cpu { regs: RegisterFile::new(), cycle: 0, rom: Vec::new() };
        proof {
            assert(cpu@ =~= CpuView {
                regs: RegisterFileView::zeroed(),
                cycle: 0,
                rom: Seq::<u8>::empty(),
            });
        }
        cpu
    }

    /// A processor with zeroed registers and the given bytes as its loaded
    /// program image.
    pub fn new_from_vec(rom: Vec<u8>) -> (r: Cpu)
        ensures
            r@ == (CpuView { regs: RegisterFileView::zeroed(), cycle: 0, rom: rom@ }),
    {
        let mut cpu = Cpu::new();
        cpu.rom = rom;
        proof {
            assert(cpu@ =~= CpuView { regs: RegisterFileView::zeroed(), cycle: 0, rom: cpu.rom@ });
        }
        cpu
    }

    /// The current program counter.
    pub fn read_pc(&self) -> (r: u16)
        ensures
            r == self@.regs.pc,
    {
        self.regs.read(RegIndex::PC)
    }

    /// Full-word read of one register, for callers outside the core.
    pub fn read_reg(&self, index: RegIndex) -> (r: u16)
        ensures
            r == self@.regs.reg(index),
    {
        self.regs.read(index)
    }

    /// The most-significant byte of one register, for callers outside the
    /// core.
    pub fn read_reg_upper(&self, index: RegIndex) -> (r: u8)
        ensures
            r == upper8(self@.regs.reg(index)),
    {
        self.regs.read_upper(index)
    }

    /// The least-significant byte of one register, for callers outside the
    /// core.
    pub fn read_reg_lower(&self, index: RegIndex) -> (r: u8)
        ensures
            r == lower8(self@.regs.reg(index)),
    {
        self.regs.read_lower(index)
    }

    /// Full-word write of one register, for callers outside the core.
    pub fn write_reg(&mut self, index: RegIndex, value: u16)
        ensures
            final(self)@ == (CpuView {
                regs: old(self)@.regs.with_reg(index, value),
                cycle: old(self)@.cycle,
                rom: old(self)@.rom,
            }),
    {
        self.regs.write(index, value);
    }

    /// Replace the least-significant byte of one register, for callers
    /// outside the core.
    pub fn write_reg_lower(&mut self, index: RegIndex, value: u8)
        ensures
            final(self)@ == (CpuView {
                regs: old(self)@.regs.with_reg(
                    index,
                    combine16(upper8(old(self)@.regs.reg(index)), value),
                ),
                cycle: old(self)@.cycle,
                rom: old(self)@.rom,
            }),
    {
        self.regs.write_lower(index, value);
    }

    /// The cycles spent by the instructions executed so far.
    pub fn read_cycle(&self) -> (r: u16)
        ensures
            r == self@.cycle,
    {
        self.cycle
    }

    /// The size of the loaded program image in bytes.
    pub fn rom_len(&self) -> (r: usize)
        ensures
            r == self@.rom.len(),
    {
        self.rom.len()
    }
}

/// The Zero flag: bit 7 of the flag byte (the lower byte of AF).
pub open spec fn spec_zero_flag(af: u16) -> u8 {
    ((af >> 7) & 1) as u8
}

/// The Carry flag: bit 4 of the flag byte (the lower byte of AF).
pub open spec fn spec_carry_flag(af: u16) -> u8 {
    ((af >> 4) & 1) as u8
}

/// The condition table: which flag state each 2-bit condition index asks
/// for. Indices outside the table never pass.
pub open spec fn spec_cc(af: u16, index: u8) -> bool {
    if index == 0 {
        spec_zero_flag(af) == 0  // NZ
    } else if index == 1 {
        spec_zero_flag(af) == 1  // Z
    } else if index == 2 {
        spec_carry_flag(af) == 0  // NC
    } else if index == 3 {
        spec_carry_flag(af) == 1  // C
    } else {
        false
    }
}

/// The register pair each 2-bit field value selects; values outside the
/// table resolve to an error rather than a sentinel.
pub open spec fn spec_rp(index: u8) -> Result<RegIndex, CpuError> {
    if index == 0 {
        Ok(RegIndex::BC)
    } else if index == 1 {
        Ok(RegIndex::DE)
    } else if index == 2 {
        Ok(RegIndex::HL)
    } else if index == 3 {
        Ok(RegIndex::SP)
    } else {
        Err(CpuError::RegisterIndexOutOfRange { index })
    }
}

/// The signed value of a displacement byte, read as two's complement.
pub open spec fn spec_as_i8(byte: u8) -> int {
    if byte < 0x80 {
        byte as int
    } else {
        byte - 0x100
    }
}

/// The flag byte after a 16-bit addition into HL: Subtract cleared, then
/// HalfCarry and Carry each set if reported (and only then touched); the
/// Zero flag and the low nibble are never written by this path.
pub open spec fn spec_flag_update(af: u16, carry: bool, half_carry: bool) -> u16 {
    let cleared = spec_clear_bit_lower(af, 6);
    let with_half = if half_carry {
        spec_set_bit_lower(cleared, 5)
    } else {
        cleared
    };
    if carry {
        spec_set_bit_lower(with_half, 4)
    } else {
        with_half
    }
}

/// Advancing the program counter past an executed instruction: running past
/// 0xFFFF is a defined failure, not a wrap.
pub open spec fn spec_advance_pc(s: CpuView, delta: u16) -> (CpuView, Result<(), CpuError>) {
    if s.regs.pc + delta > 0xFFFF {
        (
            s,
            Err(
                CpuError::ProgramCounterOutOfBounds {
                    pc: s.regs.pc,
                    image_len: s.rom.len() as usize,
                },
            ),
        )
    } else {
        (
            CpuView {
                regs: s.regs.with_reg(RegIndex::PC, (s.regs.pc + delta) as u16),
                cycle: s.cycle,
                rom: s.rom,
            },
            Ok(()),
        )
    }
}

/// LD rr,d16 and LD SP,d16: the two bytes after the opcode, first byte high,
/// go into the selected pair; twelve cycles; three bytes consumed.
pub open spec fn spec_ld_d16_rp(s: CpuView, index: u8) -> (CpuView, Result<u16, CpuError>) {
    if s.regs.pc + 2 >= s.rom.len() {
        (
            s,
            Err(
                CpuError::ProgramCounterOutOfBounds {
                    pc: s.regs.pc,
                    image_len: s.rom.len() as usize,
                },
            ),
        )
    } else {
        match spec_rp(index) {
            Ok(target) => {
                let imm16 = combine16(s.rom[s.regs.pc + 1], s.rom[s.regs.pc + 2]);
                (
                    CpuView {
                        regs: s.regs.with_reg(target, imm16),
                        cycle: spec_wrap_add(s.cycle, 12),
                        rom: s.rom,
                    },
                    Ok(3),
                )
            },
            Err(e) => (s, Err(e)),
        }
    }
}

/// JR d8: the signed byte after the opcode displaces the program counter;
/// twelve cycles; the handler owns the program counter, so no further
/// advance (a zero delta) is reported.
pub open spec fn spec_jr_d8(s: CpuView) -> (CpuView, Result<u16, CpuError>) {
    if s.regs.pc + 1 >= s.rom.len() {
        (
            s,
            Err(
                CpuError::ProgramCounterOutOfBounds {
                    pc: s.regs.pc,
                    image_len: s.rom.len() as usize,
                },
            ),
        )
    } else {
        let target = s.regs.pc + spec_as_i8(s.rom[s.regs.pc + 1]);
        if target < 0 || target > 0xFFFF {
            (
                s,
                Err(
                    CpuError::ProgramCounterOutOfBounds {
                        pc: s.regs.pc,
                        image_len: s.rom.len() as usize,
                    },
                ),
            )
        } else {
            (
                CpuView {
                    regs: s.regs.with_reg(RegIndex::PC, target as u16),
                    cycle: spec_wrap_add(s.cycle, 12),
                    rom: s.rom,
                },
                Ok(0),
            )
        }
    }
}

/// JR cc,d8: jump exactly when the condition holds; otherwise advance past
/// the two-byte instruction, touching nothing.
pub open spec fn spec_jr_d8_cond(s: CpuView, index: u8) -> (CpuView, Result<u16, CpuError>) {
    if spec_cc(s.regs.af, index) {
        spec_jr_d8(s)
    } else {
        (s, Ok(2))
    }
}

/// ADD HL,rr: the selected pair is added into HL modulo 2^16, Subtract is
/// cleared, and HalfCarry and Carry are set as the addition reports them.
/// The Zero flag is untouched: 16-bit adds do not affect it.
pub open spec fn spec_add_hl_rp(s: CpuView, p: u8) -> (CpuView, Result<u16, CpuError>) {
    match spec_rp(p) {
        Ok(source) => {
            let operand = s.regs.reg(source);
            let with_sum = s.regs.with_reg(RegIndex::HL, spec_wrap_add(s.regs.hl, operand));
            let flags = spec_flag_update(
                s.regs.af,
                s.regs.hl + operand > 0xFFFF,
                spec_half_carry(s.regs.hl, operand),
            );
            (
                CpuView { regs: with_sum.with_reg(RegIndex::AF, flags), cycle: s.cycle, rom: s.rom },
                Ok(1),
            )
        },
        Err(e) => (s, Err(e)),
    }
}

/// Routing one decoded opcode to its handler: the state the handler leaves
/// and the bytes to advance past, or the defined failure.
pub open spec fn spec_dispatch(s: CpuView, opcode: u8, f: OpcodeFields) -> (
    CpuView,
    Result<u16, CpuError>,
) {
    if f.x == 0 {
        if f.z == 0 {
            if f.y == 0 {
                (s, Ok(1))  // NOP
            } else if f.y == 1 {
                spec_ld_d16_rp(s, 3)  // LD SP,d16
            } else if f.y == 2 {
                // STOP is recognized but not built yet.
                (s, Err(CpuError::UnimplementedOpcode { opcode, pc: s.regs.pc, fields: f }))
            } else if f.y == 3 {
                spec_jr_d8(s)
            } else if f.y <= 7 {
                spec_jr_d8_cond(s, (f.y - 4) as u8)
            } else {
                (s, Err(CpuError::InvalidOpcode { opcode, pc: s.regs.pc }))
            }
        } else if f.z == 1 {
            if f.q == 0 {
                spec_ld_d16_rp(s, f.p)
            } else if f.q == 1 {
                spec_add_hl_rp(s, f.p)
            } else {
                (s, Err(CpuError::InvalidOpcode { opcode, pc: s.regs.pc }))
            }
        } else {
            (s, Err(CpuError::UnimplementedOpcode { opcode, pc: s.regs.pc, fields: f }))
        }
    } else {
        (s, Err(CpuError::UnimplementedOpcode { opcode, pc: s.regs.pc, fields: f }))
    }
}

/// One whole decode-dispatch-execute step: what the processor looks like
/// afterwards and what the step reports.
pub open spec fn spec_step(s: CpuView) -> (CpuView, Result<(), CpuError>) {
    if s.regs.pc >= s.rom.len() {
        (
            s,
            Err(
                CpuError::ProgramCounterOutOfBounds {
                    pc: s.regs.pc,
                    image_len: s.rom.len() as usize,
                },
            ),
        )
    } else {
        let opcode = s.rom[s.regs.pc as int];
        let dispatched = spec_dispatch(s, opcode, spec_decode(opcode));
        match dispatched.1 {
            Ok(delta) => spec_advance_pc(dispatched.0, delta),
            Err(e) => (dispatched.0, Err(e)),
        }
    }
}

/// The flag update of a 16-bit addition touches only bits 4 to 6 of the
/// flag byte: the Zero flag (bit 7) and the always-zero low nibble come
/// through unchanged.
proof fn lemma_flag_update_is_confined(af: u16, carry: bool, half_carry: bool)
    by (bit_vector)
    ensures
        spec_flag_update(af, carry, half_carry) & 0x8F == af & 0x8F,
{
}

/// A relative jump, taken or not, conditional or not, moves only the
/// program counter and the cycle counter: every register other than PC,
/// the flag register among them, reads as before.
pub proof fn lemma_jump_preserves_registers(s: CpuView)
    requires
        s.regs.pc < s.rom.len(),
        spec_decode(s.rom[s.regs.pc as int]).x == 0,
        spec_decode(s.rom[s.regs.pc as int]).z == 0,
        3 <= spec_decode(s.rom[s.regs.pc as int]).y <= 7,
    ensures
        spec_step(s).0.regs.af == s.regs.af,
        spec_step(s).0.regs.bc == s.regs.bc,
        spec_step(s).0.regs.de == s.regs.de,
        spec_step(s).0.regs.hl == s.regs.hl,
        spec_step(s).0.regs.sp == s.regs.sp,
{
}

/// A register-pair immediate load writes only its target pair and the
/// program counter: every other register reads as before, so registers
/// that were zero stay zero.
pub proof fn lemma_ld_noninterference(s: CpuView, target: RegIndex)
    requires
        s.regs.pc < s.rom.len(),
        ({
            let f = spec_decode(s.rom[s.regs.pc as int]);
            (f.x == 0 && f.z == 1 && f.q == 0 && spec_rp(f.p) == Ok::<RegIndex, CpuError>(target))
                || (f.x == 0 && f.z == 0 && f.y == 1 && target == RegIndex::SP)
        }),
    ensures
        forall|other: RegIndex|
            other != target && other != RegIndex::PC ==> spec_step(s).0.regs.reg(other)
                == s.regs.reg(other),
{
}

/// No step ever writes the low nibble of the flag byte, nor does any
/// instruction of this core touch the Zero flag: whatever one step does,
/// bits 0 to 3 and bit 7 of AF survive it.
pub proof fn lemma_step_confines_flag_writes(s: CpuView)
    ensures
        spec_step(s).0.regs.af & 0x8F == s.regs.af & 0x8F,
{
    if s.regs.pc < s.rom.len() {
        let opcode = s.rom[s.regs.pc as int];
        let f = spec_decode(opcode);
        if f.x == 0 && f.z == 1 && f.q == 1 && f.p <= 3 {
            let source = match spec_rp(f.p) {
                Ok(t) => t,
                Err(_) => RegIndex::HL,
            };
            lemma_flag_update_is_confined(
                s.regs.af,
                s.regs.hl + s.regs.reg(source) > 0xFFFF,
                spec_half_carry(s.regs.hl, s.regs.reg(source)),
            );
        }
    }
}

impl Cpu {
    /// Add `delta` to one register, refusing to run past 0xFFFF: overflow is
    /// reported as a defined failure and mutates nothing.
    fn increment_reg(&mut self, reg_index: RegIndex, delta: u16) -> (r: Result<(), CpuError>)
        ensures
            old(self)@.regs.reg(reg_index) + delta <= 0xFFFF ==> r == Ok::<(), CpuError>(())
                && final(self)@ == (CpuView {
                regs: old(self)@.regs.with_reg(
                    reg_index,
                    (old(self)@.regs.reg(reg_index) + delta) as u16,
                ),
                cycle: old(self)@.cycle,
                rom: old(self)@.rom,
            }),
            old(self)@.regs.reg(reg_index) + delta > 0xFFFF ==> r == Err::<(), CpuError>(
                CpuError::ProgramCounterOutOfBounds {
                    pc: old(self)@.regs.reg(reg_index),
                    image_len: old(self)@.rom.len() as usize,
                },
            ) && final(self)@ == old(self)@,
    {
        let current = self.regs.read(reg_index);
        if delta > 0xFFFF - current {
            Err(CpuError::ProgramCounterOutOfBounds { pc: current, image_len: self.rom.len() })
        } else {
            self.regs.write(reg_index, current + delta);
            Ok(())
        }
    }

    /// The Zero flag's current value, 0 or 1.
    fn read_zero_flag(&self) -> (r: u8)
        ensures
            r == spec_zero_flag(self@.regs.af),
    {
        let flag_reg_val: u8 = self.regs.read_lower(RegIndex::AF);
        proof {
            let af = self@.regs.af;
            assert((((af % 0x100) as u8) & 0b1000_0000) >> 7 == ((af >> 7) & 1) as u8)
                by (bit_vector);
        }
        (flag_reg_val & 0b1000_0000) >> 7
    }

    /// The Carry flag's current value, 0 or 1.
    fn read_carry_flag(&self) -> (r: u8)
        ensures
            r == spec_carry_flag(self@.regs.af),
    {
        let flag_reg_val: u8 = self.regs.read_lower(RegIndex::AF);
        proof {
            let af = self@.regs.af;
            assert((((af % 0x100) as u8) & 0b0001_0000) >> 4 == ((af >> 4) & 1) as u8)
                by (bit_vector);
        }
        (flag_reg_val & 0b0001_0000) >> 4
    }

    /// The error a byte that matches no defined field combination reports.
    fn invalid_opcode(&self, opcode: u8) -> (r: CpuError)
        ensures
            r == (CpuError::InvalidOpcode { opcode, pc: self@.regs.pc }),
    {
        CpuError::InvalidOpcode { opcode, pc: self.read_pc() }
    }

    /// Evaluate one condition-table index against the flags.
    fn cc(&self, index: u8) -> (r: bool)
        ensures
            r == spec_cc(self@.regs.af, index),
    {
        match index {
            0 => self.read_zero_flag() == 0,  // NZ
            1 => self.read_zero_flag() == 1,  // Z
            2 => self.read_carry_flag() == 0,  // NC
            3 => self.read_carry_flag() == 1,  // C
            _ => false,
        }
    }

    /// Resolve a 2-bit register-pair field to its register.
    fn rp(&self, index: u8) -> (r: Result<RegIndex, CpuError>)
        ensures
            r == spec_rp(index),
    {
        match index {
            0 => Ok(RegIndex::BC),
            1 => Ok(RegIndex::DE),
            2 => Ok(RegIndex::HL),
            3 => Ok(RegIndex::SP),
            _ => Err(CpuError::RegisterIndexOutOfRange { index }),
        }
    }

    /// Charge an instruction's duration to the cycle counter, modulo 2^16.
    fn bump_cycle(&mut self, amount: u16)
        ensures
            final(self)@ == (CpuView {
                regs: old(self)@.regs,
                cycle: spec_wrap_add(old(self)@.cycle, amount),
                rom: old(self)@.rom,
            }),
    {
        self.cycle = ((self.cycle as u32 + amount as u32) % 0x10000) as u16;
    }

    /// Load the 16-bit immediate after the opcode into the selected pair.
    fn ld_d16_rp(&mut self, index: u8) -> (r: Result<u16, CpuError>)
        ensures
            final(self)@ == spec_ld_d16_rp(old(self)@, index).0,
            r == spec_ld_d16_rp(old(self)@, index).1,
    {
        let pc = self.read_pc();
        if pc as usize + 2 >= self.rom.len() {
            return Err(CpuError::ProgramCounterOutOfBounds { pc, image_len: self.rom.len() });
        }
        let hi = self.rom[pc as usize + 1];
        let lo = self.rom[pc as usize + 2];
        let target = match self.rp(index) {
            Ok(t) => t,
            Err(e) => {
                return Err(e);
            },
        };
        let imm16: u16 = ((hi as u16) << 8) | (lo as u16);
        proof {
            assert(((hi as u16) << 8) | (lo as u16) == combine16(hi, lo)) by (bit_vector);
        }
        self.regs.write(target, imm16);
        self.bump_cycle(12);
        Ok(3)
    }

    /// Load the 16-bit immediate after the opcode into the stack pointer.
    fn ld_d16_sp(&mut self) -> (r: Result<u16, CpuError>)
        ensures
            final(self)@ == spec_ld_d16_rp(old(self)@, 3).0,
            r == spec_ld_d16_rp(old(self)@, 3).1,
    {
        // Register-pair slot 3 is the stack pointer.
        self.ld_d16_rp(3)
    }

    /// Displace the program counter by the signed byte after the opcode.
    fn jr_d8(&mut self) -> (r: Result<u16, CpuError>)
        ensures
            final(self)@ == spec_jr_d8(old(self)@).0,
            r == spec_jr_d8(old(self)@).1,
    {
        let pc = self.read_pc();
        if pc as usize + 1 >= self.rom.len() {
            return Err(CpuError::ProgramCounterOutOfBounds { pc, image_len: self.rom.len() });
        }
        let displacement_byte = self.rom[pc as usize + 1];
        // Two's complement: bytes at or above 0x80 displace backward.
        let new_pc: u16;
        if displacement_byte < 0x80 {
            let target = pc as u32 + displacement_byte as u32;
            if target > 0xFFFF {
                return Err(
                    CpuError::ProgramCounterOutOfBounds { pc, image_len: self.rom.len() },
                );
            }
            new_pc = target as u16;
        } else {
            let magnitude = 0x100u16 - displacement_byte as u16;
            if magnitude > pc {
                return Err(
                    CpuError::ProgramCounterOutOfBounds { pc, image_len: self.rom.len() },
                );
            }
            new_pc = pc - magnitude;
        }
        self.regs.write(RegIndex::PC, new_pc);
        self.bump_cycle(12);
        Ok(0)
    }

    /// Displace the program counter only when the condition selected by
    /// `y` holds; otherwise report the instruction's own two bytes.
    fn jr_d8_cond(&mut self, y: u8) -> (r: Result<u16, CpuError>)
        requires
            4 <= y <= 7,
        ensures
            final(self)@ == spec_jr_d8_cond(old(self)@, (y - 4) as u8).0,
            r == spec_jr_d8_cond(old(self)@, (y - 4) as u8).1,
    {
        if self.cc(y - 4) {
            return self.jr_d8();
        }
        // Condition not satisfied: no jump, advance past the instruction.
        Ok(2)
    }

    /// Add the selected pair into HL and update the arithmetic flags.
    fn add_hl_rp(&mut self, p: u8) -> (r: Result<u16, CpuError>)
        ensures
            final(self)@ == spec_add_hl_rp(old(self)@, p).0,
            r == spec_add_hl_rp(old(self)@, p).1,
    {
        let source = match self.rp(p) {
            Ok(t) => t,
            Err(e) => {
                return Err(e);
            },
        };
        let reg_val = self.regs.read(source);
        let carry_state = self.regs.increment(RegIndex::HL, reg_val);
        self.regs.clear_bit_lower(RegIndex::AF, FlagRegister::Subtract.bit_index());
        if carry_state.half_carry {
            self.regs.set_bit_lower(RegIndex::AF, FlagRegister::HalfCarry.bit_index());
        }
        if carry_state.carry {
            self.regs.set_bit_lower(RegIndex::AF, FlagRegister::Carry.bit_index());
        }
        Ok(1)
    }

    /// Decode the instruction the program counter points at, execute it,
    /// and advance the program counter as the handler reports.
    pub fn execute(&mut self) -> (r: Result<(), CpuError>)
        ensures
            final(self)@ == spec_step(old(self)@).0,
            r == spec_step(old(self)@).1,
    {
        let pc = self.read_pc();
        if pc as usize >= self.rom.len() {
            return Err(CpuError::ProgramCounterOutOfBounds { pc, image_len: self.rom.len() });
        }
        let opcode_byte: u8 = self.rom[pc as usize];
        let fields = OpcodeDecoder::decode(opcode_byte);
        let pc_increment: Result<u16, CpuError> = if fields.x == 0 {
            if fields.z == 0 {
                if fields.y == 0 {
                    Ok(1)  // NOP
                } else if fields.y == 1 {
                    self.ld_d16_sp()
                } else if fields.y == 2 {
                    // STOP is recognized but not built yet.
                    Err(CpuError::UnimplementedOpcode { opcode: opcode_byte, pc, fields })
                } else if fields.y == 3 {
                    self.jr_d8()
                } else if fields.y <= 7 {
                    self.jr_d8_cond(fields.y)
                } else {
                    Err(self.invalid_opcode(opcode_byte))
                }
            } else if fields.z == 1 {
                if fields.q == 0 {
                    self.ld_d16_rp(fields.p)
                } else if fields.q == 1 {
                    self.add_hl_rp(fields.p)
                } else {
                    Err(self.invalid_opcode(opcode_byte))
                }
            } else {
                Err(CpuError::UnimplementedOpcode { opcode: opcode_byte, pc, fields })
            }
        } else {
            Err(CpuError::UnimplementedOpcode { opcode: opcode_byte, pc, fields })
        };
        match pc_increment {
            Ok(delta) => self.increment_reg(RegIndex::PC, delta),
            Err(e) => Err(e),
        }
    }

    /// Run one step. Both subcommands currently perform a single
    /// decode-dispatch-execute cycle; a disassemble mode would reuse the
    /// decoder read-only.
    pub fn start(&mut self, subcommand: Subcommand) -> (r: Result<(), CpuError>)
        ensures
            final(self)@ == spec_step(old(self)@).0,
            r == spec_step(old(self)@).1,
    {
        match subcommand {
            Subcommand::Run => self.execute(),
            Subcommand::Disassemble => self.execute(),
        }
    }
}

} // verus!
