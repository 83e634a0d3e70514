pub mod cpu;
pub mod decoder;
pub mod flag_register;
pub mod insn;
pub mod register;
