use vstd::prelude::*;

verus! {

/// The mode the surrounding program was asked to run in.
#[derive(Clone, Copy, Debug)]
pub enum Subcommand {
    /// Execute the loaded program.
    Run,
    /// Print the loaded program without executing it (not built yet).
    Disassemble,
}

/// The command line, already parsed into plain values: the chosen mode and
/// the path of the program image to load. Parsing itself happens outside
/// this crate.
#[derive(Debug)]
pub struct CommandLineArgs {
    pub subcommand: Subcommand,
    pub rom_path: String,
}

} // verus!
