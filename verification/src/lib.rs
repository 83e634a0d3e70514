pub mod cli;
pub mod cpu_core;
