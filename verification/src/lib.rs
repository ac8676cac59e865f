//! Instruction-level emulation core for a 32-bit MIPS-family processor of the
//! PlayStation class.
//!
//! The crate is built from two components: the [`bus::Bus`], which owns the
//! byte-addressable memory devices (main RAM, scratchpad, BIOS ROM) and routes
//! physical accesses to them, and the [`cpu::Cpu`], which owns the
//! architectural register state and executes decoded instructions against the
//! bus, reporting faults through [`exception::Exception`].

pub mod bus;
pub mod cpu;
pub mod exception;
pub mod exec;
pub mod instr;
pub mod laws;
