//! An Intel 8080 instruction-set emulator and disassembler.
//!
//! The crate interprets a binary instruction stream against an explicit
//! machine state (registers, condition flags, program counter, stack
//! pointer, and a flat 64 KiB memory), and, independently, renders the
//! same stream into human-readable assembly mnemonics.  One opcode
//! catalogue, held by the decoder, is the single source of truth for
//! both the executor and the renderer.

pub mod arith;
pub mod decode;
pub mod driver;
pub mod exec;
pub mod laws;
pub mod render;
pub mod state;
