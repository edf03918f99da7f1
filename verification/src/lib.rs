//! A macro-assembler that is embedded in Rust and produces cartridge images for
//! the Game Boy Color.
//!
//! A program is composed from assembler calls, nested blocks, variables and
//! constants; the finished block tree is lowered to bytes. Every function of the
//! crate carries a contract that Verus proves.
#![allow(unused_imports)]

pub mod codegen;
pub mod cpu;
pub mod memory;
pub mod ppu;

pub use codegen::cgb::Cgb;
