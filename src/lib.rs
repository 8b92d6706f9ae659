//! A small 8-bit virtual machine: four byte registers, a 65535-byte memory
//! and a fixed instruction set, with a verified fetch-decode-execute engine.

pub mod isa;
pub mod cpu;
pub mod display;
pub mod input;
pub mod laws;
