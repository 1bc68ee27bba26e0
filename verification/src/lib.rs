//! A verified CHIP-8 interpreter core: machine state, opcode decoding,
//! instruction execution, and the XOR-compositing framebuffer.
//!
//! The host-facing pieces (window rendering, raw keyboard capture, ROM file
//! loading) live outside this crate; they exchange plain values with the
//! verified machine.

pub mod model;

pub mod decode;

pub mod chip8;

pub mod laws;

