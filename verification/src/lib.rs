//! A cycle-accurate interpreter for the CPU and display-timing unit of a
//! fixed 8-bit game console.
//!
//! The crate models the machine as a register file, a flat 65536-byte
//! memory bus, an arithmetic/flag unit, a fetch-decode-execute core with a
//! delayed interrupt-enable state machine, and a scanline counter driven by
//! accumulated instruction cycles. Every public operation carries a contract
//! stating its exact effect on the machine state.

pub mod registers;

pub mod alu;

pub mod mmu;

pub mod step;

pub mod cpu;

pub mod cb;

pub mod gpu;

pub mod audio;

