//! A verified Windows-API emulation gateway and dynamic-library loader.
//!
//! The crate models the piece of a 32-bit process emulator that services
//! guest calls into system libraries: an address gateway that maps a call
//! target address to a handler, a module catalog of loadable libraries,
//! a byte-addressed view of the guest's virtual mappings, a stdcall
//! calling-convention adapter, and the LoadLibrary family of handlers.
//!
//! Every handler is specified by a functional model of the whole step:
//! `gateway` promises that the emulator state after the call, and the
//! returned result, are exactly what the model `step` computes from the
//! state before the call.

pub mod seqs;
pub mod name;
pub mod mem;
pub mod regs;
pub mod fault;
pub mod images;
pub mod catalog;
pub mod callconv;
pub mod loader;
pub mod gateway;
pub mod emu;
pub mod laws;
