//! The emulated CPU's register file, as far as the loader touches it:
//! the return-value register, the stack pointer, and the instruction
//! pointer that the return sequence redirects.

use vstd::prelude::*;

verus! {

/// General-purpose registers of the guest CPU that the LoadLibrary
/// handlers read or write.
#[derive(Clone, Copy, PartialEq, Eq, Structural, Debug)]
pub struct RegisterFile {
    /// Return-value register.
    pub eax: u32,
    /// Stack pointer.
    pub esp: u32,
    /// Instruction pointer; the return sequence points it at the
    /// caller's return address.
    pub eip: u32,
}

impl RegisterFile {
    /// A register file with every register cleared.
    pub fn new() -> (r: RegisterFile)
        ensures
            r == (RegisterFile { eax: 0, esp: 0, eip: 0 }),
    {
        RegisterFile { eax: 0, esp: 0, eip: 0 }
    }
}

} // verus!
