//! The stdcall calling-convention adapter.
//!
//! At interception the stack pointer addresses the caller's return
//! address, with the first stdcall parameter immediately above it.
//! `read_stack_argument` fetches the n-th parameter; `return_to_caller`
//! pops the return address into the instruction pointer and advances
//! the stack pointer, reclaiming one extra argument slot when asked to.
//! Addresses wrap modulo the 32-bit address space, as the guest CPU's
//! do.

use vstd::prelude::*;

use crate::fault::{Fault, FaultM, result_view};
use crate::mem::{MapM, Memory, read_u32_at};
use crate::regs::RegisterFile;

verus! {

/// One slot past the 32-bit address space.
pub const ADDRESS_SPACE: u64 = 0x1_0000_0000;

/// The address of the n-th stdcall parameter: `n` slots above the
/// return address, wrapping around the 32-bit address space.
pub open spec fn arg_addr(esp: u32, n: int) -> int {
    (esp + 4 + 4 * n) % (ADDRESS_SPACE as int)
}

/// The stack pointer after the return sequence: the return slot is
/// reclaimed, and one extra argument slot when `adjust_extra` is set.
pub open spec fn popped_esp(esp: u32, adjust_extra: bool) -> u32 {
    if adjust_extra {
        ((esp + 8) % (ADDRESS_SPACE as int)) as u32
    } else {
        ((esp + 4) % (ADDRESS_SPACE as int)) as u32
    }
}

/// The register file after the return sequence, with its result: the
/// word at the top of the stack becomes the instruction pointer and the
/// stack pointer advances, or the registers stay put on a malformed
/// stack.
pub open spec fn return_spec(regs: RegisterFile, mem: Seq<MapM>, adjust_extra: bool) -> (
    RegisterFile,
    Result<(), FaultM>,
) {
    match read_u32_at(mem, regs.esp as int) {
        None => (regs, Err(FaultM::MalformedArgument)),
        Some(ret) => (
            RegisterFile { eax: regs.eax, esp: popped_esp(regs.esp, adjust_extra), eip: ret },
            Ok(()),
        ),
    }
}

/// Reads the n-th stdcall parameter relative to the current stack
/// pointer, failing when the slot is outside mapped memory.
pub fn read_stack_argument(regs: &RegisterFile, mem: &Memory, n: u32) -> (r: Result<u32, Fault>)
    ensures
        match read_u32_at(mem@, arg_addr(regs.esp, n as int)) {
            None => r is Err && r->Err_0@ == FaultM::MalformedArgument,
            Some(v) => r is Ok && r->Ok_0 == v,
        },
{
    let slot = ((regs.esp as u64 + 4 + 4 * (n as u64)) % ADDRESS_SPACE) as u32;
    match mem.read_u32(slot) {
        None => Err(Fault::MalformedArgument),
        Some(v) => Ok(v),
    }
}

/// Performs the callee-side return sequence: consumes the return
/// address from the top of the stack, transfers control to it, and
/// advances the stack pointer. Run exactly once per handled call, after
/// the handler has committed its other side effects.
pub fn return_to_caller(regs: &mut RegisterFile, mem: &Memory, adjust_extra: bool) -> (r: Result<
    (),
    Fault,
>)
    ensures
        *final(regs) == return_spec(*old(regs), mem@, adjust_extra).0,
        result_view(r) == return_spec(*old(regs), mem@, adjust_extra).1,
{
    match mem.read_u32(regs.esp) {
        None => Err(Fault::MalformedArgument),
        Some(ret) => {
            regs.eip = ret;
            let freed: u64 = if adjust_extra {
                8
            } else {
                4
            };
            regs.esp = ((regs.esp as u64 + freed) % ADDRESS_SPACE) as u32;
            Ok(())
        },
    }
}

} // verus!
