//! The emulator session state and the LoadLibrary family of handlers.
//!
//! `gateway` is the entry point the CPU core calls when guest code
//! calls into a system-library address: it resolves the address through
//! the gateway table and runs the handler. Every handler's effect on
//! the session is pinned down by the functional model `step`, so the
//! contract of `gateway` states the whole state transition.

use vstd::prelude::*;

use crate::callconv::{arg_addr, read_stack_argument, return_spec, return_to_caller};
use crate::catalog::{Catalog, EntryM, default_catalog, default_catalog_model};
use crate::fault::{Fault, FaultM, HandlerId, result_view};
use crate::gateway::{GatewayEntry, GatewayTable, default_table, default_table_model, resolve};
use crate::images::{ImageFile, ImageStore, ImgM};
use crate::loader::{load_module, load_spec};
use crate::mem::{MapM, Memory, ansi_at, read_u32_at, wide_at};
use crate::regs::RegisterFile;

verus! {

/// Mathematical model of the whole session state.
#[verifier::ext_equal]
pub ghost struct EmuM {
    pub regs: RegisterFile,
    pub mem: Seq<MapM>,
    pub catalog: Seq<EntryM>,
    pub table: Seq<GatewayEntry>,
    pub images: Seq<ImgM>,
}

/// The emulator session: registers, virtual memory, and the immutable
/// configuration (catalog, gateway table, snapshot images).
pub struct Emu {
    pub regs: RegisterFile,
    pub mem: Memory,
    pub catalog: Catalog,
    pub table: GatewayTable,
    pub images: ImageStore,
}

impl View for Emu {
    type V = EmuM;

    open spec fn view(&self) -> EmuM {
        EmuM {
            regs: self.regs,
            mem: self.mem@,
            catalog: self.catalog@,
            table: self.table@,
            images: self.images@,
        }
    }
}

/// The model of one narrow- or wide-name load call: read the name
/// pointer argument, decode the name, run the shared load algorithm,
/// write the base address to the return register, and perform the
/// return sequence.
pub open spec fn load_call_step(s: EmuM, wide: bool) -> (EmuM, Result<(), FaultM>) {
    match read_u32_at(s.mem, arg_addr(s.regs.esp, 0)) {
        None => (s, Err(FaultM::MalformedArgument)),
        Some(name_ptr) => {
            let name = if wide {
                wide_at(s.mem, name_ptr as int)
            } else {
                ansi_at(s.mem, name_ptr as int)
            };
            match load_spec(s.catalog, s.images, s.mem, name) {
                Err(f) => (s, Err(f)),
                Ok(p) => {
                    let loaded = RegisterFile { eax: p.1, esp: s.regs.esp, eip: s.regs.eip };
                    let ret = return_spec(loaded, p.0, false);
                    (EmuM { regs: ret.0, mem: p.0, ..s }, ret.1)
                },
            }
        },
    }
}

/// The model of the extended narrow-name stub: it decodes its name
/// pointer argument and then fails without attempting resolution.
pub open spec fn ex_narrow_step(s: EmuM) -> (EmuM, Result<(), FaultM>) {
    match read_u32_at(s.mem, arg_addr(s.regs.esp, 0)) {
        None => (s, Err(FaultM::MalformedArgument)),
        Some(_name_ptr) => (s, Err(FaultM::IncompleteHandler(HandlerId::LoadLibraryExA))),
    }
}

/// The model of one handler's run.
pub open spec fn handler_step(s: EmuM, h: HandlerId) -> (EmuM, Result<(), FaultM>) {
    match h {
        HandlerId::LoadLibraryA => load_call_step(s, false),
        HandlerId::LoadLibraryW => load_call_step(s, true),
        HandlerId::LoadLibraryExA => ex_narrow_step(s),
        HandlerId::LoadLibraryExW => (
            s,
            Err(FaultM::IncompleteHandler(HandlerId::LoadLibraryExW)),
        ),
    }
}

/// The model of one intercepted call: resolve the address, then run
/// the handler; an unrecognized address changes nothing.
pub open spec fn step(s: EmuM, addr: u32) -> (EmuM, Result<(), FaultM>) {
    match resolve(s.table, addr) {
        None => (s, Err(FaultM::UnsupportedCall(addr))),
        Some(h) => handler_step(s, h),
    }
}

impl Emu {
    /// A fresh session over the given snapshot images, with the default
    /// catalog and gateway table, no mappings, and cleared registers.
    pub fn new(images: Vec<ImageFile>) -> (r: Emu)
        ensures
            r@ == (EmuM {
                regs: RegisterFile { eax: 0, esp: 0, eip: 0 },
                mem: Seq::<MapM>::empty(),
                catalog: default_catalog_model(),
                table: default_table_model(),
                images: images@.map_values(|f: ImageFile| f@),
            }),
    {
        Emu {
            regs: RegisterFile::new(),
            mem: Memory::new(),
            catalog: default_catalog(),
            table: default_table(),
            images: ImageStore::new(images),
        }
    }

    /// A session with every part chosen by the caller.
    pub fn with_config(
        regs: RegisterFile,
        mem: Memory,
        catalog: Catalog,
        table: GatewayTable,
        images: ImageStore,
    ) -> (r: Emu)
        ensures
            r@ == (EmuM {
                regs,
                mem: mem@,
                catalog: catalog@,
                table: table@,
                images: images@,
            }),
    {
        Emu { regs, mem, catalog, table, images }
    }
}

/// Narrow-name load: the module name argument is a `NUL`-terminated
/// byte string in guest memory.
pub fn load_library_narrow(emu: &mut Emu) -> (r: Result<(), Fault>)
    ensures
        final(emu)@ == load_call_step(old(emu)@, false).0,
        result_view(r) == load_call_step(old(emu)@, false).1,
{
    load_call(emu, false)
}

/// Wide-name load: the module name argument is a zero-terminated
/// 16-bit-unit string in guest memory, decoded to the same text as the
/// narrow form.
pub fn load_library_wide(emu: &mut Emu) -> (r: Result<(), Fault>)
    ensures
        final(emu)@ == load_call_step(old(emu)@, true).0,
        result_view(r) == load_call_step(old(emu)@, true).1,
{
    load_call(emu, true)
}

/// The shared body of the narrow- and wide-name loads.
fn load_call(emu: &mut Emu, wide: bool) -> (r: Result<(), Fault>)
    ensures
        final(emu)@ == load_call_step(old(emu)@, wide).0,
        result_view(r) == load_call_step(old(emu)@, wide).1,
{
    let name_ptr = match read_stack_argument(&emu.regs, &emu.mem, 0) {
        Err(f) => {
            return Err(f);
        },
        Ok(p) => p,
    };
    let name = if wide {
        emu.mem.read_wide(name_ptr)
    } else {
        emu.mem.read_ansi(name_ptr)
    };
    let base = match load_module(&emu.catalog, &emu.images, &mut emu.mem, &name) {
        Err(f) => {
            return Err(f);
        },
        Ok(b) => b,
    };
    emu.regs.eax = base;
    let r = return_to_caller(&mut emu.regs, &emu.mem, false);
    proof {
        assert(emu@ =~= load_call_step(old(emu)@, wide).0);
    }
    r
}

/// Extended narrow-name load: a stub that decodes its name pointer
/// argument, then reports itself unimplemented; module resolution is
/// never attempted.
pub fn load_library_ex_narrow(emu: &mut Emu) -> (r: Result<(), Fault>)
    ensures
        final(emu)@ == ex_narrow_step(old(emu)@).0,
        result_view(r) == ex_narrow_step(old(emu)@).1,
{
    match read_stack_argument(&emu.regs, &emu.mem, 0) {
        Err(f) => Err(f),
        Ok(_name_ptr) => Err(Fault::IncompleteHandler(HandlerId::LoadLibraryExA)),
    }
}

/// Extended wide-name load: a stub that reports itself unimplemented
/// without touching registers, memory, or the stack.
pub fn load_library_ex_wide(emu: &mut Emu) -> (r: Result<(), Fault>)
    ensures
        final(emu)@ == old(emu)@,
        result_view(r) == Err::<(), FaultM>(FaultM::IncompleteHandler(HandlerId::LoadLibraryExW)),
{
    Err(Fault::IncompleteHandler(HandlerId::LoadLibraryExW))
}

/// Services one intercepted call to a system-library address: resolves
/// the address through the gateway table and runs the handler. The
/// session afterwards, and the result, are exactly what the model
/// `step` gives for the session before.
pub fn gateway(addr: u32, emu: &mut Emu) -> (r: Result<(), Fault>)
    ensures
        final(emu)@ == step(old(emu)@, addr).0,
        result_view(r) == step(old(emu)@, addr).1,
{
    match emu.table.resolve_addr(addr) {
        None => Err(Fault::UnsupportedCall(addr)),
        Some(h) => match h {
            HandlerId::LoadLibraryA => load_library_narrow(emu),
            HandlerId::LoadLibraryW => load_library_wide(emu),
            HandlerId::LoadLibraryExA => load_library_ex_narrow(emu),
            HandlerId::LoadLibraryExW => load_library_ex_wide(emu),
        },
    }
}

} // verus!
