//! The error taxonomy of the gateway and the load handlers.
//!
//! No fault is recovered locally: each one is returned to the session
//! controller, whose default policy is to abort the emulation, so every
//! fault names what failed precisely enough to diagnose or extend the
//! catalog.

use vstd::prelude::*;

verus! {

/// Identity of one emulated API handler.
#[derive(Clone, Copy, PartialEq, Eq, Structural, Debug)]
pub enum HandlerId {
    /// Narrow-name load.
    LoadLibraryA,
    /// Wide-name load.
    LoadLibraryW,
    /// Extended narrow-name load (a stub: decodes, then fails).
    LoadLibraryExA,
    /// Extended wide-name load (a stub: touches nothing).
    LoadLibraryExW,
}

/// Why a handled call failed.
pub enum Fault {
    /// The gateway has no handler for this call target address.
    UnsupportedCall(u32),
    /// A required stack or memory read fell outside mapped memory.
    MalformedArgument,
    /// The requested module name, carried here as decoded from guest
    /// memory, is not in the catalog.
    UnsupportedModule(Vec<u8>),
    /// The handler is intentionally only partially implemented.
    IncompleteHandler(HandlerId),
}

/// Mathematical model of a fault.
#[verifier::ext_equal]
pub ghost enum FaultM {
    UnsupportedCall(u32),
    MalformedArgument,
    UnsupportedModule(Seq<u8>),
    IncompleteHandler(HandlerId),
}

impl View for Fault {
    type V = FaultM;

    open spec fn view(&self) -> FaultM {
        match self {
            Fault::UnsupportedCall(a) => FaultM::UnsupportedCall(*a),
            Fault::MalformedArgument => FaultM::MalformedArgument,
            Fault::UnsupportedModule(n) => FaultM::UnsupportedModule(n@),
            Fault::IncompleteHandler(h) => FaultM::IncompleteHandler(*h),
        }
    }
}

/// The model of a handler's result.
pub open spec fn result_view(r: Result<(), Fault>) -> Result<(), FaultM> {
    match r {
        Ok(u) => Ok(u),
        Err(f) => Err(f@),
    }
}

} // verus!
