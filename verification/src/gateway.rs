//! The address gateway: call target addresses to handler identities.
//!
//! The table is data, built once at session start: one row per
//! registered address, several rows resolving to one handler where the
//! guest knows the call under more than one address (an import slot and
//! a jump-table thunk). Lookup is exact and deterministic; an unknown
//! address is a fault for the caller to surface.

use vstd::prelude::*;

use crate::fault::HandlerId;
use crate::seqs::{first_where, lemma_first_where_is, lemma_first_where_none};

verus! {

/// One gateway row: a call target address and the handler it resolves
/// to.
#[derive(Clone, Copy, PartialEq, Eq, Structural, Debug)]
pub struct GatewayEntry {
    pub addr: u32,
    pub handler: HandlerId,
}

/// The handler the table resolves `addr` to, through its first row
/// registered for that address.
pub open spec fn resolve(table: Seq<GatewayEntry>, addr: u32) -> Option<HandlerId> {
    match first_where(table, |g: GatewayEntry| g.addr == addr) {
        None => None,
        Some(i) => Some(table[i].handler),
    }
}

/// The dispatch table of the gateway.
pub struct GatewayTable {
    entries: Vec<GatewayEntry>,
}

impl View for GatewayTable {
    type V = Seq<GatewayEntry>;

    closed spec fn view(&self) -> Seq<GatewayEntry> {
        self.entries@
    }
}

impl GatewayTable {
    /// A table holding exactly the given rows.
    pub fn new(entries: Vec<GatewayEntry>) -> (r: GatewayTable)
        ensures
            r@ == entries@,
    {
        GatewayTable { entries }
    }

    /// Resolves a call target address to its handler.
    pub fn resolve_addr(&self, addr: u32) -> (r: Option<HandlerId>)
        ensures
            r == resolve(self@, addr),
    {
        let n = self.entries.len();
        let mut i: usize = 0;
        while i < n
            invariant
                n == self.entries.len(),
                self@.len() == n,
                0 <= i <= n,
                forall|j: int| 0 <= j < i ==> (#[trigger] self@[j]).addr != addr,
            decreases n - i,
        {
            if self.entries[i].addr == addr {
                proof {
                    let p = |g: GatewayEntry| g.addr == addr;
                    assert(p(self@[i as int]));
                    assert forall|j: int| 0 <= j < i implies !p(#[trigger] self@[j]) by {
                        assert(self@[j].addr != addr);
                    }
                    lemma_first_where_is(self@, p, i as int);
                }
                return Some(self.entries[i].handler);
            }
            proof {
                assert(self@[i as int].addr != addr);
            }
            i += 1;
        }
        proof {
            let p = |g: GatewayEntry| g.addr == addr;
            assert forall|j: int| 0 <= j < self@.len() implies !p(#[trigger] self@[j]) by {
                assert(self@[j].addr != addr);
            }
            lemma_first_where_none(self@, p);
        }
        None
    }
}

/// The model of the default gateway table: the registered LoadLibrary
/// entry points of the reference environment, with the jump-table
/// thunk registered as an alias of the extended narrow-name handler.
pub open spec fn default_table_model() -> Seq<GatewayEntry> {
    seq![
        GatewayEntry { addr: 0x75e9395c, handler: HandlerId::LoadLibraryA },
        GatewayEntry { addr: 0x75e847fa, handler: HandlerId::LoadLibraryExA },
        GatewayEntry { addr: 0x75e93951, handler: HandlerId::LoadLibraryExA },
        GatewayEntry { addr: 0x75e84775, handler: HandlerId::LoadLibraryExW },
        GatewayEntry { addr: 0x75e93c01, handler: HandlerId::LoadLibraryW },
    ]
}

/// Builds the session's default gateway table.
pub fn default_table() -> (r: GatewayTable)
    ensures
        r@ == default_table_model(),
{
    let entries: Vec<GatewayEntry> = vec![
        GatewayEntry { addr: 0x75e9395c, handler: HandlerId::LoadLibraryA },
        GatewayEntry { addr: 0x75e847fa, handler: HandlerId::LoadLibraryExA },
        GatewayEntry { addr: 0x75e93951, handler: HandlerId::LoadLibraryExA },
        GatewayEntry { addr: 0x75e84775, handler: HandlerId::LoadLibraryExW },
        GatewayEntry { addr: 0x75e93c01, handler: HandlerId::LoadLibraryW },
    ];
    let r = GatewayTable { entries };
    proof {
        assert(r@ =~= default_table_model());
    }
    r
}

} // verus!
