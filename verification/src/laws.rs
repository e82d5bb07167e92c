//! The load protocol's general laws, proved over the functional model.
//!
//! Each proof function here states one session-wide guarantee of the
//! gateway and the load handlers, in terms of the same spec functions
//! that the executable functions' contracts use.

use vstd::prelude::*;

use crate::callconv::popped_esp;
use crate::catalog::{EntryM, catalog_find};
use crate::emu::{EmuM, step};
use crate::fault::{FaultM, HandlerId};
use crate::gateway::resolve;
use crate::images::{ImgM, image_bytes};
use crate::loader::load_spec;
use crate::mem::{
    MapM, ansi_at, lemma_read_u32_push, lemma_until_nul_take, map_at, named, narrow_unit,
    read_u32_at, wide_at, wide_units,
};
use crate::name::normalize;
use crate::seqs::{lemma_first_where_props, lemma_first_where_push};

verus! {

/// Alias equivalence: two addresses that the gateway table resolves to
/// the same handler produce the identical session state and result
/// from identical prior state.
pub proof fn lemma_alias_equivalence(s: EmuM, a1: u32, a2: u32)
    requires
        resolve(s.table, a1) == resolve(s.table, a2),
        resolve(s.table, a1) is Some,
    ensures
        step(s, a1) == step(s, a2),
{
}

/// Idempotent module residency: after a successful load, loading any
/// name with the same canonical form again creates no mapping and
/// returns the same base address.
pub proof fn lemma_idempotent_residency(
    cat: Seq<EntryM>,
    imgs: Seq<ImgM>,
    mem: Seq<MapM>,
    n1: Seq<u8>,
    n2: Seq<u8>,
)
    requires
        normalize(n1) == normalize(n2),
        load_spec(cat, imgs, mem, n1) is Ok,
    ensures
        load_spec(cat, imgs, load_spec(cat, imgs, mem, n1)->Ok_0.0, n2) == Ok::<
            (Seq<MapM>, u32),
            FaultM,
        >(load_spec(cat, imgs, mem, n1)->Ok_0),
{
    let ci = catalog_find(cat, normalize(n1))->Some_0;
    let e = cat[ci];
    let p = |m: MapM| m.name == e.name;
    match named(mem, e.name) {
        Some(mi) => {
        },
        None => {
            let pm = MapM { name: e.name, base: e.base, bytes: image_bytes(imgs, e.image) };
            let grown = mem.push(pm);
            assert(p(pm));
            lemma_first_where_push(mem, p, pm);
            assert(named(grown, e.name) == Some(mem.len() as int));
            assert(grown[mem.len() as int] == pm);
            match e.text {
                None => {
                },
                Some(t) => {
                    match named(grown, t.name) {
                        None => {
                            let tm = MapM {
                                name: t.name,
                                base: t.base,
                                bytes: image_bytes(imgs, t.image),
                            };
                            let full = grown.push(tm);
                            lemma_first_where_push(grown, p, tm);
                            assert(named(full, e.name) == Some(mem.len() as int));
                            assert(full[mem.len() as int] == pm);
                        },
                        Some(_) => {
                        },
                    }
                },
            }
        },
    }
}

/// Dual-mapping creation: loading a module whose catalog entry carries
/// a code section, when neither mapping is live yet, creates exactly
/// the two catalog-specified mappings, in order, and returns the
/// primary base.
pub proof fn lemma_dual_mapping_creation(
    cat: Seq<EntryM>,
    imgs: Seq<ImgM>,
    mem: Seq<MapM>,
    name: Seq<u8>,
)
    requires
        catalog_find(cat, normalize(name)) is Some,
        cat[catalog_find(cat, normalize(name))->Some_0].text is Some,
        named(mem, cat[catalog_find(cat, normalize(name))->Some_0].name) is None,
        named(mem, cat[catalog_find(cat, normalize(name))->Some_0].text->Some_0.name) is None,
        cat[catalog_find(cat, normalize(name))->Some_0].text->Some_0.name != cat[catalog_find(
            cat,
            normalize(name),
        )->Some_0].name,
    ensures
        ({
            let e = cat[catalog_find(cat, normalize(name))->Some_0];
            let t = e.text->Some_0;
            load_spec(cat, imgs, mem, name) == Ok::<(Seq<MapM>, u32), FaultM>(
                (
                    mem.push(
                        MapM { name: e.name, base: e.base, bytes: image_bytes(imgs, e.image) },
                    ).push(MapM { name: t.name, base: t.base, bytes: image_bytes(imgs, t.image) }),
                    e.base,
                ),
            )
        }),
{
    let e = cat[catalog_find(cat, normalize(name))->Some_0];
    let t = e.text->Some_0;
    let pm = MapM { name: e.name, base: e.base, bytes: image_bytes(imgs, e.image) };
    let grown = mem.push(pm);
    let p = |m: MapM| m.name == t.name;
    assert(!p(pm));
    lemma_first_where_push(mem, p, pm);
    assert(named(grown, t.name) is None);
}

/// Return-sequence correctness: after a successful load call, the
/// stack pointer has advanced by exactly one return-slot width and
/// control resumes at the address that was on top of the stack before
/// the call.
pub proof fn lemma_return_sequence(s: EmuM, addr: u32, ret: u32)
    requires
        step(s, addr).1 is Ok,
        read_u32_at(s.mem, s.regs.esp as int) == Some(ret),
    ensures
        step(s, addr).0.regs.esp == popped_esp(s.regs.esp, false),
        step(s, addr).0.regs.eip == ret,
{
    let h = resolve(s.table, addr)->Some_0;
    assert(h == HandlerId::LoadLibraryA || h == HandlerId::LoadLibraryW);
    let wide = (h == HandlerId::LoadLibraryW);
    let name_ptr = read_u32_at(s.mem, crate::callconv::arg_addr(s.regs.esp, 0))->Some_0;
    let name = if wide {
        wide_at(s.mem, name_ptr as int)
    } else {
        ansi_at(s.mem, name_ptr as int)
    };
    let loaded = load_spec(s.catalog, s.images, s.mem, name)->Ok_0;
    let ci = catalog_find(s.catalog, normalize(name))->Some_0;
    let e = s.catalog[ci];
    match named(s.mem, e.name) {
        Some(_) => {
            assert(loaded.0 == s.mem);
        },
        None => {
            let pm = MapM {
                name: e.name,
                base: e.base,
                bytes: image_bytes(s.images, e.image),
            };
            let grown = s.mem.push(pm);
            lemma_read_u32_push(s.mem, s.regs.esp as int, pm);
            assert(read_u32_at(grown, s.regs.esp as int) == Some(ret));
            match e.text {
                None => {
                    assert(loaded.0 == grown);
                },
                Some(t) => {
                    let tm = MapM {
                        name: t.name,
                        base: t.base,
                        bytes: image_bytes(s.images, t.image),
                    };
                    match named(grown, t.name) {
                        None => {
                            lemma_read_u32_push(grown, s.regs.esp as int, tm);
                            assert(loaded.0 == grown.push(tm));
                        },
                        Some(_) => {
                            assert(loaded.0 == grown);
                        },
                    }
                },
            }
        },
    }
    assert(read_u32_at(loaded.0, s.regs.esp as int) == Some(ret));
}

/// Unknown-module determinism: a narrow- or wide-name load of a name
/// absent from the catalog always raises *unsupported module* carrying
/// that name, and leaves the whole session state unchanged.
pub proof fn lemma_unknown_module(s: EmuM, addr: u32, h: HandlerId)
    requires
        resolve(s.table, addr) == Some(h),
        h == HandlerId::LoadLibraryA || h == HandlerId::LoadLibraryW,
        read_u32_at(s.mem, crate::callconv::arg_addr(s.regs.esp, 0)) is Some,
        ({
            let name_ptr = read_u32_at(s.mem, crate::callconv::arg_addr(s.regs.esp, 0))->Some_0;
            let name = if h == HandlerId::LoadLibraryW {
                wide_at(s.mem, name_ptr as int)
            } else {
                ansi_at(s.mem, name_ptr as int)
            };
            catalog_find(s.catalog, normalize(name)) is None
        }),
    ensures
        ({
            let name_ptr = read_u32_at(s.mem, crate::callconv::arg_addr(s.regs.esp, 0))->Some_0;
            let name = if h == HandlerId::LoadLibraryW {
                wide_at(s.mem, name_ptr as int)
            } else {
                ansi_at(s.mem, name_ptr as int)
            };
            step(s, addr) == (s, Err::<(), FaultM>(FaultM::UnsupportedModule(name)))
        }),
{
}

/// The mapping that `map_at` found does contain the address.
proof fn proof_in_map(mem: Seq<MapM>, a: int)
    requires
        map_at(mem, a) is Some,
    ensures
        0 <= map_at(mem, a)->Some_0 < mem.len(),
        crate::mem::in_map(mem[map_at(mem, a)->Some_0], a),
{
    let p = |mm: MapM| crate::mem::in_map(mm, a);
    lemma_first_where_props(mem, p);
    assert(p(mem[map_at(mem, a)->Some_0]));
}

/// The wide-string encoding of a narrow name: each byte widened to a
/// 16-bit little-endian code unit.
pub open spec fn wide_encode(bs: Seq<u8>) -> Seq<u8> {
    Seq::new(
        2 * bs.len(),
        |i: int|
            if i % 2 == 0 {
                bs[i / 2]
            } else {
                0u8
            },
    )
}

/// A narrow string stored with its terminator decodes to exactly
/// itself.
pub proof fn lemma_narrow_decodes_exact(mem: Seq<MapM>, a: int, bs: Seq<u8>)
    requires
        map_at(mem, a) is Some,
        ({
            let m = mem[map_at(mem, a)->Some_0];
            let o = a - m.base;
            &&& o + bs.len() < m.bytes.len()
            &&& m.bytes.subrange(o, o + bs.len()) == bs
            &&& m.bytes[o + bs.len()] == 0
        }),
        forall|i: int| 0 <= i < bs.len() ==> #[trigger] bs[i] != 0,
    ensures
        ansi_at(mem, a) == bs,
{
    let m = mem[map_at(mem, a)->Some_0];
    let o = a - m.base;
    proof_in_map(mem, a);
    let tail = m.bytes.skip(o);
    assert forall|j: int| 0 <= j < bs.len() implies #[trigger] tail[j] != 0 by {
        assert(tail[j] == m.bytes.subrange(o, o + bs.len())[j]);
    }
    assert(tail[bs.len() as int] == 0);
    lemma_until_nul_take(tail, bs.len() as int);
    assert(tail.take(bs.len() as int) =~= bs);
}

/// The code units read from a wide-encoded name, stored with its
/// two-byte terminator, are exactly the name's bytes widened.
pub proof fn lemma_wide_units_exact(b: Seq<u8>, o: int, bs: Seq<u8>)
    requires
        0 <= o,
        o + 2 * bs.len() + 2 <= b.len(),
        b.subrange(o, o + 2 * bs.len()) == wide_encode(bs),
        b[o + 2 * bs.len()] == 0,
        b[o + 2 * bs.len() + 1] == 0,
        forall|i: int| 0 <= i < bs.len() ==> #[trigger] bs[i] != 0,
    ensures
        wide_units(b, o) == bs.map_values(|x: u8| x as u16),
    decreases bs.len(),
{
    let w = b.subrange(o, o + 2 * bs.len());
    if bs.len() == 0 {
        assert(wide_units(b, o) =~= bs.map_values(|x: u8| x as u16));
    } else {
        assert(b[o] == w[0] && w[0] == bs[0]);
        assert(b[o + 1] == w[1] && w[1] == 0);
        assert(bs[0] != 0);
        let rest = bs.skip(1);
        assert forall|i: int| 0 <= i < rest.len() implies #[trigger] rest[i] != 0 by {
            assert(bs[i + 1] != 0);
        }
        assert(b.subrange(o + 2, o + 2 + 2 * rest.len()) =~= wide_encode(rest)) by {
            assert forall|i: int| 0 <= i < 2 * rest.len() implies b.subrange(
                o + 2,
                o + 2 + 2 * rest.len(),
            )[i] == wide_encode(rest)[i] by {
                assert(b.subrange(o + 2, o + 2 + 2 * rest.len())[i] == b[o + 2 + i]);
                assert(b[o + 2 + i] == w[i + 2]);
                if i % 2 == 0 {
                    assert(wide_encode(bs)[i + 2] == bs[(i + 2) / 2]);
                    assert(rest[i / 2] == bs[i / 2 + 1]);
                } else {
                    assert(wide_encode(bs)[i + 2] == 0u8);
                }
            }
        }
        lemma_wide_units_exact(b, o + 2, rest);
        assert((b[o] + b[o + 1] * 0x100) as u16 == bs[0] as u16);
        assert(wide_units(b, o) =~= seq![bs[0] as u16] + wide_units(b, o + 2));
        assert(seq![bs[0] as u16] + rest.map_values(|x: u8| x as u16) =~= bs.map_values(
            |x: u8| x as u16,
        ));
    }
}

/// A wide-stored name decodes to exactly the narrow bytes it encodes.
pub proof fn lemma_wide_decodes_exact(mem: Seq<MapM>, a: int, bs: Seq<u8>)
    requires
        map_at(mem, a) is Some,
        ({
            let m = mem[map_at(mem, a)->Some_0];
            let o = a - m.base;
            &&& o + 2 * bs.len() + 2 <= m.bytes.len()
            &&& m.bytes.subrange(o, o + 2 * bs.len()) == wide_encode(bs)
            &&& m.bytes[o + 2 * bs.len()] == 0
            &&& m.bytes[o + 2 * bs.len() + 1] == 0
        }),
        forall|i: int| 0 <= i < bs.len() ==> #[trigger] bs[i] != 0,
    ensures
        wide_at(mem, a) == bs,
{
    let m = mem[map_at(mem, a)->Some_0];
    let o = a - m.base;
    proof_in_map(mem, a);
    lemma_wide_units_exact(m.bytes, o, bs);
    assert(bs.map_values(|x: u8| x as u16).map_values(|u: u16| narrow_unit(u)) =~= bs);
}

/// Narrow/wide decoding equivalence: a module name stored as a wide
/// string decodes to text identical to the same name stored as a
/// narrow string.
pub proof fn lemma_narrow_wide_equivalence(
    mem_n: Seq<MapM>,
    an: int,
    mem_w: Seq<MapM>,
    aw: int,
    bs: Seq<u8>,
)
    requires
        map_at(mem_n, an) is Some,
        ({
            let m = mem_n[map_at(mem_n, an)->Some_0];
            let o = an - m.base;
            &&& o + bs.len() < m.bytes.len()
            &&& m.bytes.subrange(o, o + bs.len()) == bs
            &&& m.bytes[o + bs.len()] == 0
        }),
        map_at(mem_w, aw) is Some,
        ({
            let m = mem_w[map_at(mem_w, aw)->Some_0];
            let o = aw - m.base;
            &&& o + 2 * bs.len() + 2 <= m.bytes.len()
            &&& m.bytes.subrange(o, o + 2 * bs.len()) == wide_encode(bs)
            &&& m.bytes[o + 2 * bs.len()] == 0
            &&& m.bytes[o + 2 * bs.len() + 1] == 0
        }),
        forall|i: int| 0 <= i < bs.len() ==> #[trigger] bs[i] != 0,
    ensures
        wide_at(mem_w, aw) == ansi_at(mem_n, an),
        ansi_at(mem_n, an) == bs,
{
    lemma_narrow_decodes_exact(mem_n, an, bs);
    lemma_wide_decodes_exact(mem_w, aw, bs);
}

} // verus!
