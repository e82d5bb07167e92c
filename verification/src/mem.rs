//! The guest's virtual memory: named mappings and byte-level reads.
//!
//! A mapping is a named region with a base address and byte content,
//! standing in for a loaded module's image. Reads are serviced by the
//! first mapping (in creation order) that contains the start address;
//! words are little-endian, narrow strings run to the first `NUL`, wide
//! strings are 16-bit little-endian code units ending at a zero unit.

use vstd::prelude::*;

use crate::seqs::{
    first_where, lemma_first_where_is, lemma_first_where_none, lemma_first_where_props,
    lemma_first_where_push, lemma_map_values_push,
};

verus! {

/// Replacement byte for a wide code unit outside the narrow range
/// (ASCII `?`, the conventional substitution character).
pub const SUBSTITUTE: u8 = 63;

/// Mathematical model of one mapping.
#[verifier::ext_equal]
pub ghost struct MapM {
    pub name: Seq<u8>,
    pub base: u32,
    pub bytes: Seq<u8>,
}

/// Does mapping `m` contain address `a`?
pub open spec fn in_map(m: MapM, a: int) -> bool {
    m.base <= a < m.base + m.bytes.len()
}

/// Index of the first mapping containing address `a`.
pub open spec fn map_at(mem: Seq<MapM>, a: int) -> Option<int> {
    first_where(mem, |m: MapM| in_map(m, a))
}

/// Index of the first mapping named `n`.
pub open spec fn named(mem: Seq<MapM>, n: Seq<u8>) -> Option<int> {
    first_where(mem, |m: MapM| m.name == n)
}

/// Little-endian 32-bit word at offset `o` of byte string `b`.
pub open spec fn le32(b: Seq<u8>, o: int) -> u32 {
    (b[o] + b[o + 1] * 0x100 + b[o + 2] * 0x10000 + b[o + 3] * 0x1000000) as u32
}

/// The word read at address `a`, when all four bytes lie in the mapping
/// that contains `a`.
pub open spec fn read_u32_at(mem: Seq<MapM>, a: int) -> Option<u32> {
    match map_at(mem, a) {
        None => None,
        Some(i) => {
            let m = mem[i];
            if a + 4 <= m.base + m.bytes.len() {
                Some(le32(m.bytes, a - m.base))
            } else {
                None
            }
        },
    }
}

/// The longest zero-free prefix of `s`: a narrow string up to its `NUL`
/// terminator, or to the end of the region when none occurs.
pub open spec fn until_nul(s: Seq<u8>) -> Seq<u8>
    decreases s.len(),
{
    if s.len() == 0 {
        Seq::empty()
    } else if s[0] == 0 {
        Seq::empty()
    } else {
        seq![s[0]] + until_nul(s.skip(1))
    }
}

/// The narrow string read at address `a`: empty when `a` is unmapped.
pub open spec fn ansi_at(mem: Seq<MapM>, a: int) -> Seq<u8> {
    match map_at(mem, a) {
        None => Seq::empty(),
        Some(i) => until_nul(mem[i].bytes.skip(a - mem[i].base)),
    }
}

/// The 16-bit little-endian code units from offset `o` of `b`, up to a
/// zero unit or to where fewer than two bytes remain.
pub open spec fn wide_units(b: Seq<u8>, o: int) -> Seq<u16>
    decreases b.len() - o,
{
    if 0 <= o && o + 2 <= b.len() && !(b[o] == 0 && b[o + 1] == 0) {
        seq![(b[o] + b[o + 1] * 0x100) as u16] + wide_units(b, o + 2)
    } else {
        Seq::empty()
    }
}

/// One wide code unit decoded to a narrow byte; units beyond the narrow
/// range decode to the substitution character.
pub open spec fn narrow_unit(u: u16) -> u8 {
    if u < 0x100 {
        u as u8
    } else {
        SUBSTITUTE
    }
}

/// The wide string read at address `a`, decoded to narrow bytes.
pub open spec fn wide_at(mem: Seq<MapM>, a: int) -> Seq<u8> {
    match map_at(mem, a) {
        None => Seq::empty(),
        Some(i) => wide_units(mem[i].bytes, a - mem[i].base).map_values(|u: u16| narrow_unit(u)),
    }
}

/// One virtual mapping: a named region of guest memory.
pub struct Mapping {
    pub name: Vec<u8>,
    pub base: u32,
    pub bytes: Vec<u8>,
}

impl View for Mapping {
    type V = MapM;

    open spec fn view(&self) -> MapM {
        MapM { name: self.name@, base: self.base, bytes: self.bytes@ }
    }
}

/// The guest's virtual memory: every live mapping, in creation order.
pub struct Memory {
    maps: Vec<Mapping>,
}

impl View for Memory {
    type V = Seq<MapM>;

    closed spec fn view(&self) -> Seq<MapM> {
        self.maps@.map_values(|m: Mapping| m@)
    }
}

impl Memory {
    /// A memory with no mappings.
    pub fn new() -> (r: Memory)
        ensures
            r@ == Seq::<MapM>::empty(),
    {
        let r = Memory { maps: Vec::new() };
        proof {
            assert(r@ =~= Seq::<MapM>::empty());
        }
        r
    }

    /// Number of live mappings.
    pub fn count(&self) -> (r: usize)
        ensures
            r == self@.len(),
    {
        self.maps.len()
    }

    /// The base address of the mapping at index `i`.
    pub fn base_of(&self, i: usize) -> (r: u32)
        requires
            i < self@.len(),
        ensures
            r == self@[i as int].base,
    {
        self.maps[i].base
    }

    /// The name of the mapping at index `i`.
    pub fn name_of(&self, i: usize) -> (r: &Vec<u8>)
        requires
            i < self@.len(),
        ensures
            r@ == self@[i as int].name,
    {
        &self.maps[i].name
    }

    /// The byte content of the mapping at index `i`.
    pub fn bytes_of(&self, i: usize) -> (r: &Vec<u8>)
        requires
            i < self@.len(),
        ensures
            r@ == self@[i as int].bytes,
    {
        &self.maps[i].bytes
    }

    /// Looks up the first mapping containing address `a`.
    pub fn find_at(&self, a: u32) -> (r: Option<usize>)
        ensures
            match r {
                None => map_at(self@, a as int) is None,
                Some(u) => u < self@.len() && map_at(self@, a as int) == Some(u as int),
            },
    {
        let n = self.maps.len();
        let mut i: usize = 0;
        while i < n
            invariant
                n == self.maps.len(),
                self@.len() == n,
                0 <= i <= n,
                forall|j: int| 0 <= j < i ==> !in_map(#[trigger] self@[j], a as int),
            decreases n - i,
        {
            let m = &self.maps[i];
            if m.base <= a && ((a - m.base) as usize) < m.bytes.len() {
                proof {
                    let p = |m: MapM| in_map(m, a as int);
                    assert(in_map(self@[i as int], a as int));
                    assert(p(self@[i as int]));
                    assert forall|j: int| 0 <= j < i implies !p(#[trigger] self@[j]) by {
                        assert(!in_map(self@[j], a as int));
                    }
                    lemma_first_where_is(self@, p, i as int);
                }
                return Some(i);
            }
            proof {
                assert(!in_map(self@[i as int], a as int));
            }
            i += 1;
        }
        proof {
            let p = |m: MapM| in_map(m, a as int);
            assert forall|j: int| 0 <= j < self@.len() implies !p(#[trigger] self@[j]) by {
                assert(!in_map(self@[j], a as int));
            }
            lemma_first_where_none(self@, p);
        }
        None
    }

    /// Looks up the first mapping named `n`.
    pub fn find_named(&self, n: &Vec<u8>) -> (r: Option<usize>)
        ensures
            match r {
                None => named(self@, n@) is None,
                Some(u) => u < self@.len() && named(self@, n@) == Some(u as int),
            },
    {
        let count = self.maps.len();
        let mut i: usize = 0;
        while i < count
            invariant
                count == self.maps.len(),
                self@.len() == count,
                0 <= i <= count,
                forall|j: int| 0 <= j < i ==> (#[trigger] self@[j]).name != n@,
            decreases count - i,
        {
            if crate::name::bytes_eq(&self.maps[i].name, n) {
                proof {
                    let p = |m: MapM| m.name == n@;
                    assert(self@[i as int].name == n@);
                    assert(p(self@[i as int]));
                    assert forall|j: int| 0 <= j < i implies !p(#[trigger] self@[j]) by {
                        assert(self@[j].name != n@);
                    }
                    lemma_first_where_is(self@, p, i as int);
                }
                return Some(i);
            }
            proof {
                assert(self@[i as int].name != n@);
            }
            i += 1;
        }
        proof {
            let p = |m: MapM| m.name == n@;
            assert forall|j: int| 0 <= j < self@.len() implies !p(#[trigger] self@[j]) by {
                assert(self@[j].name != n@);
            }
            lemma_first_where_none(self@, p);
        }
        None
    }

    /// Creates a mapping named `name` at `base` with content `bytes`,
    /// unless one of that name is already live; mappings are keyed by
    /// name, so a duplicate request leaves memory unchanged.
    pub fn insert_mapping(&mut self, name: Vec<u8>, base: u32, bytes: Vec<u8>) -> (r: bool)
        ensures
            r == (named(old(self)@, name@) is None),
            r ==> final(self)@ == old(self)@.push(MapM { name: name@, base, bytes: bytes@ }),
            !r ==> final(self)@ == old(self)@,
    {
        if self.find_named(&name).is_some() {
            return false;
        }
        let ghost prior = self.maps@;
        self.maps.push(Mapping { name, base, bytes });
        proof {
            lemma_map_values_push(prior, |m: Mapping| m@, self.maps@.last());
            assert(self@ =~= prior.map_values(|m: Mapping| m@).push(self.maps@.last()@));
        }
        true
    }

    /// Reads the little-endian word at address `a`, failing when `a` is
    /// unmapped or the word would run past its mapping.
    pub fn read_u32(&self, a: u32) -> (r: Option<u32>)
        ensures
            r == read_u32_at(self@, a as int),
    {
        match self.find_at(a) {
            None => None,
            Some(i) => {
                let m = &self.maps[i];
                proof {
                    let p = |mm: MapM| in_map(mm, a as int);
                    lemma_first_where_props(self@, p);
                    assert(p(self@[i as int]));
                    assert(in_map(self@[i as int], a as int));
                }
                let off = (a - m.base) as usize;
                if m.bytes.len() - off >= 4 {
                    let b0 = m.bytes[off] as u32;
                    let b1 = m.bytes[off + 1] as u32;
                    let b2 = m.bytes[off + 2] as u32;
                    let b3 = m.bytes[off + 3] as u32;
                    Some(b0 + b1 * 0x100 + b2 * 0x10000 + b3 * 0x1000000)
                } else {
                    None
                }
            },
        }
    }

    /// Reads the narrow, `NUL`-terminated string at address `a`.
    pub fn read_ansi(&self, a: u32) -> (r: Vec<u8>)
        ensures
            r@ == ansi_at(self@, a as int),
    {
        match self.find_at(a) {
            None => Vec::new(),
            Some(i) => {
                let m = &self.maps[i];
                proof {
                    let p = |mm: MapM| in_map(mm, a as int);
                    lemma_first_where_props(self@, p);
                    assert(p(self@[i as int]));
                    assert(in_map(self@[i as int], a as int));
                }
                let off0 = (a - m.base) as usize;
                let len = m.bytes.len();
                let mut o = off0;
                let mut out: Vec<u8> = Vec::new();
                while o < len && m.bytes[o] != 0
                    invariant
                        m == &self.maps@[i as int],
                        i < self.maps@.len(),
                        len == m.bytes.len(),
                        off0 <= o <= len,
                        out@ =~= m@.bytes.subrange(off0 as int, o as int),
                        forall|j: int| off0 <= j < o ==> m@.bytes[j] != 0,
                    decreases len - o,
                {
                    out.push(m.bytes[o]);
                    o += 1;
                }
                proof {
                    let tail = m@.bytes.skip(off0 as int);
                    assert forall|j: int| 0 <= j < o - off0 implies tail[j] != 0 by {
                        assert(m@.bytes[off0 + j] != 0);
                    }
                    lemma_until_nul_take(tail, o - off0 as int);
                    assert(tail.take(o - off0 as int) =~= m@.bytes.subrange(
                        off0 as int,
                        o as int,
                    ));
                }
                out
            },
        }
    }

    /// Reads the wide, zero-terminated string at address `a`, decoding
    /// each code unit to a narrow byte.
    pub fn read_wide(&self, a: u32) -> (r: Vec<u8>)
        ensures
            r@ == wide_at(self@, a as int),
    {
        match self.find_at(a) {
            None => Vec::new(),
            Some(i) => {
                let m = &self.maps[i];
                proof {
                    let p = |mm: MapM| in_map(mm, a as int);
                    lemma_first_where_props(self@, p);
                    assert(p(self@[i as int]));
                    assert(in_map(self@[i as int], a as int));
                }
                let off0 = (a - m.base) as usize;
                let len = m.bytes.len();
                let mut o = off0;
                let mut out: Vec<u8> = Vec::new();
                let ghost mut units: Seq<u16> = Seq::empty();
                proof {
                    assert(wide_units(m@.bytes, off0 as int) =~= units + wide_units(
                        m@.bytes,
                        off0 as int,
                    ));
                    assert(out@ =~= units.map_values(|u: u16| narrow_unit(u)));
                }
                while o < len && o + 1 < len && (m.bytes[o] != 0 || m.bytes[o + 1] != 0)
                    invariant
                        m == &self.maps@[i as int],
                        i < self.maps@.len(),
                        len == m.bytes.len(),
                        off0 <= o <= len,
                        wide_units(m@.bytes, off0 as int) == units + wide_units(
                            m@.bytes,
                            o as int,
                        ),
                        out@ == units.map_values(|u: u16| narrow_unit(u)),
                    decreases len - o,
                {
                    let lo = m.bytes[o];
                    let hi = m.bytes[o + 1];
                    let ghost u = (m@.bytes[o as int] + m@.bytes[o as int + 1] * 0x100) as u16;
                    proof {
                        assert(wide_units(m@.bytes, o as int) == seq![u] + wide_units(
                            m@.bytes,
                            o as int + 2,
                        ));
                        assert(narrow_unit(u) == if hi == 0 {
                            lo
                        } else {
                            SUBSTITUTE
                        }) by {
                            if hi == 0 {
                                assert(u == lo);
                            } else {
                                assert(u >= 0x100);
                            }
                        }
                        lemma_map_values_push(units, |x: u16| narrow_unit(x), u);
                        assert(wide_units(m@.bytes, off0 as int) =~= units.push(u)
                            + wide_units(m@.bytes, o as int + 2));
                    }
                    if hi == 0 {
                        out.push(lo);
                    } else {
                        out.push(SUBSTITUTE);
                    }
                    proof {
                        units = units.push(u);
                    }
                    o += 2;
                }
                proof {
                    assert(wide_units(m@.bytes, o as int) =~= Seq::<u16>::empty());
                    assert(wide_units(m@.bytes, off0 as int) =~= units);
                }
                out
            },
        }
    }
}

/// `until_nul` of a string whose first `k` bytes are nonzero and whose
/// `k`-th byte (if any) is zero is exactly the first `k` bytes.
pub proof fn lemma_until_nul_take(s: Seq<u8>, k: int)
    requires
        0 <= k <= s.len(),
        forall|j: int| 0 <= j < k ==> #[trigger] s[j] != 0,
        k == s.len() || s[k] == 0,
    ensures
        until_nul(s) == s.take(k),
    decreases s.len(),
{
    if s.len() == 0 {
        assert(until_nul(s) =~= s.take(0));
    } else if k == 0 {
        assert(s[0] == 0);
        assert(until_nul(s) =~= s.take(0));
    } else {
        assert(s[0] != 0);
        let t = s.skip(1);
        assert forall|j: int| 0 <= j < k - 1 implies #[trigger] t[j] != 0 by {
            assert(s[j + 1] != 0);
        }
        if k < s.len() {
            assert(t[k - 1] == s[k]);
        }
        lemma_until_nul_take(t, k - 1);
        assert(s.take(k) =~= seq![s[0]] + t.take(k - 1));
    }
}

/// Creating a new mapping does not disturb a word read that an existing
/// mapping already serviced.
pub proof fn lemma_read_u32_push(mem: Seq<MapM>, a: int, x: MapM)
    requires
        read_u32_at(mem, a) is Some,
    ensures
        read_u32_at(mem.push(x), a) == read_u32_at(mem, a),
{
    let p = |m: MapM| in_map(m, a);
    lemma_first_where_push(mem, p, x);
    let i = map_at(mem, a)->Some_0;
    lemma_first_where_props(mem, p);
    assert(mem.push(x)[i] == mem[i]);
}

} // verus!
