//! The module catalog: the single source of truth for which libraries
//! this emulator can pretend to load, and at which addresses.
//!
//! Each entry fixes a module's canonical (already normalized) name, its
//! base address, the path of its snapshot image, and optionally a
//! code-section mapping of its own. The addresses are configuration:
//! they must match the reference environment the guest was packed
//! against. Byte-string literals are spelled as ASCII codes, since the
//! verifier works on plain byte values; each is annotated with its text.

use vstd::prelude::*;

use crate::seqs::{first_where, lemma_first_where_is, lemma_first_where_none};

verus! {

/// A module's secondary code-section mapping: its own name, fixed base
/// and snapshot image.
pub struct TextSection {
    pub name: Vec<u8>,
    pub base: u32,
    pub image: Vec<u8>,
}

/// Mathematical model of a code section.
#[verifier::ext_equal]
pub ghost struct TextM {
    pub name: Seq<u8>,
    pub base: u32,
    pub image: Seq<u8>,
}

impl View for TextSection {
    type V = TextM;

    open spec fn view(&self) -> TextM {
        TextM { name: self.name@, base: self.base, image: self.image@ }
    }
}

/// One emulatable library: canonical name (normalized spelling, which
/// also names its mapping), fixed base address, primary snapshot image,
/// and an optional code section.
pub struct CatalogEntry {
    pub name: Vec<u8>,
    pub base: u32,
    pub image: Vec<u8>,
    pub text: Option<TextSection>,
}

/// Mathematical model of a catalog entry.
#[verifier::ext_equal]
pub ghost struct EntryM {
    pub name: Seq<u8>,
    pub base: u32,
    pub image: Seq<u8>,
    pub text: Option<TextM>,
}

impl View for CatalogEntry {
    type V = EntryM;

    open spec fn view(&self) -> EntryM {
        EntryM {
            name: self.name@,
            base: self.base,
            image: self.image@,
            text: match &self.text {
                None => None,
                Some(t) => Some(t@),
            },
        }
    }
}

/// Index of the first entry whose canonical name is `key`; the key is
/// expected in normalized form.
pub open spec fn catalog_find(cat: Seq<EntryM>, key: Seq<u8>) -> Option<int> {
    first_where(cat, |e: EntryM| e.name == key)
}

/// The table of emulatable libraries.
pub struct Catalog {
    entries: Vec<CatalogEntry>,
}

impl View for Catalog {
    type V = Seq<EntryM>;

    closed spec fn view(&self) -> Seq<EntryM> {
        self.entries@.map_values(|e: CatalogEntry| e@)
    }
}

impl Catalog {
    /// A catalog holding exactly the given entries.
    pub fn new(entries: Vec<CatalogEntry>) -> (r: Catalog)
        ensures
            r@ == entries@.map_values(|e: CatalogEntry| e@),
    {
        Catalog { entries }
    }

    /// Number of entries.
    pub fn count(&self) -> (r: usize)
        ensures
            r == self@.len(),
    {
        self.entries.len()
    }

    /// The entry at index `i`.
    pub fn entry(&self, i: usize) -> (r: &CatalogEntry)
        requires
            i < self@.len(),
        ensures
            r@ == self@[i as int],
    {
        &self.entries[i]
    }

    /// Resolves a normalized module name to its catalog entry.
    pub fn find(&self, key: &Vec<u8>) -> (r: Option<usize>)
        ensures
            match r {
                None => catalog_find(self@, key@) is None,
                Some(u) => u < self@.len() && catalog_find(self@, key@) == Some(u as int),
            },
    {
        let n = self.entries.len();
        let mut i: usize = 0;
        while i < n
            invariant
                n == self.entries.len(),
                self@.len() == n,
                0 <= i <= n,
                forall|j: int| 0 <= j < i ==> (#[trigger] self@[j]).name != key@,
            decreases n - i,
        {
            if crate::name::bytes_eq(&self.entries[i].name, key) {
                proof {
                    let p = |e: EntryM| e.name == key@;
                    assert(p(self@[i as int]));
                    assert forall|j: int| 0 <= j < i implies !p(#[trigger] self@[j]) by {
                        assert(self@[j].name != key@);
                    }
                    lemma_first_where_is(self@, p, i as int);
                }
                return Some(i);
            }
            proof {
                assert(self@[i as int].name != key@);
            }
            i += 1;
        }
        proof {
            let p = |e: EntryM| e.name == key@;
            assert forall|j: int| 0 <= j < self@.len() implies !p(#[trigger] self@[j]) by {
                assert(self@[j].name != key@);
            }
            lemma_first_where_none(self@, p);
        }
        None
    }
}

/// `"ntdll"` as bytes.
pub open spec fn ntdll_key() -> Seq<u8> {
    seq![110u8, 116, 100, 108, 108]
}

/// `"ws2_32"` as bytes.
pub open spec fn ws2_32_key() -> Seq<u8> {
    seq![119u8, 115, 50, 95, 51, 50]
}

/// `"wininet"` as bytes.
pub open spec fn wininet_key() -> Seq<u8> {
    seq![119u8, 105, 110, 105, 110, 101, 116]
}

/// The model of the session's default catalog: the three libraries the
/// reference environment ships, at their fixed addresses.
pub open spec fn default_catalog_model() -> Seq<EntryM> {
    seq![
        // "ntdll" at 0x77570000; code section "ntdll_text" at 0x77571000
        EntryM {
            name: ntdll_key(),
            base: 0x77570000,
            // "maps/ntdll.bin"
            image: seq![109u8, 97, 112, 115, 47, 110, 116, 100, 108, 108, 46, 98, 105, 110],
            text: Some(
                TextM {
                    // "ntdll_text"
                    name: seq![110u8, 116, 100, 108, 108, 95, 116, 101, 120, 116],
                    base: 0x77571000,
                    // "maps/ntdll_text.bin"
                    image: seq![
                        109u8, 97, 112, 115, 47, 110, 116, 100, 108, 108, 95, 116, 101, 120,
                        116, 46, 98, 105, 110,
                    ],
                },
            ),
        },
        // "ws2_32" at 0x77480000; code section "ws2_32_text" at 0x77481000
        EntryM {
            name: ws2_32_key(),
            base: 0x77480000,
            // "maps/ws2_32.bin"
            image: seq![109u8, 97, 112, 115, 47, 119, 115, 50, 95, 51, 50, 46, 98, 105, 110],
            text: Some(
                TextM {
                    // "ws2_32_text"
                    name: seq![119u8, 115, 50, 95, 51, 50, 95, 116, 101, 120, 116],
                    base: 0x77481000,
                    // "maps/ws2_32_text.bin"
                    image: seq![
                        109u8, 97, 112, 115, 47, 119, 115, 50, 95, 51, 50, 95, 116, 101, 120,
                        116, 46, 98, 105, 110,
                    ],
                },
            ),
        },
        // "wininet" at 0x76310000; code section "wininet_text" at 0x76311000
        EntryM {
            name: wininet_key(),
            base: 0x76310000,
            // "maps/wininet.bin"
            image: seq![
                109u8, 97, 112, 115, 47, 119, 105, 110, 105, 110, 101, 116, 46, 98, 105, 110,
            ],
            text: Some(
                TextM {
                    // "wininet_text"
                    name: seq![119u8, 105, 110, 105, 110, 101, 116, 95, 116, 101, 120, 116],
                    base: 0x76311000,
                    // "maps/wininet_text.bin"
                    image: seq![
                        109u8, 97, 112, 115, 47, 119, 105, 110, 105, 110, 101, 116, 95, 116,
                        101, 120, 116, 46, 98, 105, 110,
                    ],
                },
            ),
        },
    ]
}

/// Builds the session's default catalog.
pub fn default_catalog() -> (r: Catalog)
    ensures
        r@ == default_catalog_model(),
{
    let mut entries: Vec<CatalogEntry> = Vec::new();
    entries.push(
        CatalogEntry {
            // "ntdll"
            name: vec![110u8, 116, 100, 108, 108],
            base: 0x77570000,
            // "maps/ntdll.bin"
            image: vec![109u8, 97, 112, 115, 47, 110, 116, 100, 108, 108, 46, 98, 105, 110],
            text: Some(
                TextSection {
                    // "ntdll_text"
                    name: vec![110u8, 116, 100, 108, 108, 95, 116, 101, 120, 116],
                    base: 0x77571000,
                    // "maps/ntdll_text.bin"
                    image: vec![
                        109u8, 97, 112, 115, 47, 110, 116, 100, 108, 108, 95, 116, 101, 120,
                        116, 46, 98, 105, 110,
                    ],
                },
            ),
        },
    );
    entries.push(
        CatalogEntry {
            // "ws2_32"
            name: vec![119u8, 115, 50, 95, 51, 50],
            base: 0x77480000,
            // "maps/ws2_32.bin"
            image: vec![109u8, 97, 112, 115, 47, 119, 115, 50, 95, 51, 50, 46, 98, 105, 110],
            text: Some(
                TextSection {
                    // "ws2_32_text"
                    name: vec![119u8, 115, 50, 95, 51, 50, 95, 116, 101, 120, 116],
                    base: 0x77481000,
                    // "maps/ws2_32_text.bin"
                    image: vec![
                        109u8, 97, 112, 115, 47, 119, 115, 50, 95, 51, 50, 95, 116, 101, 120,
                        116, 46, 98, 105, 110,
                    ],
                },
            ),
        },
    );
    entries.push(
        CatalogEntry {
            // "wininet"
            name: vec![119u8, 105, 110, 105, 110, 101, 116],
            base: 0x76310000,
            // "maps/wininet.bin"
            image: vec![
                109u8, 97, 112, 115, 47, 119, 105, 110, 105, 110, 101, 116, 46, 98, 105, 110,
            ],
            text: Some(
                TextSection {
                    // "wininet_text"
                    name: vec![119u8, 105, 110, 105, 110, 101, 116, 95, 116, 101, 120, 116],
                    base: 0x76311000,
                    // "maps/wininet_text.bin"
                    image: vec![
                        109u8, 97, 112, 115, 47, 119, 105, 110, 105, 110, 101, 116, 95, 116,
                        101, 120, 116, 46, 98, 105, 110,
                    ],
                },
            ),
        },
    );
    let r = Catalog { entries };
    proof {
        assert(r@.len() == 3);
        assert(r@[0] =~~= default_catalog_model()[0]);
        assert(r@[1] =~~= default_catalog_model()[1]);
        assert(r@[2] =~~= default_catalog_model()[2]);
        assert(r@ =~~= default_catalog_model());
    }
    r
}

} // verus!
