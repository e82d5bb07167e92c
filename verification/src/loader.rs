//! The shared load algorithm of the LoadLibrary family.
//!
//! Given a decoded module name: normalize it, resolve it in the
//! catalog, reuse the module's live mapping if one exists, and
//! otherwise create the catalog-specified mapping (and code-section
//! mapping, when the entry has one) with content from the snapshot
//! image store. The result is the module's base address; a name absent
//! from the catalog is an *unsupported module* fault, raised before any
//! state changes.

use vstd::prelude::*;

use crate::catalog::{Catalog, EntryM, catalog_find};
use crate::fault::{Fault, FaultM};
use crate::images::{ImageStore, ImgM, copy_bytes, image_bytes};
use crate::mem::{MapM, Memory, named};
use crate::name::{normalize, normalize_name};

verus! {

/// The model of one load: the memory after the call and the resulting
/// base address, or the fault that left memory untouched.
pub open spec fn load_spec(
    cat: Seq<EntryM>,
    imgs: Seq<ImgM>,
    mem: Seq<MapM>,
    name: Seq<u8>,
) -> Result<(Seq<MapM>, u32), FaultM> {
    match catalog_find(cat, normalize(name)) {
        None => Err(FaultM::UnsupportedModule(name)),
        Some(ci) => {
            let e = cat[ci];
            match named(mem, e.name) {
                Some(mi) => Ok((mem, mem[mi].base)),
                None => {
                    let grown = mem.push(
                        MapM { name: e.name, base: e.base, bytes: image_bytes(imgs, e.image) },
                    );
                    let full = match e.text {
                        None => grown,
                        Some(t) => match named(grown, t.name) {
                            None => grown.push(
                                MapM { name: t.name, base: t.base, bytes: image_bytes(
                                    imgs,
                                    t.image,
                                ) },
                            ),
                            Some(_) => grown,
                        },
                    };
                    Ok((full, e.base))
                },
            }
        },
    }
}

/// Loads `name`: reuses the module's live mapping or creates the
/// catalog-specified mapping(s), returning the module's base address.
pub fn load_module(
    catalog: &Catalog,
    images: &ImageStore,
    mem: &mut Memory,
    name: &Vec<u8>,
) -> (r: Result<u32, Fault>)
    ensures
        match load_spec(catalog@, images@, old(mem)@, name@) {
            Ok(p) => r is Ok && r->Ok_0 == p.1 && final(mem)@ == p.0,
            Err(f) => r is Err && r->Err_0@ == f && final(mem)@ == old(mem)@,
        },
{
    let key = normalize_name(name);
    match catalog.find(&key) {
        None => Err(Fault::UnsupportedModule(copy_bytes(name))),
        Some(ci) => {
            let e = catalog.entry(ci);
            match mem.find_named(&e.name) {
                Some(mi) => Ok(mem.base_of(mi)),
                None => {
                    let content = images.content_of(&e.image);
                    let created = mem.insert_mapping(copy_bytes(&e.name), e.base, content);
                    proof {
                        assert(created);
                    }
                    match &e.text {
                        None => {},
                        Some(t) => {
                            let text_content = images.content_of(&t.image);
                            let _ = mem.insert_mapping(
                                copy_bytes(&t.name),
                                t.base,
                                text_content,
                            );
                        },
                    }
                    Ok(e.base)
                },
            }
        },
    }
}

} // verus!
