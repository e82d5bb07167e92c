//! The snapshot image store.
//!
//! Each catalog module is backed by one or two raw memory dumps, loaded
//! verbatim into a fresh mapping. The session controller reads the dump
//! files before emulation starts and hands their contents to the store;
//! a load handler then only looks a path up. A path with no stored
//! image yields empty content.

use vstd::prelude::*;

use crate::seqs::{first_where, lemma_first_where_is, lemma_first_where_none};

verus! {

/// One stored snapshot image: a path and the raw bytes behind it.
pub struct ImageFile {
    pub path: Vec<u8>,
    pub bytes: Vec<u8>,
}

/// Mathematical model of a stored image.
#[verifier::ext_equal]
pub ghost struct ImgM {
    pub path: Seq<u8>,
    pub bytes: Seq<u8>,
}

impl View for ImageFile {
    type V = ImgM;

    open spec fn view(&self) -> ImgM {
        ImgM { path: self.path@, bytes: self.bytes@ }
    }
}

/// The content stored for `path`: the bytes of the first image with
/// that path, or empty content when none is stored.
pub open spec fn image_bytes(imgs: Seq<ImgM>, path: Seq<u8>) -> Seq<u8> {
    match first_where(imgs, |f: ImgM| f.path == path) {
        None => Seq::empty(),
        Some(i) => imgs[i].bytes,
    }
}

/// All snapshot images available to this session.
pub struct ImageStore {
    files: Vec<ImageFile>,
}

impl View for ImageStore {
    type V = Seq<ImgM>;

    closed spec fn view(&self) -> Seq<ImgM> {
        self.files@.map_values(|f: ImageFile| f@)
    }
}

impl ImageStore {
    /// A store holding exactly the given images.
    pub fn new(files: Vec<ImageFile>) -> (r: ImageStore)
        ensures
            r@ == files@.map_values(|f: ImageFile| f@),
    {
        ImageStore { files }
    }

    /// The content stored for `path`, copied out.
    pub fn content_of(&self, path: &Vec<u8>) -> (r: Vec<u8>)
        ensures
            r@ == image_bytes(self@, path@),
    {
        let n = self.files.len();
        let mut i: usize = 0;
        while i < n
            invariant
                n == self.files.len(),
                self@.len() == n,
                0 <= i <= n,
                forall|j: int| 0 <= j < i ==> (#[trigger] self@[j]).path != path@,
            decreases n - i,
        {
            if crate::name::bytes_eq(&self.files[i].path, path) {
                proof {
                    let p = |f: ImgM| f.path == path@;
                    assert(p(self@[i as int]));
                    assert forall|j: int| 0 <= j < i implies !p(#[trigger] self@[j]) by {
                        assert(self@[j].path != path@);
                    }
                    lemma_first_where_is(self@, p, i as int);
                }
                return copy_bytes(&self.files[i].bytes);
            }
            proof {
                assert(self@[i as int].path != path@);
            }
            i += 1;
        }
        proof {
            let p = |f: ImgM| f.path == path@;
            assert forall|j: int| 0 <= j < self@.len() implies !p(#[trigger] self@[j]) by {
                assert(self@[j].path != path@);
            }
            lemma_first_where_none(self@, p);
        }
        Vec::new()
    }
}

/// Copies a byte vector.
pub fn copy_bytes(v: &Vec<u8>) -> (r: Vec<u8>)
    ensures
        r@ == v@,
{
    let n = v.len();
    let mut out: Vec<u8> = Vec::new();
    let mut i: usize = 0;
    while i < n
        invariant
            n == v.len(),
            0 <= i <= n,
            out@ =~= v@.take(i as int),
        decreases n - i,
    {
        out.push(v[i]);
        i += 1;
    }
    proof {
        assert(out@ =~= v@);
    }
    out
}

} // verus!
