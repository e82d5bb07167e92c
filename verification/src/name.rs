//! Module-name normalization.
//!
//! Catalog lookup is case-insensitive and indifferent to the conventional
//! `.dll` extension: a requested name is folded to ASCII lower case and a
//! trailing `.dll` is stripped before it is compared with a catalog key.

use vstd::prelude::*;

verus! {

/// ASCII code of `A`.
pub const UPPER_A: u8 = 65;

/// ASCII code of `Z`.
pub const UPPER_Z: u8 = 90;

/// Distance from an ASCII upper-case letter to its lower-case form.
pub const CASE_GAP: u8 = 32;

/// ASCII code of `.`.
pub const DOT: u8 = 46;

/// ASCII code of `d`.
pub const LETTER_D: u8 = 100;

/// ASCII code of `l`.
pub const LETTER_L: u8 = 108;

/// ASCII lower-casing of one byte.
pub open spec fn lower_byte(b: u8) -> u8 {
    if UPPER_A <= b <= UPPER_Z {
        (b + CASE_GAP) as u8
    } else {
        b
    }
}

/// ASCII lower-casing of a byte string.
pub open spec fn lower(s: Seq<u8>) -> Seq<u8> {
    s.map_values(|b: u8| lower_byte(b))
}

/// The four bytes of the conventional extension, lower case.
pub open spec fn dll_suffix() -> Seq<u8> {
    seq![DOT, LETTER_D, LETTER_L, LETTER_L]
}

/// Canonical form of a module name: lower case, trailing `.dll` removed.
pub open spec fn normalize(s: Seq<u8>) -> Seq<u8> {
    let l = lower(s);
    if l.len() >= 4 && l.skip(l.len() - 4) =~= dll_suffix() {
        l.take(l.len() - 4)
    } else {
        l
    }
}

/// Byte-string equality, decided by a loop.
pub fn bytes_eq(a: &Vec<u8>, b: &Vec<u8>) -> (r: bool)
    ensures
        r == (a@ == b@),
{
    if a.len() != b.len() {
        proof {
            assert(a@ != b@);
        }
        return false;
    }
    let n = a.len();
    let mut i: usize = 0;
    while i < n
        invariant
            n == a.len() == b.len(),
            0 <= i <= n,
            forall|j: int| 0 <= j < i ==> a@[j] == b@[j],
        decreases n - i,
    {
        if a[i] != b[i] {
            proof {
                assert(a@[i as int] != b@[i as int]);
            }
            return false;
        }
        i += 1;
    }
    proof {
        assert(a@ =~= b@);
    }
    true
}

/// Computes the canonical form of a requested module name.
pub fn normalize_name(s: &Vec<u8>) -> (r: Vec<u8>)
    ensures
        r@ == normalize(s@),
{
    let n = s.len();
    let mut l: Vec<u8> = Vec::new();
    let mut i: usize = 0;
    while i < n
        invariant
            n == s.len(),
            0 <= i <= n,
            l@ =~= lower(s@).take(i as int),
        decreases n - i,
    {
        let b = s[i];
        let lb = if UPPER_A <= b && b <= UPPER_Z {
            b + CASE_GAP
        } else {
            b
        };
        proof {
            assert(lb == lower_byte(s@[i as int]));
            assert(lower(s@).take(i + 1) =~= lower(s@).take(i as int).push(
                lower(s@)[i as int],
            ));
        }
        l.push(lb);
        i += 1;
    }
    proof {
        assert(l@ =~= lower(s@));
    }
    if n >= 4 && l[n - 4] == DOT && l[n - 3] == LETTER_D && l[n - 2] == LETTER_L && l[n - 1] == LETTER_L {
        proof {
            assert(l@.skip(n - 4) =~= dll_suffix());
        }
        l.truncate(n - 4);
        proof {
            assert(l@ =~= normalize(s@));
        }
        l
    } else {
        proof {
            if n >= 4 {
                let t = lower(s@).skip(n - 4);
                assert(t.len() == 4);
                if t =~= dll_suffix() {
                    assert(l@[n - 4] == t[0]);
                    assert(l@[n - 3] == t[1]);
                    assert(l@[n - 2] == t[2]);
                    assert(l@[n - 1] == t[3]);
                }
            }
            assert(l@ =~= normalize(s@));
        }
        l
    }
}

} // verus!
