//! Byte-buffer helpers shared by the record and instruction codecs.
//!
//! Every (de)serializer in this crate reads and writes fixed byte ranges
//! through these functions instead of reinterpreting memory, so the wire
//! format is independent of in-memory struct layout.

use vstd::prelude::*;

verus! {

/// Copies `len` bytes of `src` starting at `start` into a fresh vector.
pub fn copy_range(src: &Vec<u8>, start: usize, len: usize) -> (r: Vec<u8>)
    requires
        start + len <= src.len(),
    ensures
        r@ == src@.subrange(start as int, start + len),
{
    let mut r: Vec<u8> = Vec::new();
    let mut i: usize = 0;
    while i < len
        invariant
            start + len <= src.len(),
            i <= len,
            r@ == src@.subrange(start as int, start + i),
        decreases len - i,
    {
        r.push(src[start + i]);
        i = i + 1;
        proof {
            assert(r@ =~= src@.subrange(start as int, start + i));
        }
    }
    r
}

/// Compares `len` bytes of `a` starting at `a_start` against `len` bytes of
/// `b` starting at `b_start`.
pub fn eq_range(a: &Vec<u8>, a_start: usize, b: &Vec<u8>, b_start: usize, len: usize) -> (r: bool)
    requires
        a_start + len <= a.len(),
        b_start + len <= b.len(),
    ensures
        r == (a@.subrange(a_start as int, a_start + len) == b@.subrange(
            b_start as int,
            b_start + len,
        )),
{
    let ghost sa = a@.subrange(a_start as int, a_start + len);
    let ghost sb = b@.subrange(b_start as int, b_start + len);
    let mut i: usize = 0;
    while i < len
        invariant
            a_start + len <= a.len(),
            b_start + len <= b.len(),
            i <= len,
            sa == a@.subrange(a_start as int, a_start + len),
            sb == b@.subrange(b_start as int, b_start + len),
            forall|j: int| 0 <= j < i ==> sa[j] == sb[j],
        decreases len - i,
    {
        if a[a_start + i] != b[b_start + i] {
            proof {
                assert(sa[i as int] != sb[i as int]);
            }
            return false;
        }
        i = i + 1;
    }
    proof {
        assert(sa =~= sb);
    }
    true
}

/// Does `w` hold exactly the `len` bytes of `v` starting at `start`?
pub fn range_matches(v: &Vec<u8>, start: usize, len: usize, w: &Vec<u8>) -> (r: bool)
    requires
        start + len <= v.len(),
    ensures
        r == (w@ == v@.subrange(start as int, start + len)),
{
    if w.len() != len {
        return false;
    }
    let r = eq_range(v, start, w, 0, len);
    proof {
        assert(w@.subrange(0, len as int) =~= w@);
    }
    r
}

/// Overwrites `dst[at .. at + src.len()]` with the bytes of `src`, leaving
/// the rest of `dst` unchanged.
pub fn write_range(dst: &mut Vec<u8>, at: usize, src: &Vec<u8>)
    requires
        at + src.len() <= old(dst).len(),
    ensures
        final(dst)@ == old(dst)@.subrange(0, at as int) + src@ + old(dst)@.skip(at + src.len()),
{
    let len = src.len();
    let mut i: usize = 0;
    while i < len
        invariant
            at + len <= dst.len(),
            len == src.len(),
            i <= len,
            dst@.len() == old(dst)@.len(),
            forall|j: int| 0 <= j < at ==> dst@[j] == old(dst)@[j],
            forall|j: int| 0 <= j < i ==> dst@[at + j] == src@[j],
            forall|j: int| at + len <= j < dst@.len() ==> dst@[j] == old(dst)@[j],
            forall|j: int| at + i <= j < at + len ==> dst@[j] == old(dst)@[j],
        decreases len - i,
    {
        dst[at + i] = src[i];
        i = i + 1;
    }
    proof {
        assert(dst@ =~= old(dst)@.subrange(0, at as int) + src@ + old(dst)@.skip(at + src.len()));
    }
}

/// Appends every byte of `src` to `dst`.
pub fn append_all(dst: &mut Vec<u8>, src: &Vec<u8>)
    ensures
        final(dst)@ == old(dst)@ + src@,
{
    let len = src.len();
    let mut i: usize = 0;
    while i < len
        invariant
            len == src.len(),
            i <= len,
            dst@ == old(dst)@ + src@.subrange(0, i as int),
        decreases len - i,
    {
        dst.push(src[i]);
        i = i + 1;
        proof {
            assert(old(dst)@ + src@.subrange(0, i - 1) + seq![src@[i - 1]] =~= old(dst)@
                + src@.subrange(0, i as int));
        }
    }
    proof {
        assert(src@.subrange(0, len as int) =~= src@);
    }
}

} // verus!
